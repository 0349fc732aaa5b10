use drone_mesh::crypto::key_manager::KeyStore;
use drone_mesh::device::client_device::{parse_command, ClientDevice, Command, Incoming, Outgoing};
use drone_mesh::network::protocol::{MessageProtocol, MessageType, SecureMessage};

fn message_from_text(text: &str) -> SecureMessage {
    let v: serde_json::Value = serde_json::from_str(text).unwrap();
    let kind = match v["msg_type"].as_str().unwrap() {
        "Text" => MessageType::Text,
        "Broadcast" => MessageType::Broadcast,
        "DeviceList" => MessageType::DeviceList,
        "Disconnect" => MessageType::Disconnect,
        _ => MessageType::Init,
    };
    SecureMessage {
        msg_type: kind,
        sender: v["sender"].as_str().unwrap().to_string(),
        receiver: v["receiver"].as_str().unwrap().to_string(),
        timestamp: v["timestamp"].as_str().unwrap().to_string(),
        payload: v["payload"].as_str().map(|s| s.to_string()),
        signature: v["signature"].as_str().map(|s| s.to_string()),
    }
}

fn is_direct(c: &Command, t: &str, m: &str) -> bool {
    matches!(c, Command::Direct { target, message } if target == t && message == m)
}

#[test]
fn commands_are_read() {
    assert!(matches!(parse_command("  /quit \n"), Command::Quit));
    assert!(matches!(parse_command("/list"), Command::List));
    assert!(matches!(parse_command("@all  hello there "), Command::Broadcast(m) if m == "hello there"));
    assert!(matches!(parse_command("@all"), Command::Nothing));
    assert!(matches!(parse_command("@allx"), Command::Nothing));
    assert!(matches!(parse_command("@all\tx"), Command::Broadcast(m) if m == "x"));
    assert!(is_direct(&parse_command("@allison hi"), "allison", "hi"));
    assert!(is_direct(&parse_command("@dev2 hi  you"), "dev2", "hi  you"));
    assert!(matches!(parse_command("@dev2 "), Command::Nothing));
    assert!(is_direct(&parse_command("@ x"), "", "x"));
    assert!(is_direct(&parse_command("@d\t y z"), "d", "y z"));
    assert!(matches!(parse_command("@dev2"), Command::Nothing));
    assert!(matches!(parse_command("hello"), Command::Unknown));
    assert!(matches!(parse_command("   "), Command::Nothing));
    assert!(matches!(parse_command("\u{3000}/quit\u{a0}"), Command::Quit));
}

#[test]
fn plain_commands_send_notices() {
    let d = ClientDevice::new("d1", "Phone");
    match d.outgoing(&Command::Quit).unwrap() {
        Outgoing::Disconnect(t) => {
            let v: serde_json::Value = serde_json::from_str(&t).unwrap();
            assert_eq!(v["msg_type"], "Disconnect");
            assert_eq!(v["sender"], "d1");
            assert_eq!(v["receiver"], "drone");
        }
        o => panic!("{o:?}"),
    }
    assert!(matches!(d.outgoing(&Command::List).unwrap(), Outgoing::ListRequest(_)));
    assert!(matches!(d.outgoing(&Command::Unknown).unwrap(), Outgoing::Usage));
    assert!(matches!(d.outgoing(&Command::Nothing).unwrap(), Outgoing::Nothing));
    assert!(matches!(d.outgoing(&Command::Broadcast("x".into())).unwrap(), Outgoing::Nothing));
    assert!(matches!(d.outgoing(&Command::Direct { target: "zz".into(), message: "x".into() }).unwrap(), Outgoing::UnknownTarget(t) if t == "zz"));
}

fn knows(dev: &mut ClientDevice, id: &str, name: &str, other: &ClientDevice) {
    let km = dev.key_manager();
    let mut devices = km.get_all_devices();
    devices.push((
        id.to_string(),
        drone_mesh::crypto::key_manager::DeviceInfo {
            kyber_public: other.key_manager().get_kyber_public().to_vec(),
            dilithium_verification: other.key_manager().get_dilithium_verification().to_vec(),
            connected: true,
            name: name.to_string(),
        },
    ));
    let store = KeyStore {
        kyber_public: km.get_kyber_public().to_vec(),
        kyber_secret: km.get_kyber_secret().to_vec(),
        dilithium_signing: km.get_dilithium_signing().to_vec(),
        dilithium_verification: km.get_dilithium_verification().to_vec(),
        devices,
    };
    dev.restore_keys(store);
}

#[test]
fn direct_message_reaches_target_device() {
    let mut a = ClientDevice::new("a", "Alpha");
    let mut b = ClientDevice::new("b", "Beta");
    a.generate_keys().unwrap();
    b.generate_keys().unwrap();
    let a_copy = ClientDevice::new("a", "Alpha");
    let _ = a_copy;
    let b_snapshot = clone_keys(&b);
    knows(&mut a, "b", "Beta", &b_snapshot);
    let a_snapshot = clone_keys(&a);
    knows(&mut b, "a", "Alpha", &a_snapshot);
    let out = a.outgoing(&parse_command("@b meet at the tower")).unwrap();
    let text = match out {
        Outgoing::Direct { target, text, message } => {
            assert_eq!(target, "b");
            assert_eq!(message, "meet at the tower");
            text
        }
        o => panic!("{o:?}"),
    };
    match b.incoming(&message_from_text(&text)) {
        Incoming::Show { peer_name, sender, text } => {
            assert_eq!(peer_name, "Alpha");
            assert_eq!(sender, "a");
            assert_eq!(text, "meet at the tower");
        }
        o => panic!("{o:?}"),
    }
}

fn clone_keys(d: &ClientDevice) -> ClientDevice {
    let mut c = ClientDevice::new("copy", "copy");
    let km = d.key_manager();
    c.restore_keys(KeyStore {
        kyber_public: km.get_kyber_public().to_vec(),
        kyber_secret: km.get_kyber_secret().to_vec(),
        dilithium_signing: km.get_dilithium_signing().to_vec(),
        dilithium_verification: km.get_dilithium_verification().to_vec(),
        devices: vec![],
    });
    c
}

#[test]
fn broadcast_goes_to_drone_when_known() {
    let mut a = ClientDevice::new("a", "Alpha");
    a.generate_keys().unwrap();
    let mut drone = ClientDevice::new("drone_central", "Drone");
    drone.generate_keys().unwrap();
    let snap = clone_keys(&drone);
    knows(&mut a, "drone_central", "Drone", &snap);
    match a.outgoing(&Command::Broadcast("all hands".into())).unwrap() {
        Outgoing::Broadcast { text, message } => {
            assert_eq!(message, "all hands");
            let v: serde_json::Value = serde_json::from_str(&text).unwrap();
            assert_eq!(v["msg_type"], "Broadcast");
            assert_eq!(v["receiver"], "all");
        }
        o => panic!("{o:?}"),
    }
}

#[test]
fn incoming_from_unknown_or_forged_is_ignored() {
    let mut b = ClientDevice::new("b", "Beta");
    b.generate_keys().unwrap();
    let msg = SecureMessage {
        msg_type: MessageType::Text,
        sender: "a".into(),
        receiver: "b".into(),
        timestamp: "t".into(),
        payload: Some("00".into()),
        signature: Some("00".into()),
    };
    assert!(matches!(b.incoming(&msg), Incoming::Ignore));
}

#[test]
fn incoming_device_list_is_decoded() {
    let d = ClientDevice::new("b", "Beta");
    let text = MessageProtocol::create_device_list("drone", "[[\"a\",{}]]").unwrap();
    match d.incoming(&message_from_text(&text)) {
        Incoming::DeviceList(json) => assert_eq!(json, "[[\"a\",{}]]"),
        o => panic!("{o:?}"),
    }
}

#[test]
fn key_exchange_message_announces_keys() {
    let mut d = ClientDevice::new("d1", "Phone");
    d.generate_keys().unwrap();
    let msg = message_from_text(&d.key_exchange_message().unwrap());
    let payload = hex::decode(msg.payload.unwrap()).unwrap();
    let v: serde_json::Value = serde_json::from_slice(&payload).unwrap();
    assert_eq!(v["name"], "Phone");
    assert_eq!(v["kyber"], hex::encode(d.key_manager().get_kyber_public()));
}
