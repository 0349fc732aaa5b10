use drone_mesh::crypto::dilithium::DilithiumSignature;
use drone_mesh::crypto::key_manager::KeyManager;
use drone_mesh::crypto::kyber::KyberKem;
use drone_mesh::device::client_device::ClientDevice;
use drone_mesh::drone::central_drone::{handle_message, parse_peer_keys, DroneAction, DroneError};
use drone_mesh::hexcodec::{hex_encode, HexError};
use drone_mesh::network::protocol::{MessageProtocol, MessageType, SecureMessage};

fn message_from_text(text: &str) -> SecureMessage {
    let v: serde_json::Value = serde_json::from_str(text).unwrap();
    let kind = match v["msg_type"].as_str().unwrap() {
        "Init" => MessageType::Init,
        "KeyExchange" => MessageType::KeyExchange,
        "Text" => MessageType::Text,
        "Broadcast" => MessageType::Broadcast,
        "DeviceList" => MessageType::DeviceList,
        "Heartbeat" => MessageType::Heartbeat,
        "HeartbeatAck" => MessageType::HeartbeatAck,
        _ => MessageType::Disconnect,
    };
    SecureMessage {
        msg_type: kind,
        sender: v["sender"].as_str().unwrap().to_string(),
        receiver: v["receiver"].as_str().unwrap().to_string(),
        timestamp: v["timestamp"].as_str().unwrap().to_string(),
        payload: v["payload"].as_str().map(|s| s.to_string()),
        signature: v["signature"].as_str().map(|s| s.to_string()),
    }
}

fn plain(kind: MessageType, sender: &str, receiver: &str, payload: Option<String>, signature: Option<String>) -> SecureMessage {
    SecureMessage { msg_type: kind, sender: sender.into(), receiver: receiver.into(), timestamp: "t".into(), payload, signature }
}

fn drone() -> (KeyManager, KyberKem, DilithiumSignature) {
    let mut km = KeyManager::new("drone_central");
    km.generate_keys().unwrap();
    (km, KyberKem::new(), DilithiumSignature::new())
}

#[test]
fn heartbeat_is_acknowledged() {
    let (mut km, k, d) = drone();
    let out = handle_message("dev1", &plain(MessageType::Heartbeat, "dev1", "drone", None, None), &mut km, &k, &d);
    assert!(out.error.is_none());
    assert_eq!(out.actions.len(), 1);
    match &out.actions[0] {
        DroneAction::SendTo { target, text } => {
            assert_eq!(target, "dev1");
            let v: serde_json::Value = serde_json::from_str(text).unwrap();
            assert_eq!(v["msg_type"], "HeartbeatAck");
            assert_eq!(v["sender"], "drone");
            assert_eq!(v["receiver"], "dev1");
        }
        other => panic!("unexpected {other:?}"),
    }
}

#[test]
fn key_exchange_registers_device() {
    let (mut km, k, d) = drone();
    let mut dev = ClientDevice::new("dev1", "Laptop");
    dev.generate_keys().unwrap();
    let msg = message_from_text(&dev.key_exchange_message().unwrap());
    let out = handle_message("dev1", &msg, &mut km, &k, &d);
    assert!(out.error.is_none());
    assert!(matches!(out.actions[0], DroneAction::PersistKeys));
    assert!(matches!(&out.actions[1], DroneAction::BroadcastDeviceList { exclude } if exclude == "dev1"));
    let known = km.get_device("dev1").unwrap();
    assert_eq!(known.name, "Laptop");
    assert_eq!(&known.kyber_public[..], dev.key_manager().get_kyber_public());
    assert_eq!(&known.dilithium_verification[..], dev.key_manager().get_dilithium_verification());
}

#[test]
fn key_exchange_without_payload_only_lists() {
    let (mut km, k, d) = drone();
    let out = handle_message("dev1", &plain(MessageType::KeyExchange, "dev1", "drone", None, None), &mut km, &k, &d);
    assert_eq!(out.actions.len(), 1);
    assert_eq!(km.device_count(), 0);
}

#[test]
fn key_exchange_errors() {
    let missing = hex_encode(br#"{"kyber":"00"}"#);
    assert_eq!(parse_peer_keys(&missing).unwrap_err(), DroneError::MissingKey);
    assert_eq!(parse_peer_keys("zz").unwrap_err(), DroneError::Hex(HexError::InvalidHexCharacter { c: 'z', index: 0 }));
    assert_eq!(parse_peer_keys(&hex_encode(b"nope")).unwrap_err(), DroneError::InvalidJson);
    assert_eq!(parse_peer_keys("ff").unwrap_err(), DroneError::InvalidUtf8);
    let bad_hex = hex_encode(br#"{"kyber":"0","dilithium":"00"}"#);
    assert_eq!(parse_peer_keys(&bad_hex).unwrap_err(), DroneError::Hex(HexError::OddLength));
    let ok = parse_peer_keys(&hex_encode(br#"{"kyber":"0a","dilithium":"0b"}"#)).unwrap();
    assert_eq!(ok.name, "Unknown");
    assert_eq!(ok.kyber_public, vec![10]);
}

#[test]
fn disconnect_forgets_device() {
    let (mut km, k, d) = drone();
    km.add_device("dev1", "L", vec![1], vec![2]);
    let out = handle_message("dev1", &plain(MessageType::Disconnect, "dev1", "drone", None, None), &mut km, &k, &d);
    assert!(matches!(out.actions[0], DroneAction::PersistKeys));
    assert!(km.get_device("dev1").is_none());
}

#[test]
fn other_kinds_do_nothing() {
    let (mut km, k, d) = drone();
    for kind in [MessageType::Init, MessageType::HeartbeatAck] {
        let out = handle_message("dev1", &plain(kind, "dev1", "drone", None, None), &mut km, &k, &d);
        assert!(out.actions.is_empty() && out.error.is_none());
    }
}

#[test]
fn text_with_bad_hex_reports_error() {
    let (mut km, k, d) = drone();
    let msg = plain(MessageType::Text, "dev1", "dev2", Some("xyz1".into()), Some("00".into()));
    let out = handle_message("dev1", &msg, &mut km, &k, &d);
    assert_eq!(out.error, Some(DroneError::Hex(HexError::InvalidHexCharacter { c: 'x', index: 0 })));
}

#[test]
fn text_from_unknown_sender_or_badly_signed_is_dropped() {
    let (mut km, k, d) = drone();
    let msg = plain(MessageType::Text, "dev1", "dev2", Some("00".into()), Some("00".into()));
    let out = handle_message("dev1", &msg, &mut km, &k, &d);
    assert!(out.actions.is_empty() && out.error.is_none());
    km.add_device("dev1", "L", vec![1], vec![2]);
    let out = handle_message("dev1", &msg, &mut km, &k, &d);
    assert!(out.actions.is_empty() && out.error.is_none());
    let out = handle_message("dev1", &plain(MessageType::Broadcast, "dev1", "all", Some("00".into()), Some("00".into())), &mut km, &k, &d);
    assert!(out.actions.is_empty() && out.error.is_none());
}

fn registered(km: &mut KeyManager, id: &str, name: &str) -> ClientDevice {
    let mut dev = ClientDevice::new(id, name);
    dev.generate_keys().unwrap();
    km.add_device(id, name, dev.key_manager().get_kyber_public().to_vec(), dev.key_manager().get_dilithium_verification().to_vec());
    dev
}

#[test]
fn list_request_is_answered() {
    let (mut km, k, d) = drone();
    let out = handle_message("dev1", &plain(MessageType::DeviceList, "dev1", "drone", None, None), &mut km, &k, &d);
    assert!(out.error.is_none());
    assert_eq!(out.actions.len(), 1);
    assert!(matches!(&out.actions[0], DroneAction::SendDeviceList { target } if target == "dev1"));
    km.add_device("dev1", "L", vec![1], vec![2]);
    let out = handle_message("dev1", &plain(MessageType::DeviceList, "dev1", "drone", None, None), &mut km, &k, &d);
    assert!(out.error.is_none());
    assert_eq!(out.actions.len(), 1);
    assert!(matches!(&out.actions[0], DroneAction::SendDeviceList { target } if target == "dev1"));
}

#[test]
fn signed_private_text_is_passed_on_unopened() {
    let (mut km, k, d) = drone();
    let a = registered(&mut km, "a", "A");
    let b = registered(&mut km, "b", "B");
    let sealed = k.encrypt_message("hi", b.key_manager().get_kyber_public()).unwrap();
    let sig = d.sign(&sealed, a.key_manager().get_dilithium_signing()).unwrap();
    let text = MessageProtocol::create_text_message("a", "b", sealed.clone(), sig.clone()).unwrap();
    let out = handle_message("a", &message_from_text(&text), &mut km, &k, &d);
    assert!(out.error.is_none());
    assert_eq!(out.actions.len(), 1);
    match &out.actions[0] {
        DroneAction::SendTo { target, text } => {
            assert_eq!(target, "b");
            let m = message_from_text(text);
            assert_eq!(m.msg_type, MessageType::Text);
            assert_eq!(m.sender, "a");
            assert_eq!(m.receiver, "b");
            assert_eq!(m.payload.unwrap(), hex_encode(&sealed));
            assert_eq!(m.signature.unwrap(), hex_encode(&sig));
            assert_eq!(k.decrypt_message(&sealed, b.key_manager().get_kyber_secret()).unwrap(), "hi");
        }
        other => panic!("unexpected {other:?}"),
    }
    // Addressed to the drone, back to the sender, or to an unknown device: nothing.
    for to in ["drone", "a", "zz"] {
        let text = MessageProtocol::create_text_message("a", to, sealed.clone(), sig.clone()).unwrap();
        let out = handle_message("a", &message_from_text(&text), &mut km, &k, &d);
        assert!(out.actions.is_empty() && out.error.is_none());
    }
}

#[test]
fn broadcast_is_opened_and_relayed_to_every_other_device() {
    let (mut km, k, d) = drone();
    let a = registered(&mut km, "a", "A");
    let b = registered(&mut km, "b", "B");
    let c = registered(&mut km, "c", "C");
    let sealed = k.encrypt_message("to all", km.get_kyber_public()).unwrap();
    let sig = d.sign(&sealed, a.key_manager().get_dilithium_signing()).unwrap();
    let text = MessageProtocol::create_broadcast("a", sealed, sig).unwrap();
    let out = handle_message("a", &message_from_text(&text), &mut km, &k, &d);
    assert!(out.error.is_none());
    assert_eq!(out.actions.len(), 2);
    let mut seen = vec![];
    for action in &out.actions {
        match action {
            DroneAction::SendTo { target, text } => {
                let m = message_from_text(text);
                assert_eq!(m.sender, "a");
                assert_eq!(&m.receiver, target);
                let data = hex::decode(m.payload.unwrap()).unwrap();
                let s = hex::decode(m.signature.unwrap()).unwrap();
                assert_eq!(d.verify(&data, &s, km.get_dilithium_verification()), Ok(true));
                let secret = if target == "b" { b.key_manager().get_kyber_secret() } else { c.key_manager().get_kyber_secret() };
                assert_eq!(k.decrypt_message(&data, secret).unwrap(), "to all");
                seen.push(target.clone());
            }
            other => panic!("unexpected {other:?}"),
        }
    }
    seen.sort();
    assert_eq!(seen, vec!["b".to_string(), "c".to_string()]);
}

#[test]
fn broadcast_relay_stops_at_wrong_size_key() {
    let (mut km, k, d) = drone();
    let a = registered(&mut km, "a", "A");
    km.add_device("bad", "Bad", vec![1; 3], vec![2]);
    let sealed = k.encrypt_message("x", km.get_kyber_public()).unwrap();
    let sig = d.sign(&sealed, a.key_manager().get_dilithium_signing()).unwrap();
    let text = MessageProtocol::create_broadcast("a", sealed, sig).unwrap();
    let out = handle_message("a", &message_from_text(&text), &mut km, &k, &d);
    assert_eq!(out.error, Some(DroneError::Kem(drone_mesh::crypto::kyber::KemError::InvalidPublicKeySize)));
}
