use drone_mesh::network::protocol::{MessageProtocol, MessageType};
use drone_mesh::network::client::SecureClient;
use drone_mesh::network::server::{admits_connection, broadcast_targets, parse_handshake};

#[test]
fn encode_message_at_writes_compact_json() {
    let text = MessageProtocol::encode_message_at(MessageType::Text, "a", "b", "T", Some(vec![0xab, 0xcd]), None);
    assert_eq!(text, r#"{"msg_type":"Text","sender":"a","receiver":"b","timestamp":"T","payload":"abcd","signature":null}"#);
}

#[test]
fn encode_message_escapes_like_serde_json() {
    let sender = "q\"b\\n\nt\tc\u{1}é";
    let text = MessageProtocol::encode_message_at(MessageType::Heartbeat, sender, "drone", "now", None, Some(vec![1]));
    let v: serde_json::Value = serde_json::from_str(&text).unwrap();
    assert_eq!(v["sender"], sender);
    assert_eq!(v["msg_type"], "Heartbeat");
    assert_eq!(v["signature"], "01");
    assert!(v["payload"].is_null());
    assert!(text.contains(r#""q\"b\\n\nt\tc\u0001é""#));
}

#[test]
fn create_helpers_set_kind_and_receiver() {
    let t = MessageProtocol::create_text_message("a", "b", vec![1], vec![2]).unwrap();
    let v: serde_json::Value = serde_json::from_str(&t).unwrap();
    assert_eq!(v["msg_type"], "Text");
    assert_eq!(v["receiver"], "b");
    assert_eq!(v["payload"], "01");
    assert_eq!(v["signature"], "02");
    let b: serde_json::Value = serde_json::from_str(&MessageProtocol::create_broadcast("a", vec![3], vec![4]).unwrap()).unwrap();
    assert_eq!(b["msg_type"], "Broadcast");
    assert_eq!(b["receiver"], "all");
    let k: serde_json::Value = serde_json::from_str(&MessageProtocol::create_key_exchange("a", "drone", "hi").unwrap()).unwrap();
    assert_eq!(k["msg_type"], "KeyExchange");
    assert_eq!(k["payload"], "6869");
    assert!(k["signature"].is_null());
    let d: serde_json::Value = serde_json::from_str(&MessageProtocol::create_device_list("drone", "[]").unwrap()).unwrap();
    assert_eq!(d["msg_type"], "DeviceList");
    assert_eq!(d["receiver"], "all");
    assert_eq!(d["payload"], "5b5d");
}

#[test]
fn encode_message_uses_rfc3339_time() {
    let t = MessageProtocol::encode_message(MessageType::Disconnect, "a", "drone", None, None).unwrap();
    let v: serde_json::Value = serde_json::from_str(&t).unwrap();
    assert!(chrono::DateTime::parse_from_rfc3339(v["timestamp"].as_str().unwrap()).is_ok());
}

#[test]
fn public_keys_json_layout() {
    let text = MessageProtocol::public_keys_json(&[1, 2], &[0xff], "Lap\"top");
    assert_eq!(text, r#"{"kyber":"0102","dilithium":"ff","name":"Lap\"top"}"#);
}

#[test]
fn init_message_layout() {
    assert_eq!(SecureClient::init_message("d1", "Phone"), r#"{"client_id":"d1","client_name":"Phone","type":"init"}"#);
    let _ = SecureClient::new();
}

#[test]
fn handshake_reads_back_init_message() {
    let h = parse_handshake(&SecureClient::init_message("dev-7", "My \"tab\"")).unwrap();
    assert_eq!(h.client_id, "dev-7");
    assert_eq!(h.client_name, "My \"tab\"");
}

#[test]
fn handshake_defaults_and_refusals() {
    let h = parse_handshake(r#"{ "client_id" : "x" }"#).unwrap();
    assert_eq!(h.client_name, "Unknown");
    assert!(parse_handshake(r#"{"client_name":"n"}"#).is_none());
    assert!(parse_handshake("not json").is_none());
    assert!(parse_handshake(r#"{"client_id":5}"#).is_none());
}

#[test]
fn admission_rule() {
    assert!(admits_connection(4, 5));
    assert!(!admits_connection(5, 5));
    assert!(!admits_connection(0, 0));
}

#[test]
fn broadcast_targets_skip_excluded() {
    let ids = vec!["a".to_string(), "b".to_string(), "c".to_string()];
    assert_eq!(broadcast_targets(&ids, Some("b")), vec!["a".to_string(), "c".to_string()]);
    assert_eq!(broadcast_targets(&ids, None), ids);
}
