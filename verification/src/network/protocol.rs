//! The wire format of mesh messages: a compact JSON object whose binary fields are hex.
use vstd::prelude::*;
use crate::hexcodec::{hex_encode, hex_encoding};
use crate::json::{distinct_keys, json_object, json_object_text, member_string, member_view, JsonMembers};
use vstd::utf8::encode_utf8;

verus! {

/// The kind of a mesh message.
#[derive(Debug, Clone, Copy, PartialEq, Eq, Structural)]
pub enum MessageType {
    Init,
    KeyExchange,
    Text,
    Broadcast,
    DeviceList,
    Heartbeat,
    HeartbeatAck,
    Disconnect,
}

/// A mesh message as it travels: binary payload and signature are hex text.
#[derive(Debug, Clone)]
pub struct SecureMessage {
    pub msg_type: MessageType,
    pub sender: String,
    pub receiver: String,
    pub timestamp: String,
    pub payload: Option<String>,
    pub signature: Option<String>,
}

/// Why a message could not be produced or read.
#[derive(Debug, Clone, Copy, PartialEq, Eq, Structural)]
pub enum ProtocolError {
    /// The text is not the JSON of a message.
    InvalidJson,
}

/// The name under which a message kind is written.
pub open spec fn message_type_name(t: MessageType) -> Seq<char> {
    match t {
        MessageType::Init => "Init"@,
        MessageType::KeyExchange => "KeyExchange"@,
        MessageType::Text => "Text"@,
        MessageType::Broadcast => "Broadcast"@,
        MessageType::DeviceList => "DeviceList"@,
        MessageType::Heartbeat => "Heartbeat"@,
        MessageType::HeartbeatAck => "HeartbeatAck"@,
        MessageType::Disconnect => "Disconnect"@,
    }
}

/// The hex text of an optional binary field.
pub open spec fn hex_field(bytes: Option<Seq<u8>>) -> Option<Seq<char>> {
    match bytes {
        Some(b) => Some(hex_encoding(b)),
        None => None,
    }
}

/// The JSON members of a message, in field order.
pub open spec fn message_members(
    t: MessageType,
    sender: Seq<char>,
    receiver: Seq<char>,
    timestamp: Seq<char>,
    payload: Option<Seq<char>>,
    signature: Option<Seq<char>>,
) -> JsonMembers {
    seq![
        ("msg_type"@, Some(message_type_name(t))),
        ("sender"@, Some(sender)),
        ("receiver"@, Some(receiver)),
        ("timestamp"@, Some(timestamp)),
        ("payload"@, payload),
        ("signature"@, signature),
    ]
}

/// The text of a message with the given fields.
pub open spec fn message_json(
    t: MessageType,
    sender: Seq<char>,
    receiver: Seq<char>,
    timestamp: Seq<char>,
    payload: Option<Seq<char>>,
    signature: Option<Seq<char>>,
) -> Seq<char> {
    json_object(message_members(t, sender, receiver, timestamp, payload, signature))
}

/// The members of the public-key announcement a device sends in a key exchange: its
/// Kyber public key and ML-DSA verification key as hex, and its name.
pub open spec fn key_exchange_members(kyber_public: Seq<u8>, dilithium_verification: Seq<u8>, name: Seq<char>) -> JsonMembers {
    seq![
        ("kyber"@, Some(hex_encoding(kyber_public))),
        ("dilithium"@, Some(hex_encoding(dilithium_verification))),
        ("name"@, Some(name)),
    ]
}

/// The public-key announcement text.
pub open spec fn key_exchange_json(kyber_public: Seq<u8>, dilithium_verification: Seq<u8>, name: Seq<char>) -> Seq<char> {
    json_object(key_exchange_members(kyber_public, dilithium_verification, name))
}

/// The optional view of an optional byte vector.
pub open spec fn bytes_view(b: Option<Vec<u8>>) -> Option<Seq<u8>> {
    match b {
        Some(v) => Some(v@),
        None => None,
    }
}

/// Some text for a message of the given fields, written at some time.
pub open spec fn is_message_text(
    text: Seq<char>,
    t: MessageType,
    sender: Seq<char>,
    receiver: Seq<char>,
    payload: Option<Seq<u8>>,
    signature: Option<Seq<u8>>,
) -> bool {
    exists|timestamp: Seq<char>|
        text == #[trigger] message_json(t, sender, receiver, timestamp, hex_field(payload), hex_field(signature))
}

/// The current time as RFC 3339 text.
///
/// Trusted: `chrono::Utc::now().to_rfc3339()`; the value depends on the clock.
#[verifier::external_body]
fn current_timestamp() -> (r: String) {
    chrono::Utc::now().to_rfc3339()
}

fn kind_name(t: MessageType) -> (r: &'static str)
    ensures
        r@ == message_type_name(t),
{
    match t {
        MessageType::Init => "Init",
        MessageType::KeyExchange => "KeyExchange",
        MessageType::Text => "Text",
        MessageType::Broadcast => "Broadcast",
        MessageType::DeviceList => "DeviceList",
        MessageType::Heartbeat => "Heartbeat",
        MessageType::HeartbeatAck => "HeartbeatAck",
        MessageType::Disconnect => "Disconnect",
    }
}

fn optional_hex(bytes: &Option<Vec<u8>>) -> (r: Option<String>)
    ensures
        match r {
            Some(s) => hex_field(bytes_view(*bytes)) == Some(s@),
            None => bytes.is_none(),
        },
{
    match bytes {
        Some(b) => Some(hex_encode(b.as_slice())),
        None => None,
    }
}

fn as_opt_str(s: &Option<String>) -> (r: Option<&str>)
    ensures
        match r {
            Some(t) => *s matches Some(u) && t@ == u@,
            None => s.is_none(),
        },
{
    match s {
        Some(u) => Some(u.as_str()),
        None => None,
    }
}

/// The mesh-message encoder.
pub struct MessageProtocol;

impl MessageProtocol {
    /// Writes a message with the given fields and timestamp.
    pub fn encode_message_at(
        msg_type: MessageType,
        sender: &str,
        receiver: &str,
        timestamp: &str,
        payload: Option<Vec<u8>>,
        signature: Option<Vec<u8>>,
    ) -> (r: String)
        ensures
            r@ == message_json(msg_type, sender@, receiver@, timestamp@, hex_field(bytes_view(payload)), hex_field(bytes_view(signature))),
    {
        let payload_hex = optional_hex(&payload);
        let signature_hex = optional_hex(&signature);
        let mut members: Vec<(&str, Option<&str>)> = Vec::new();
        members.push(("msg_type", Some(kind_name(msg_type))));
        members.push(("sender", Some(sender)));
        members.push(("receiver", Some(receiver)));
        members.push(("timestamp", Some(timestamp)));
        members.push(("payload", as_opt_str(&payload_hex)));
        members.push(("signature", as_opt_str(&signature_hex)));
        let text = json_object_text(&members);
        assert(members@.map_values(|m: (&str, Option<&str>)| member_view(m)) =~= message_members(
            msg_type,
            sender@,
            receiver@,
            timestamp@,
            hex_field(bytes_view(payload)),
            hex_field(bytes_view(signature)),
        ));
        text
    }

    /// Writes a message with the given fields, stamped with the current time.
    pub fn encode_message(
        msg_type: MessageType,
        sender: &str,
        receiver: &str,
        payload: Option<Vec<u8>>,
        signature: Option<Vec<u8>>,
    ) -> (r: Result<String, ProtocolError>)
        ensures
            r matches Ok(text) && is_message_text(text@, msg_type, sender@, receiver@, bytes_view(payload), bytes_view(signature)),
    {
        let timestamp = current_timestamp();
        let ghost p = bytes_view(payload);
        let ghost s = bytes_view(signature);
        let text = Self::encode_message_at(msg_type, sender, receiver, timestamp.as_str(), payload, signature);
        assert(text@ == message_json(msg_type, sender@, receiver@, timestamp@, hex_field(p), hex_field(s)));
        Ok(text)
    }

    /// The public-key announcement text of a device.
    pub fn public_keys_json(kyber_public: &[u8], dilithium_verification: &[u8], name: &str) -> (r: String)
        ensures
            r@ == key_exchange_json(kyber_public@, dilithium_verification@, name@),
    {
        let kyber_hex = hex_encode(kyber_public);
        let dilithium_hex = hex_encode(dilithium_verification);
        let mut members: Vec<(&str, Option<&str>)> = Vec::new();
        members.push(("kyber", Some(kyber_hex.as_str())));
        members.push(("dilithium", Some(dilithium_hex.as_str())));
        members.push(("name", Some(name)));
        let text = json_object_text(&members);
        assert(members@.map_values(|m: (&str, Option<&str>)| member_view(m)) =~= key_exchange_members(
            kyber_public@,
            dilithium_verification@,
            name@,
        ));
        text
    }

    /// A private text message carrying ciphertext and its signature.
    pub fn create_text_message(sender: &str, receiver: &str, encrypted_content: Vec<u8>, signature: Vec<u8>) -> (r: Result<String, ProtocolError>)
        ensures
            r matches Ok(text) && is_message_text(text@, MessageType::Text, sender@, receiver@, Some(encrypted_content@), Some(signature@)),
    {
        Self::encode_message(MessageType::Text, sender, receiver, Some(encrypted_content), Some(signature))
    }

    /// A broadcast addressed to `all`.
    pub fn create_broadcast(sender: &str, encrypted_content: Vec<u8>, signature: Vec<u8>) -> (r: Result<String, ProtocolError>)
        ensures
            r matches Ok(text) && is_message_text(text@, MessageType::Broadcast, sender@, "all"@, Some(encrypted_content@), Some(signature@)),
    {
        Self::encode_message(MessageType::Broadcast, sender, "all", Some(encrypted_content), Some(signature))
    }

    /// A key-exchange message whose payload is the UTF-8 bytes of the public-key JSON.
    pub fn create_key_exchange(sender: &str, receiver: &str, public_keys: &str) -> (r: Result<String, ProtocolError>)
        ensures
            r matches Ok(text) && is_message_text(text@, MessageType::KeyExchange, sender@, receiver@, Some(encode_utf8(public_keys@)), None),
    {
        let bytes = crate::bytes::copy_bytes(public_keys.as_bytes());
        Self::encode_message(MessageType::KeyExchange, sender, receiver, Some(bytes), None)
    }

    /// A device-list message to `all` whose payload is the UTF-8 bytes of the list's JSON.
    pub fn create_device_list(sender: &str, devices: &str) -> (r: Result<String, ProtocolError>)
        ensures
            r matches Ok(text) && is_message_text(text@, MessageType::DeviceList, sender@, "all"@, Some(encode_utf8(devices@)), None),
    {
        let bytes = crate::bytes::copy_bytes(devices.as_bytes());
        Self::encode_message(MessageType::DeviceList, sender, "all", Some(bytes), None)
    }
}

/// A written message holds each field once, under its own name, with the value it was given:
/// the timestamp member is the given timestamp, sender and receiver are as given, and the
/// payload and signature are the given hex text or null.
pub proof fn lemma_message_fields(
    t: MessageType,
    sender: Seq<char>,
    receiver: Seq<char>,
    timestamp: Seq<char>,
    payload: Option<Seq<char>>,
    signature: Option<Seq<char>>,
)
    ensures
        distinct_keys(message_members(t, sender, receiver, timestamp, payload, signature)),
        member_string(message_members(t, sender, receiver, timestamp, payload, signature), "msg_type"@) == Some(message_type_name(t)),
        member_string(message_members(t, sender, receiver, timestamp, payload, signature), "sender"@) == Some(sender),
        member_string(message_members(t, sender, receiver, timestamp, payload, signature), "receiver"@) == Some(receiver),
        member_string(message_members(t, sender, receiver, timestamp, payload, signature), "timestamp"@) == Some(timestamp),
        member_string(message_members(t, sender, receiver, timestamp, payload, signature), "payload"@) == payload,
        member_string(message_members(t, sender, receiver, timestamp, payload, signature), "signature"@) == signature,
{
    reveal_strlit("msg_type");
    reveal_strlit("sender");
    reveal_strlit("receiver");
    reveal_strlit("timestamp");
    reveal_strlit("payload");
    reveal_strlit("signature");
    let ms = message_members(t, sender, receiver, timestamp, payload, signature);
    assert("msg_type"@.len() == 8 && "sender"@.len() == 6 && "receiver"@.len() == 8);
    assert("timestamp"@.len() == 9 && "payload"@.len() == 7 && "signature"@.len() == 9);
    assert("msg_type"@[0] != "receiver"@[0]);
    assert("timestamp"@[0] != "signature"@[0]);
    assert(ms[0].0 != ms[1].0 && ms[0].0 != ms[2].0 && ms[0].0 != ms[3].0 && ms[0].0 != ms[4].0 && ms[0].0 != ms[5].0);
    assert(ms[1].0 != ms[2].0 && ms[1].0 != ms[3].0 && ms[1].0 != ms[4].0 && ms[1].0 != ms[5].0);
    assert(ms[2].0 != ms[3].0 && ms[2].0 != ms[4].0 && ms[2].0 != ms[5].0);
    assert(ms[3].0 != ms[4].0 && ms[3].0 != ms[5].0);
    assert(ms[4].0 != ms[5].0);
    reveal_with_fuel(member_string, 7);
    let m5 = ms.drop_last();
    let m4 = m5.drop_last();
    let m3 = m4.drop_last();
    let m2 = m3.drop_last();
    let m1 = m2.drop_last();
    assert(m5.last() == ms[4]);
    assert(m4.last() == ms[3]);
    assert(m3.last() == ms[2]);
    assert(m2.last() == ms[1]);
    assert(m1.last() == ms[0]);
    assert(m1.drop_last().len() == 0);
}

} // verus!
