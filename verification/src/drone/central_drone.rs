//! The central drone's decisions: what it does with each message a device sends.
//!
//! The drone keeps the devices' public keys and answers heartbeats and device-list
//! requests. It passes a signed private text on to its receiver as it came, and relays a
//! signed broadcast, sealed for the drone, to all other devices, re-sealed for each and
//! signed with its own key. Sending and storing are left to the caller, as actions.
use vstd::prelude::*;
use vstd::utf8::{decode_utf8, encode_utf8, valid_utf8};
use crate::crypto::dilithium::{
    is_ml_dsa_44_keypair, keypair_public_key, ml_dsa_44_verifies, ml_dsa_keypair_accepted,
    DilithiumSignature, SignatureError,
};
use crate::crypto::key_manager::{
    entries_map, entries_view, unique_ids, DeviceView, KeyManager, KeyManagerView,
};
use crate::crypto::kyber::{
    opened_message, sealed_under, KemError, KyberKem, AES_GCM_MAX_PLAINTEXT,
    KYBER_PUBLIC_KEY_BYTES,
};
use crate::hexcodec::{hex_decode, hex_decoding, hex_encoding, HexError, lemma_hex_round_trip};
use crate::json::{distinct_keys, json_member_str, json_string_member, member_string};
use crate::network::protocol::{
    is_message_text, key_exchange_json, key_exchange_members, MessageProtocol, MessageType,
    ProtocolError, SecureMessage,
};
use crate::text::{str_eq, string_from_utf8};

verus! {

broadcast use vstd::utf8::group_utf8_lib;

/// Why the drone could not finish handling a message.
#[derive(Debug, Clone, Copy, PartialEq, Eq, Structural)]
pub enum DroneError {
    /// A hex field did not decode.
    Hex(HexError),
    /// A key-exchange payload is not UTF-8.
    InvalidUtf8,
    /// A key-exchange payload is not JSON.
    InvalidJson,
    /// A key-exchange payload lacks its `kyber` or `dilithium` string. Handling such a
    /// payload cannot go on: the caller should stop the device's session.
    MissingKey,
    /// Re-encryption failed.
    Kem(KemError),
    /// Re-signing failed.
    Signature(SignatureError),
    /// A message could not be written.
    Protocol(ProtocolError),
}

/// Something the drone asks its caller to do.
#[derive(Debug, Clone)]
pub enum DroneAction {
    /// Send a message text to one connected device.
    SendTo { target: String, text: String },
    /// Send the list of known devices to every connected device but one.
    BroadcastDeviceList { exclude: String },
    /// Send the list of known devices to one device.
    SendDeviceList { target: String },
    /// Store the key manager's state.
    PersistKeys,
}

/// What handling one message came to: the actions to carry out, in order, and the error
/// that stopped it, if any.
#[derive(Debug, Clone)]
pub struct DroneOutcome {
    pub actions: Vec<DroneAction>,
    pub error: Option<DroneError>,
}

/// The public keys and name that a device announced.
#[derive(Debug, Clone)]
pub struct PeerKeys {
    pub kyber_public: Vec<u8>,
    pub dilithium_verification: Vec<u8>,
    pub name: String,
}

/// A binary key read from a hex string member of the announcement.
pub open spec fn key_member(text: Seq<char>, key: Seq<char>) -> Result<Seq<u8>, DroneError> {
    match json_string_member(text, key) {
        None => Err(DroneError::InvalidJson),
        Some(None) => Err(DroneError::MissingKey),
        Some(Some(h)) => match hex_decoding(encode_utf8(h)) {
            Ok(b) => Ok(b),
            Err(e) => Err(DroneError::Hex(e)),
        },
    }
}

/// The keys and name read from a key-exchange payload: hex of the UTF-8 bytes of a JSON
/// object with `kyber` and `dilithium` hex strings and an optional `name` (else `Unknown`).
pub open spec fn peer_keys_of(payload: Seq<char>) -> Result<(Seq<u8>, Seq<u8>, Seq<char>), DroneError> {
    match hex_decoding(encode_utf8(payload)) {
        Err(e) => Err(DroneError::Hex(e)),
        Ok(raw) => if !valid_utf8(raw) {
            Err(DroneError::InvalidUtf8)
        } else {
            let text = decode_utf8(raw);
            match key_member(text, "kyber"@) {
                Err(e) => Err(e),
                Ok(k) => match key_member(text, "dilithium"@) {
                    Err(e) => Err(e),
                    Ok(d) => Ok((
                        k,
                        d,
                        match json_string_member(text, "name"@) {
                            Some(Some(n)) => n,
                            _ => "Unknown"@,
                        },
                    )),
                },
            }
        }
    }
}

fn read_key_member(text: &str, key: &str) -> (r: Result<Vec<u8>, DroneError>)
    ensures
        match r {
            Ok(b) => key_member(text@, key@) == Ok::<Seq<u8>, DroneError>(b@),
            Err(e) => key_member(text@, key@) == Err::<Seq<u8>, DroneError>(e),
        },
        forall|ms| #[trigger] crate::json::json_object(ms) == text@ && distinct_keys(ms)
            ==> json_string_member(text@, key@) == Some(member_string(ms, key@)),
{
    match json_member_str(text, key) {
        None => Err(DroneError::InvalidJson),
        Some(None) => Err(DroneError::MissingKey),
        Some(Some(h)) => match hex_decode(h.as_str()) {
            Ok(b) => Ok(b),
            Err(e) => Err(DroneError::Hex(e)),
        },
    }
}

proof fn lemma_announcement(k: Seq<u8>, d: Seq<u8>, n: Seq<char>)
    ensures
        hex_decoding(encode_utf8(hex_encoding(encode_utf8(key_exchange_json(k, d, n)))))
            == Ok::<Seq<u8>, HexError>(encode_utf8(key_exchange_json(k, d, n))),
        valid_utf8(encode_utf8(key_exchange_json(k, d, n))),
        decode_utf8(encode_utf8(key_exchange_json(k, d, n))) == key_exchange_json(k, d, n),
        distinct_keys(key_exchange_members(k, d, n)),
        member_string(key_exchange_members(k, d, n), "kyber"@) == Some(hex_encoding(k)),
        member_string(key_exchange_members(k, d, n), "dilithium"@) == Some(hex_encoding(d)),
        member_string(key_exchange_members(k, d, n), "name"@) == Some(n),
        hex_decoding(encode_utf8(hex_encoding(k))) == Ok::<Seq<u8>, HexError>(k),
        hex_decoding(encode_utf8(hex_encoding(d))) == Ok::<Seq<u8>, HexError>(d),
{
    lemma_hex_round_trip(encode_utf8(key_exchange_json(k, d, n)));
    lemma_hex_round_trip(k);
    lemma_hex_round_trip(d);
    reveal_strlit("kyber");
    reveal_strlit("dilithium");
    reveal_strlit("name");
    let ms = key_exchange_members(k, d, n);
    assert("kyber"@.len() == 5);
    assert("dilithium"@.len() == 9);
    assert("name"@.len() == 4);
    assert(ms[0].0 != ms[1].0);
    assert(ms[0].0 != ms[2].0);
    assert(ms[1].0 != ms[2].0);
    reveal_with_fuel(member_string, 4);
    assert(ms.drop_last().drop_last().last() == ms[0]);
}

/// Reads the keys a device announced in a key-exchange payload.
pub fn parse_peer_keys(payload: &str) -> (r: Result<PeerKeys, DroneError>)
    ensures
        match r {
            Ok(p) => peer_keys_of(payload@) == Ok::<(Seq<u8>, Seq<u8>, Seq<char>), DroneError>(
                (p.kyber_public@, p.dilithium_verification@, p.name@),
            ),
            Err(e) => peer_keys_of(payload@) == Err::<(Seq<u8>, Seq<u8>, Seq<char>), DroneError>(e),
        },
        forall|k: Seq<u8>, d: Seq<u8>, n: Seq<char>|
            payload@ == #[trigger] hex_encoding(encode_utf8(key_exchange_json(k, d, n)))
                ==> peer_keys_of(payload@) == Ok::<(Seq<u8>, Seq<u8>, Seq<char>), DroneError>((k, d, n)),
{
    let raw = match hex_decode(payload) {
        Ok(b) => b,
        Err(e) => {
            proof {
                assert forall|k: Seq<u8>, d: Seq<u8>, n: Seq<char>|
                    payload@ == #[trigger] hex_encoding(encode_utf8(key_exchange_json(k, d, n)))
                    implies peer_keys_of(payload@) == Ok::<(Seq<u8>, Seq<u8>, Seq<char>), DroneError>((k, d, n)) by {
                    lemma_announcement(k, d, n);
                }
            }
            return Err(DroneError::Hex(e));
        },
    };
    let ghost raw_bytes = raw@;
    let text = match string_from_utf8(raw) {
        Ok(t) => t,
        Err(_) => {
            proof {
                assert forall|k: Seq<u8>, d: Seq<u8>, n: Seq<char>|
                    payload@ == #[trigger] hex_encoding(encode_utf8(key_exchange_json(k, d, n)))
                    implies peer_keys_of(payload@) == Ok::<(Seq<u8>, Seq<u8>, Seq<char>), DroneError>((k, d, n)) by {
                    lemma_announcement(k, d, n);
                }
            }
            return Err(DroneError::InvalidUtf8);
        },
    };
    let kyber_public = read_key_member(text.as_str(), "kyber");
    let dilithium = read_key_member(text.as_str(), "dilithium");
    let name_member = json_member_str(text.as_str(), "name");
    proof {
        assert forall|k: Seq<u8>, d: Seq<u8>, n: Seq<char>|
            payload@ == #[trigger] hex_encoding(encode_utf8(key_exchange_json(k, d, n)))
            implies peer_keys_of(payload@) == Ok::<(Seq<u8>, Seq<u8>, Seq<char>), DroneError>((k, d, n)) by {
            lemma_announcement(k, d, n);
            assert(raw_bytes == encode_utf8(key_exchange_json(k, d, n)));
            assert(text@ == key_exchange_json(k, d, n));
            let ms = key_exchange_members(k, d, n);
            assert(crate::json::json_object(ms) == text@);
            assert(json_string_member(text@, "kyber"@) == Some(member_string(ms, "kyber"@)));
            assert(json_string_member(text@, "dilithium"@) == Some(member_string(ms, "dilithium"@)));
            assert(json_string_member(text@, "name"@) == Some(member_string(ms, "name"@)));
        }
    }
    let kyber_public = match kyber_public {
        Ok(k) => k,
        Err(e) => return Err(e),
    };
    let dilithium_verification = match dilithium {
        Ok(d) => d,
        Err(e) => return Err(e),
    };
    let name = match name_member {
        Some(Some(n)) => n,
        _ => String::from_str("Unknown"),
    };
    Ok(PeerKeys { kyber_public, dilithium_verification, name })
}

/// How the drone judges a signed text from a device.
pub enum SignedCheck {
    /// Nothing is done and nothing is reported.
    Skip,
    /// Handling stops with this error.
    Fail(DroneError),
    /// The data and the sender's signature on it.
    Signed(Seq<u8>, Seq<u8>),
}

/// An optional text field seen abstractly.
pub open spec fn text_field(o: Option<String>) -> Option<Seq<char>> {
    match o {
        Some(s) => Some(s@),
        None => None,
    }
}

/// The drone's judgement of a signed text: payload and signature must both be present and
/// decode as hex, and the sender must be a known device whose verification key accepts the
/// signature on the data.
pub open spec fn signed_check(
    devices: Map<Seq<char>, DeviceView>,
    sender: Seq<char>,
    payload: Option<Seq<char>>,
    signature: Option<Seq<char>>,
) -> SignedCheck {
    match (payload, signature) {
        (Some(p), Some(sig_hex)) => match hex_decoding(encode_utf8(p)) {
            Err(e) => SignedCheck::Fail(DroneError::Hex(e)),
            Ok(data) => match hex_decoding(encode_utf8(sig_hex)) {
                Err(e) => SignedCheck::Fail(DroneError::Hex(e)),
                Ok(sig) => if devices.contains_key(sender)
                    && ml_dsa_44_verifies(devices[sender].dilithium_verification, sig, data) {
                    SignedCheck::Signed(data, sig)
                } else {
                    SignedCheck::Skip
                },
            },
        },
        _ => SignedCheck::Skip,
    }
}

/// A message of the given kind from `sender` to `receiver` carrying `message` sealed for
/// `recipient_key` and signed with `signing_key`, a key pair that loads; the signature
/// verifies under the key pair's public key.
#[verifier::opaque]
pub open spec fn signed_sealed_text(
    text: Seq<char>,
    kind: MessageType,
    sender: Seq<char>,
    receiver: Seq<char>,
    message: Seq<char>,
    recipient_key: Seq<u8>,
    signing_key: Seq<u8>,
) -> bool {
    exists|data: Seq<u8>, sig: Seq<u8>| {
        &&& #[trigger] is_message_text(text, kind, sender, receiver, Some(data), Some(sig))
        &&& sealed_under(data, message, recipient_key)
        &&& ml_dsa_keypair_accepted(signing_key)
        &&& is_ml_dsa_44_keypair(signing_key) ==> ml_dsa_44_verifies(keypair_public_key(signing_key), sig, data)
    }
}

/// A text message from `sender` to `target` carrying `message` sealed for `recipient_key`
/// and signed with `signing_key`.
pub open spec fn relayed_text(
    text: Seq<char>,
    sender: Seq<char>,
    target: Seq<char>,
    recipient_key: Seq<u8>,
    message: Seq<char>,
    signing_key: Seq<u8>,
) -> bool {
    signed_sealed_text(text, MessageType::Text, sender, target, message, recipient_key, signing_key)
}

/// The target of a send action.
pub open spec fn action_target(a: DroneAction) -> Seq<char> {
    match a {
        DroneAction::SendTo { target, .. } => target@,
        _ => Seq::empty(),
    }
}

/// An action that relays `message` from `sender` to the device it is sent to, sealed for
/// that device's Kyber public key among `devices`.
#[verifier::opaque]
pub open spec fn relay_action(
    a: DroneAction,
    sender: Seq<char>,
    devices: Map<Seq<char>, DeviceView>,
    message: Seq<char>,
    signing_key: Seq<u8>,
) -> bool {
    a matches DroneAction::SendTo { target: t, text }
        && relayed_text(text@, sender, t@, devices[t@].kyber_public, message, signing_key)
}

/// How sealing `message` for `recipient_key` can fail: a key of the wrong size is refused
/// first; otherwise only AES-GCM's refusal of a message over its limit remains.
pub open spec fn seal_failure(e: KemError, recipient_key: Seq<u8>, message: Seq<char>) -> bool {
    match e {
        KemError::InvalidPublicKeySize => recipient_key.len() != KYBER_PUBLIC_KEY_BYTES,
        KemError::EncryptionFailed => recipient_key.len() == KYBER_PUBLIC_KEY_BYTES
            && encode_utf8(message).len() > AES_GCM_MAX_PLAINTEXT,
        _ => false,
    }
}

/// How signing sealed data can fail once sealing has succeeded: a signing key that does
/// not load is refused; otherwise the randomised signing may fail.
pub open spec fn sign_failure(e: SignatureError, recipient_key: Seq<u8>, message: Seq<char>, signing_key: Seq<u8>) -> bool {
    &&& recipient_key.len() == KYBER_PUBLIC_KEY_BYTES
    &&& encode_utf8(message).len() <= AES_GCM_MAX_PLAINTEXT
    &&& match e {
        SignatureError::InvalidSigningKey(_) => !ml_dsa_keypair_accepted(signing_key),
        SignatureError::SigningFailed(_) => ml_dsa_keypair_accepted(signing_key),
        _ => false,
    }
}

/// An error that re-sealing `message` for `recipient_key` and re-signing it may end in.
pub open spec fn relay_failure(e: DroneError, recipient_key: Seq<u8>, message: Seq<char>, signing_key: Seq<u8>) -> bool {
    match e {
        DroneError::Kem(k) => seal_failure(k, recipient_key, message),
        DroneError::Signature(s) => sign_failure(s, recipient_key, message, signing_key),
        _ => false,
    }
}

/// What handling a private text comes to: a text signed by a known sender and addressed to
/// another known device is passed on to it as it came, sealed for that device by the sender
/// and carrying the sender's signature; the drone does not open it.
pub open spec fn text_outcome(
    actions: Seq<DroneAction>,
    error: Option<DroneError>,
    km: KeyManagerView,
    sender: Seq<char>,
    receiver: Seq<char>,
    payload: Option<Seq<char>>,
    signature: Option<Seq<char>>,
) -> bool {
    match signed_check(km.devices, sender, payload, signature) {
        SignedCheck::Skip => actions.len() == 0 && error is None,
        SignedCheck::Fail(e) => actions.len() == 0 && error == Some(e),
        SignedCheck::Signed(data, sig) => if receiver == "drone"@ || receiver == sender || !km.devices.contains_key(receiver) {
            actions.len() == 0 && error is None
        } else {
            &&& error is None
            &&& actions.len() == 1
            &&& actions[0] matches DroneAction::SendTo { target, text } && target@ == receiver
                && is_message_text(text@, MessageType::Text, sender, receiver, Some(data), Some(sig))
        },
    }
}

/// What handling a broadcast comes to: the drone opens it with its own Kyber secret key,
/// then relays it to each other known device once, sealed for that device and signed by
/// the drone. An error stops the relaying; it comes from one of the devices not yet served.
pub open spec fn broadcast_outcome(
    actions: Seq<DroneAction>,
    error: Option<DroneError>,
    km: KeyManagerView,
    sender: Seq<char>,
    payload: Option<Seq<char>>,
    signature: Option<Seq<char>>,
) -> bool {
    match signed_check(km.devices, sender, payload, signature) {
        SignedCheck::Skip => actions.len() == 0 && error is None,
        SignedCheck::Fail(e) => actions.len() == 0 && error == Some(e),
        SignedCheck::Signed(data, _) => match opened_message(data, km.kyber_secret) {
            Err(_) => actions.len() == 0 && error is None,
            Ok(m) => {
                &&& forall|a: int| 0 <= a < actions.len() ==> {
                    &&& km.devices.contains_key(action_target(#[trigger] actions[a]))
                    &&& action_target(actions[a]) != sender
                    &&& relay_action(actions[a], sender, km.devices, m, km.dilithium_signing)
                }
                &&& forall|a: int, b: int| 0 <= a < b < actions.len()
                    ==> action_target(#[trigger] actions[a]) != action_target(#[trigger] actions[b])
                &&& error matches Some(e) ==> exists|k: Seq<char>| #![trigger km.devices[k]]
                    km.devices.contains_key(k) && k != sender
                        && relay_failure(e, km.devices[k].kyber_public, m, km.dilithium_signing)
                        && forall|a: int| 0 <= a < actions.len() ==> action_target(#[trigger] actions[a]) != k
                &&& error is None ==> forall|k: Seq<char>| #[trigger] km.devices.contains_key(k) && k != sender
                    ==> exists|a: int| 0 <= a < actions.len() && action_target(#[trigger] actions[a]) == k
            },
        },
    }
}

/// What handling a key exchange comes to: the announced device is recorded and stored,
/// then the device list goes to every other device.
pub open spec fn key_exchange_outcome(
    actions: Seq<DroneAction>,
    error: Option<DroneError>,
    before: KeyManagerView,
    after: KeyManagerView,
    sender: Seq<char>,
    payload: Option<Seq<char>>,
) -> bool {
    match payload {
        None => {
            &&& after == before
            &&& error is None
            &&& actions.len() == 1
            &&& actions[0] matches DroneAction::BroadcastDeviceList { exclude } && exclude@ == sender
        },
        Some(p) => match peer_keys_of(p) {
            Err(e) => after == before && error == Some(e) && actions.len() == 0,
            Ok((k, d, n)) => {
                &&& after == KeyManagerView {
                    devices: before.devices.insert(
                        sender,
                        DeviceView { kyber_public: k, dilithium_verification: d, connected: true, name: n },
                    ),
                    ..before
                }
                &&& error is None
                &&& actions.len() == 2
                &&& actions[0] is PersistKeys
                &&& actions[1] matches DroneAction::BroadcastDeviceList { exclude } && exclude@ == sender
            },
        },
    }
}

enum Checked {
    Skip,
    Fail(DroneError),
    Signed(Vec<u8>, Vec<u8>),
}

fn check_signed(
    client_id: &str,
    payload: &Option<String>,
    signature: &Option<String>,
    key_manager: &KeyManager,
    dilithium: &DilithiumSignature,
) -> (r: Checked)
    ensures
        match r {
            Checked::Skip => signed_check(key_manager@.devices, client_id@, text_field(*payload), text_field(*signature)) is Skip,
            Checked::Fail(e) => signed_check(key_manager@.devices, client_id@, text_field(*payload), text_field(*signature)) == SignedCheck::Fail(e),
            Checked::Signed(d, s) => signed_check(key_manager@.devices, client_id@, text_field(*payload), text_field(*signature)) == SignedCheck::Signed(d@, s@),
        },
{
    let (payload_hex, signature_hex) = match (payload, signature) {
        (Some(p), Some(s)) => (p, s),
        _ => return Checked::Skip,
    };
    let data = match hex_decode(payload_hex.as_str()) {
        Ok(b) => b,
        Err(e) => return Checked::Fail(DroneError::Hex(e)),
    };
    let sig = match hex_decode(signature_hex.as_str()) {
        Ok(b) => b,
        Err(e) => return Checked::Fail(DroneError::Hex(e)),
    };
    let device = match key_manager.get_device(client_id) {
        Some(d) => d,
        None => return Checked::Skip,
    };
    let valid = match dilithium.verify(data.as_slice(), sig.as_slice(), device.dilithium_verification.as_slice()) {
        Ok(v) => v,
        Err(_) => false,
    };
    if !valid {
        return Checked::Skip;
    }
    Checked::Signed(data, sig)
}

fn relay_to(
    sender: &str,
    target: &str,
    message: &str,
    target_kyber: &[u8],
    key_manager: &KeyManager,
    kyber: &KyberKem,
    dilithium: &DilithiumSignature,
) -> (r: Result<String, DroneError>)
    ensures
        r matches Ok(text) ==> relayed_text(text@, sender@, target@, target_kyber@, message@, key_manager@.dilithium_signing),
        r matches Err(e) ==> relay_failure(e, target_kyber@, message@, key_manager@.dilithium_signing),
{
    let re_encrypted = match kyber.encrypt_message(message, target_kyber) {
        Ok(c) => c,
        Err(e) => return Err(DroneError::Kem(e)),
    };
    let ghost data = re_encrypted@;
    let re_signature = match dilithium.sign(re_encrypted.as_slice(), key_manager.get_dilithium_signing()) {
        Ok(s) => s,
        Err(e) => return Err(DroneError::Signature(e)),
    };
    let ghost sig = re_signature@;
    match MessageProtocol::create_text_message(sender, target, re_encrypted, re_signature) {
        Ok(text) => {
            proof {
                assert(is_message_text(text@, MessageType::Text, sender@, target@, Some(data), Some(sig)));
                reveal(signed_sealed_text);
            }
            Ok(text)
        },
        Err(e) => Err(DroneError::Protocol(e)),
    }
}

/// Passes a private text on: a text signed by its known sender and addressed to another
/// known device goes to that device as it came, unless it is addressed to the drone or back
/// to the sender. The drone checks the signature but does not open the text, which the
/// sender sealed for the receiver.
pub fn handle_text_message(
    client_id: &str,
    msg: &SecureMessage,
    key_manager: &KeyManager,
    _kyber: &KyberKem,
    dilithium: &DilithiumSignature,
) -> (r: DroneOutcome)
    ensures
        text_outcome(r.actions@, r.error, key_manager@, client_id@, msg.receiver@, text_field(msg.payload), text_field(msg.signature)),
{
    let mut actions: Vec<DroneAction> = Vec::new();
    let (data, sig) = match check_signed(client_id, &msg.payload, &msg.signature, key_manager, dilithium) {
        Checked::Skip => return DroneOutcome { actions, error: None },
        Checked::Fail(e) => return DroneOutcome { actions, error: Some(e) },
        Checked::Signed(d, s) => (d, s),
    };
    let target_id = msg.receiver.as_str();
    if str_eq(target_id, "drone") || str_eq(target_id, client_id) {
        return DroneOutcome { actions, error: None };
    }
    if key_manager.get_device(target_id).is_none() {
        return DroneOutcome { actions, error: None };
    }
    match MessageProtocol::create_text_message(client_id, target_id, data, sig) {
        Ok(text) => {
            actions.push(DroneAction::SendTo { target: msg.receiver.clone(), text });
            DroneOutcome { actions, error: None }
        },
        Err(e) => DroneOutcome { actions, error: Some(DroneError::Protocol(e)) },
    }
}

/// After the first `i` listed devices, the relays made are one to each of those devices
/// other than the sender, in order of the list.
#[verifier::opaque]
pub open spec fn broadcast_progress(
    actions: Seq<DroneAction>,
    es: Seq<(Seq<char>, DeviceView)>,
    devices: Map<Seq<char>, DeviceView>,
    i: int,
    sender: Seq<char>,
    message: Seq<char>,
    signing_key: Seq<u8>,
) -> bool {
    &&& forall|a: int| 0 <= a < actions.len() ==> {
        &&& relay_action(#[trigger] actions[a], sender, devices, message, signing_key)
        &&& exists|j: int| 0 <= j < i && #[trigger] es[j].0 == action_target(actions[a]) && es[j].0 != sender
    }
    &&& forall|j: int| 0 <= j < i && #[trigger] es[j].0 != sender
        ==> exists|a: int| 0 <= a < actions.len() && action_target(#[trigger] actions[a]) == es[j].0
    &&& forall|a: int, b: int| 0 <= a < b < actions.len()
        ==> action_target(#[trigger] actions[a]) != action_target(#[trigger] actions[b])
}

proof fn lemma_progress_start(es: Seq<(Seq<char>, DeviceView)>, devices: Map<Seq<char>, DeviceView>, sender: Seq<char>, message: Seq<char>, signing_key: Seq<u8>)
    ensures
        broadcast_progress(Seq::empty(), es, devices, 0, sender, message, signing_key),
{
    reveal(broadcast_progress);
}

proof fn lemma_progress_skip(
    actions: Seq<DroneAction>,
    es: Seq<(Seq<char>, DeviceView)>,
    devices: Map<Seq<char>, DeviceView>,
    i: int,
    sender: Seq<char>,
    message: Seq<char>,
    signing_key: Seq<u8>,
)
    requires
        0 <= i < es.len(),
        es[i].0 == sender,
        broadcast_progress(actions, es, devices, i, sender, message, signing_key),
    ensures
        broadcast_progress(actions, es, devices, i + 1, sender, message, signing_key),
{
    reveal(broadcast_progress);
    assert forall|a: int| 0 <= a < actions.len() implies
        exists|j: int| 0 <= j < i + 1 && #[trigger] es[j].0 == action_target(#[trigger] actions[a]) && es[j].0 != sender by {
        let j = choose|j: int| 0 <= j < i && #[trigger] es[j].0 == action_target(actions[a]) && es[j].0 != sender;
        assert(es[j].0 == action_target(actions[a]));
    }
}

proof fn lemma_push_relays(
    actions: Seq<DroneAction>,
    action: DroneAction,
    es: Seq<(Seq<char>, DeviceView)>,
    devices: Map<Seq<char>, DeviceView>,
    i: int,
    sender: Seq<char>,
    message: Seq<char>,
    signing_key: Seq<u8>,
)
    requires
        0 <= i < es.len(),
        es[i].0 != sender,
        action_target(action) == es[i].0,
        relay_action(action, sender, devices, message, signing_key),
        forall|a: int| 0 <= a < actions.len() ==> {
            &&& relay_action(#[trigger] actions[a], sender, devices, message, signing_key)
            &&& exists|j: int| 0 <= j < i && #[trigger] es[j].0 == action_target(actions[a]) && es[j].0 != sender
        },
    ensures
        forall|a: int| 0 <= a < actions.push(action).len() ==> {
            &&& relay_action(#[trigger] actions.push(action)[a], sender, devices, message, signing_key)
            &&& exists|j: int| 0 <= j < i + 1 && #[trigger] es[j].0 == action_target(actions.push(action)[a]) && es[j].0 != sender
        },
{
    let na = actions.push(action);
    assert forall|a: int| 0 <= a < na.len() implies {
        &&& relay_action(#[trigger] na[a], sender, devices, message, signing_key)
        &&& exists|j: int| 0 <= j < i + 1 && #[trigger] es[j].0 == action_target(na[a]) && es[j].0 != sender
    } by {
        if a < actions.len() {
            assert(na[a] == actions[a]);
            let j = choose|j: int| 0 <= j < i && #[trigger] es[j].0 == action_target(actions[a]) && es[j].0 != sender;
            assert(es[j].0 == action_target(na[a]));
        } else {
            assert(na[a] == action);
            assert(es[i].0 == action_target(na[a]));
        }
    }
}

proof fn lemma_push_covers(
    actions: Seq<DroneAction>,
    action: DroneAction,
    es: Seq<(Seq<char>, DeviceView)>,
    i: int,
    sender: Seq<char>,
)
    requires
        0 <= i < es.len(),
        action_target(action) == es[i].0,
        forall|j: int| 0 <= j < i && #[trigger] es[j].0 != sender
            ==> exists|a: int| 0 <= a < actions.len() && action_target(#[trigger] actions[a]) == es[j].0,
    ensures
        forall|j: int| 0 <= j < i + 1 && #[trigger] es[j].0 != sender
            ==> exists|a: int| 0 <= a < actions.push(action).len() && action_target(#[trigger] actions.push(action)[a]) == es[j].0,
{
    let na = actions.push(action);
    assert forall|j: int| 0 <= j < i + 1 && #[trigger] es[j].0 != sender
        implies exists|a: int| 0 <= a < na.len() && action_target(#[trigger] na[a]) == es[j].0 by {
        if j < i {
            let a = choose|a: int| 0 <= a < actions.len() && action_target(#[trigger] actions[a]) == es[j].0;
            assert(na[a] == actions[a]);
        } else {
            assert(action_target(na[actions.len() as int]) == es[j].0);
        }
    }
}

proof fn lemma_push_distinct(
    actions: Seq<DroneAction>,
    action: DroneAction,
    es: Seq<(Seq<char>, DeviceView)>,
    devices: Map<Seq<char>, DeviceView>,
    i: int,
    sender: Seq<char>,
    message: Seq<char>,
    signing_key: Seq<u8>,
)
    requires
        0 <= i < es.len(),
        unique_ids(es),
        action_target(action) == es[i].0,
        forall|a: int| 0 <= a < actions.len() ==> {
            &&& relay_action(#[trigger] actions[a], sender, devices, message, signing_key)
            &&& exists|j: int| 0 <= j < i && #[trigger] es[j].0 == action_target(actions[a]) && es[j].0 != sender
        },
        forall|a: int, b: int| 0 <= a < b < actions.len()
            ==> action_target(#[trigger] actions[a]) != action_target(#[trigger] actions[b]),
    ensures
        forall|a: int, b: int| 0 <= a < b < actions.push(action).len()
            ==> action_target(#[trigger] actions.push(action)[a]) != action_target(#[trigger] actions.push(action)[b]),
{
    let na = actions.push(action);
    assert forall|a: int, b: int| 0 <= a < b < na.len()
        implies action_target(#[trigger] na[a]) != action_target(#[trigger] na[b]) by {
        assert(na[a] == actions[a]);
        if b < actions.len() {
            assert(na[b] == actions[b]);
        } else {
            let j = choose|j: int| 0 <= j < i && #[trigger] es[j].0 == action_target(actions[a]) && es[j].0 != sender;
            assert(es[j].0 != es[i].0);
        }
    }
}

proof fn lemma_progress_push(
    actions: Seq<DroneAction>,
    action: DroneAction,
    es: Seq<(Seq<char>, DeviceView)>,
    devices: Map<Seq<char>, DeviceView>,
    i: int,
    sender: Seq<char>,
    message: Seq<char>,
    signing_key: Seq<u8>,
)
    requires
        0 <= i < es.len(),
        unique_ids(es),
        es[i].0 != sender,
        action_target(action) == es[i].0,
        relay_action(action, sender, devices, message, signing_key),
        broadcast_progress(actions, es, devices, i, sender, message, signing_key),
    ensures
        broadcast_progress(actions.push(action), es, devices, i + 1, sender, message, signing_key),
{
    reveal(broadcast_progress);
    lemma_push_relays(actions, action, es, devices, i, sender, message, signing_key);
    lemma_push_covers(actions, action, es, i, sender);
    lemma_push_distinct(actions, action, es, devices, i, sender, message, signing_key);
}

proof fn lemma_progress_done(
    actions: Seq<DroneAction>,
    es: Seq<(Seq<char>, DeviceView)>,
    devices: Map<Seq<char>, DeviceView>,
    sender: Seq<char>,
    message: Seq<char>,
    signing_key: Seq<u8>,
)
    requires
        broadcast_progress(actions, es, devices, es.len() as int, sender, message, signing_key),
        forall|k: Seq<char>| devices.contains_key(k) <==> exists|j: int| 0 <= j < es.len() && #[trigger] es[j].0 == k,
    ensures
        forall|a: int| 0 <= a < actions.len() ==> {
            &&& devices.contains_key(action_target(#[trigger] actions[a]))
            &&& action_target(actions[a]) != sender
            &&& relay_action(actions[a], sender, devices, message, signing_key)
        },
        forall|a: int, b: int| 0 <= a < b < actions.len()
            ==> action_target(#[trigger] actions[a]) != action_target(#[trigger] actions[b]),
        forall|k: Seq<char>| #[trigger] devices.contains_key(k) && k != sender
            ==> exists|a: int| 0 <= a < actions.len() && action_target(#[trigger] actions[a]) == k,
{
    reveal(broadcast_progress);
    assert forall|a: int| 0 <= a < actions.len() implies {
        &&& devices.contains_key(action_target(#[trigger] actions[a]))
        &&& action_target(actions[a]) != sender
        &&& relay_action(actions[a], sender, devices, message, signing_key)
    } by {
        let j = choose|j: int| 0 <= j < es.len() && #[trigger] es[j].0 == action_target(actions[a]) && es[j].0 != sender;
        assert(es[j].0 == action_target(actions[a]));
    }
    assert forall|k: Seq<char>| #[trigger] devices.contains_key(k) && k != sender
        implies exists|a: int| 0 <= a < actions.len() && action_target(#[trigger] actions[a]) == k by {
        let j = choose|j: int| 0 <= j < es.len() && #[trigger] es[j].0 == k;
        assert(es[j].0 != sender);
    }
}

proof fn lemma_progress_unserved(
    actions: Seq<DroneAction>,
    es: Seq<(Seq<char>, DeviceView)>,
    devices: Map<Seq<char>, DeviceView>,
    i: int,
    sender: Seq<char>,
    message: Seq<char>,
    signing_key: Seq<u8>,
)
    requires
        0 <= i < es.len(),
        unique_ids(es),
        broadcast_progress(actions, es, devices, i, sender, message, signing_key),
    ensures
        forall|a: int| 0 <= a < actions.len() ==> action_target(#[trigger] actions[a]) != es[i].0,
{
    reveal(broadcast_progress);
    assert forall|a: int| 0 <= a < actions.len() implies action_target(#[trigger] actions[a]) != es[i].0 by {
        let j = choose|j: int| 0 <= j < i && #[trigger] es[j].0 == action_target(actions[a]) && es[j].0 != sender;
        assert(es[j].0 != es[i].0);
    }
}

proof fn lemma_progress_partial(
    actions: Seq<DroneAction>,
    es: Seq<(Seq<char>, DeviceView)>,
    i: int,
    devices: Map<Seq<char>, DeviceView>,
    sender: Seq<char>,
    message: Seq<char>,
    signing_key: Seq<u8>,
)
    requires
        0 <= i <= es.len(),
        broadcast_progress(actions, es, devices, i, sender, message, signing_key),
        forall|k: Seq<char>| devices.contains_key(k) <==> exists|j: int| 0 <= j < es.len() && #[trigger] es[j].0 == k,
    ensures
        forall|a: int| 0 <= a < actions.len() ==> {
            &&& devices.contains_key(action_target(#[trigger] actions[a]))
            &&& action_target(actions[a]) != sender
            &&& relay_action(actions[a], sender, devices, message, signing_key)
        },
        forall|a: int, b: int| 0 <= a < b < actions.len()
            ==> action_target(#[trigger] actions[a]) != action_target(#[trigger] actions[b]),
{
    reveal(broadcast_progress);
    assert forall|a: int| 0 <= a < actions.len() implies {
        &&& devices.contains_key(action_target(#[trigger] actions[a]))
        &&& action_target(actions[a]) != sender
        &&& relay_action(actions[a], sender, devices, message, signing_key)
    } by {
        let j = choose|j: int| 0 <= j < i && #[trigger] es[j].0 == action_target(actions[a]) && es[j].0 != sender;
        assert(es[j].0 == action_target(actions[a]));
    }
}

/// Relays a broadcast: checked, opened with the drone's own Kyber secret key, then re-sealed
/// for every other known device and re-signed by the drone; an error stops the relaying, and
/// the relays made before it stand.
pub fn handle_broadcast_message(
    client_id: &str,
    msg: &SecureMessage,
    key_manager: &KeyManager,
    kyber: &KyberKem,
    dilithium: &DilithiumSignature,
) -> (r: DroneOutcome)
    ensures
        broadcast_outcome(r.actions@, r.error, key_manager@, client_id@, text_field(msg.payload), text_field(msg.signature)),
{
    let mut actions: Vec<DroneAction> = Vec::new();
    let data = match check_signed(client_id, &msg.payload, &msg.signature, key_manager, dilithium) {
        Checked::Skip => return DroneOutcome { actions, error: None },
        Checked::Fail(e) => return DroneOutcome { actions, error: Some(e) },
        Checked::Signed(d, _) => d,
    };
    let decrypted = match kyber.decrypt_message(data.as_slice(), key_manager.get_kyber_secret()) {
        Ok(m) => m,
        Err(_) => return DroneOutcome { actions, error: None },
    };
    let devices = key_manager.get_all_devices();
    let ghost es = entries_view(devices@);
    let ghost km = key_manager@;
    proof {
        crate::crypto::key_manager::lemma_entries_map(es);
        lemma_progress_start(es, km.devices, client_id@, decrypted@, km.dilithium_signing);
    }
    let mut i: usize = 0;
    while i < devices.len()
        invariant
            i <= devices@.len(),
            es == entries_view(devices@),
            unique_ids(es),
            km == key_manager@,
            km.devices == entries_map(es),
            forall|k: Seq<char>| km.devices.contains_key(k) <==> exists|j: int| 0 <= j < es.len() && #[trigger] es[j].0 == k,
            forall|j: int| 0 <= j < es.len() ==> km.devices[#[trigger] es[j].0] == es[j].1,
            broadcast_progress(actions@, es, km.devices, i as int, client_id@, decrypted@, km.dilithium_signing),
            signed_check(km.devices, client_id@, text_field(msg.payload), text_field(msg.signature)) matches SignedCheck::Signed(d, _)
                && opened_message(d, km.kyber_secret) == Ok::<Seq<char>, KemError>(decrypted@),
        decreases devices@.len() - i,
    {
        let entry = &devices[i];
        let target_id = entry.0.as_str();
        assert(es[i as int].0 == entry.0@);
        assert(km.devices[entry.0@] == es[i as int].1);
        if !str_eq(target_id, client_id) {
            match relay_to(client_id, target_id, decrypted.as_str(), entry.1.kyber_public.as_slice(), key_manager, kyber, dilithium) {
                Ok(text) => {
                    let action = DroneAction::SendTo { target: entry.0.clone(), text };
                    proof {
                        reveal(relay_action);
                        lemma_progress_push(actions@, action, es, km.devices, i as int, client_id@, decrypted@, km.dilithium_signing);
                    }
                    actions.push(action);
                },
                Err(e) => {
                    proof {
                        lemma_progress_partial(actions@, es, i as int, km.devices, client_id@, decrypted@, km.dilithium_signing);
                        lemma_progress_unserved(actions@, es, km.devices, i as int, client_id@, decrypted@, km.dilithium_signing);
                        assert(km.devices.contains_key(entry.0@));
                    }
                    return DroneOutcome { actions, error: Some(e) };
                },
            }
        } else {
            proof {
                lemma_progress_skip(actions@, es, km.devices, i as int, client_id@, decrypted@, km.dilithium_signing);
            }
        }
        i = i + 1;
    }
    proof {
        lemma_progress_done(actions@, es, km.devices, client_id@, decrypted@, km.dilithium_signing);
    }
    DroneOutcome { actions, error: None }
}

/// Records the device that announced its keys, asks for the store to be saved, and asks
/// for the device list to go to every other device.
pub fn handle_key_exchange(client_id: &str, msg: &SecureMessage, key_manager: &mut KeyManager) -> (r: DroneOutcome)
    ensures
        key_exchange_outcome(r.actions@, r.error, old(key_manager)@, final(key_manager)@, client_id@, text_field(msg.payload)),
{
    let mut actions: Vec<DroneAction> = Vec::new();
    match &msg.payload {
        Some(payload) => {
            match parse_peer_keys(payload.as_str()) {
                Ok(keys) => {
                    let PeerKeys { kyber_public, dilithium_verification, name } = keys;
                    key_manager.add_device(client_id, name.as_str(), kyber_public, dilithium_verification);
                    actions.push(DroneAction::PersistKeys);
                },
                Err(e) => return DroneOutcome { actions, error: Some(e) },
            }
        },
        None => {},
    }
    actions.push(DroneAction::BroadcastDeviceList { exclude: client_id.to_owned() });
    DroneOutcome { actions, error: None }
}

/// The answer to a heartbeat: an acknowledgement from the drone back to the sender.
pub fn handle_heartbeat(client_id: &str) -> (r: DroneOutcome)
    ensures
        r.error is None,
        r.actions@.len() == 1,
        r.actions@[0] matches DroneAction::SendTo { target, text } && target@ == client_id@
            && is_message_text(text@, MessageType::HeartbeatAck, "drone"@, client_id@, None, None),
{
    let mut actions: Vec<DroneAction> = Vec::new();
    match MessageProtocol::encode_message(MessageType::HeartbeatAck, "drone", client_id, None, None) {
        Ok(text) => {
            actions.push(DroneAction::SendTo { target: client_id.to_owned(), text });
            DroneOutcome { actions, error: None }
        },
        Err(e) => DroneOutcome { actions, error: Some(DroneError::Protocol(e)) },
    }
}

/// The answer to a device-list request: the list goes back to the device that asked.
pub fn handle_list_request(client_id: &str) -> (r: DroneOutcome)
    ensures
        r.error is None,
        r.actions@.len() == 1,
        r.actions@[0] matches DroneAction::SendDeviceList { target } && target@ == client_id@,
{
    let mut actions: Vec<DroneAction> = Vec::new();
    actions.push(DroneAction::SendDeviceList { target: client_id.to_owned() });
    DroneOutcome { actions, error: None }
}

/// What handling a message of a given kind comes to, besides the key exchange: heartbeats
/// are answered, a device-list request gets the list back, a disconnect
/// forgets the device, texts are passed on, broadcasts are relayed, and the other kinds are
/// only noted.
pub open spec fn message_outcome(
    actions: Seq<DroneAction>,
    error: Option<DroneError>,
    before: KeyManagerView,
    after: KeyManagerView,
    sender: Seq<char>,
    msg_type: MessageType,
    receiver: Seq<char>,
    payload: Option<Seq<char>>,
    signature: Option<Seq<char>>,
) -> bool {
    match msg_type {
        MessageType::KeyExchange => key_exchange_outcome(actions, error, before, after, sender, payload),
        MessageType::Text => after == before && text_outcome(actions, error, before, sender, receiver, payload, signature),
        MessageType::Broadcast => after == before && broadcast_outcome(actions, error, before, sender, payload, signature),
        MessageType::Heartbeat => {
            &&& after == before
            &&& error is None
            &&& actions.len() == 1
            &&& actions[0] matches DroneAction::SendTo { target, text } && target@ == sender
                && is_message_text(text@, MessageType::HeartbeatAck, "drone"@, sender, None, None)
        },
        MessageType::DeviceList => {
            &&& after == before
            &&& error is None
            &&& actions.len() == 1
            &&& actions[0] matches DroneAction::SendDeviceList { target } && target@ == sender
        },
        MessageType::Disconnect => {
            &&& after == KeyManagerView { devices: before.devices.remove(sender), ..before }
            &&& error is None
            &&& actions.len() == 1
            &&& actions[0] is PersistKeys
        },
        _ => after == before && error is None && actions.len() == 0,
    }
}

/// Handles one message from a device.
pub fn handle_message(
    client_id: &str,
    msg: &SecureMessage,
    key_manager: &mut KeyManager,
    kyber: &KyberKem,
    dilithium: &DilithiumSignature,
) -> (r: DroneOutcome)
    ensures
        message_outcome(
            r.actions@,
            r.error,
            old(key_manager)@,
            final(key_manager)@,
            client_id@,
            msg.msg_type,
            msg.receiver@,
            text_field(msg.payload),
            text_field(msg.signature),
        ),
{
    match msg.msg_type {
        MessageType::KeyExchange => handle_key_exchange(client_id, msg, key_manager),
        MessageType::Text => handle_text_message(client_id, msg, key_manager, kyber, dilithium),
        MessageType::Broadcast => handle_broadcast_message(client_id, msg, key_manager, kyber, dilithium),
        MessageType::Heartbeat => handle_heartbeat(client_id),
        MessageType::DeviceList => handle_list_request(client_id),
        MessageType::Disconnect => {
            key_manager.remove_device(client_id);
            let mut actions: Vec<DroneAction> = Vec::new();
            actions.push(DroneAction::PersistKeys);
            DroneOutcome { actions, error: None }
        },
        _ => DroneOutcome { actions: Vec::new(), error: None },
    }
}

/// The drone relays nothing, privately or to all, for a text whose signature does not
/// verify under the key it holds for the sender, and reports no error for it.
pub proof fn lemma_unverified_text_is_dropped(
    actions: Seq<DroneAction>,
    error: Option<DroneError>,
    km: KeyManagerView,
    sender: Seq<char>,
    receiver: Seq<char>,
    payload: Seq<char>,
    signature: Seq<char>,
    data: Seq<u8>,
    sig: Seq<u8>,
)
    requires
        hex_decoding(encode_utf8(payload)) == Ok::<Seq<u8>, HexError>(data),
        hex_decoding(encode_utf8(signature)) == Ok::<Seq<u8>, HexError>(sig),
        km.devices.contains_key(sender) ==> !ml_dsa_44_verifies(km.devices[sender].dilithium_verification, sig, data),
        text_outcome(actions, error, km, sender, receiver, Some(payload), Some(signature))
            || broadcast_outcome(actions, error, km, sender, Some(payload), Some(signature)),
    ensures
        actions.len() == 0,
        error is None,
{
}

/// A private text whose signature verifies under the key the drone holds for its known
/// sender, addressed to another known device, is passed on to that device exactly once,
/// from the same sender and with the same data and signature, and no error is reported.
pub proof fn lemma_signed_text_is_passed_on(
    actions: Seq<DroneAction>,
    error: Option<DroneError>,
    km: KeyManagerView,
    sender: Seq<char>,
    receiver: Seq<char>,
    data: Seq<u8>,
    sig: Seq<u8>,
)
    requires
        km.devices.contains_key(sender),
        ml_dsa_44_verifies(km.devices[sender].dilithium_verification, sig, data),
        km.devices.contains_key(receiver),
        receiver != sender,
        receiver != "drone"@,
        text_outcome(actions, error, km, sender, receiver, Some(hex_encoding(data)), Some(hex_encoding(sig))),
    ensures
        error is None,
        actions.len() == 1,
        actions[0] matches DroneAction::SendTo { target, text } && target@ == receiver
            && is_message_text(text@, MessageType::Text, sender, receiver, Some(data), Some(sig)),
{
    lemma_hex_round_trip(data);
    lemma_hex_round_trip(sig);
}

/// A broadcast that opens with the drone's secret key reaches every other known device
/// exactly once when each of them has a key of the Kyber-1024 size, the text is within
/// AES-GCM's limit and the drone's signing key loads: each relay carries the text sealed
/// for that device's key, and the only error that can still stop the relaying is a failure
/// of the signing's random source.
pub proof fn lemma_broadcast_reaches_every_other_device(
    actions: Seq<DroneAction>,
    error: Option<DroneError>,
    km: KeyManagerView,
    sender: Seq<char>,
    payload: Seq<char>,
    signature: Seq<char>,
    data: Seq<u8>,
    sig: Seq<u8>,
    message: Seq<char>,
)
    requires
        broadcast_outcome(actions, error, km, sender, Some(payload), Some(signature)),
        signed_check(km.devices, sender, Some(payload), Some(signature)) == SignedCheck::Signed(data, sig),
        opened_message(data, km.kyber_secret) == Ok::<Seq<char>, KemError>(message),
        forall|k: Seq<char>| #[trigger] km.devices.contains_key(k) && k != sender
            ==> km.devices[k].kyber_public.len() == KYBER_PUBLIC_KEY_BYTES,
        encode_utf8(message).len() <= AES_GCM_MAX_PLAINTEXT,
        ml_dsa_keypair_accepted(km.dilithium_signing),
    ensures
        error matches Some(e) ==> e matches DroneError::Signature(SignatureError::SigningFailed(_)),
        error is None ==> forall|k: Seq<char>| #[trigger] km.devices.contains_key(k) && k != sender
            ==> exists|a: int| 0 <= a < actions.len() && action_target(#[trigger] actions[a]) == k,
        forall|a: int, b: int| 0 <= a < b < actions.len()
            ==> action_target(#[trigger] actions[a]) != action_target(#[trigger] actions[b]),
        forall|a: int| 0 <= a < actions.len() ==> {
            &&& km.devices.contains_key(action_target(#[trigger] actions[a]))
            &&& action_target(actions[a]) != sender
            &&& relay_action(actions[a], sender, km.devices, message, km.dilithium_signing)
        },
{
    if error is Some {
        let e = error->0;
        let k = choose|k: Seq<char>| #![trigger km.devices[k]]
            km.devices.contains_key(k) && k != sender
                && relay_failure(e, km.devices[k].kyber_public, message, km.dilithium_signing)
                && forall|a: int| 0 <= a < actions.len() ==> action_target(#[trigger] actions[a]) != k;
        assert(km.devices[k].kyber_public.len() == KYBER_PUBLIC_KEY_BYTES);
    }
}

} // verus!
