//! A client device's decisions: how a typed line becomes a command, what each command
//! sends, and what an incoming message shows.
use vstd::prelude::*;
use vstd::utf8::{decode_utf8, encode_utf8, valid_utf8};
use crate::crypto::dilithium::{ml_dsa_44_verifies, ml_dsa_keypair_accepted, DilithiumSignature, SignatureError};
use crate::crypto::key_manager::{DeviceInfo, KeyError, KeyManager, KeyManagerView, KeyStore};
use crate::crypto::kyber::{
    decapsulates_for, opened_message, sealed_under, KemError, KyberKem, KYBER_PUBLIC_KEY_BYTES,
};
use crate::drone::central_drone::{relayed_text, seal_failure, sign_failure, signed_sealed_text, text_field};
use crate::hexcodec::{hex_decode, hex_decoding};
use crate::network::client::SecureClient;
use crate::network::protocol::{
    is_message_text, key_exchange_json, MessageProtocol, MessageType, ProtocolError, SecureMessage,
};
use crate::text::{is_white_space, str_eq, string_from_utf8, trim, trimmed, white_space};

verus! {

broadcast use vstd::utf8::group_utf8_lib;

/// What a typed line asks for, abstractly.
pub enum CommandView {
    Quit,
    List,
    Broadcast(Seq<char>),
    Direct(Seq<char>, Seq<char>),
    Unknown,
    Nothing,
}

/// What a typed line asks for.
#[derive(Debug, Clone)]
pub enum Command {
    /// `/quit`: leave the mesh.
    Quit,
    /// `/list`: ask for the device list.
    List,
    /// `@all message`: send to every device through the drone.
    Broadcast(String),
    /// `@device message`: send to one device.
    Direct { target: String, message: String },
    /// Any other text: show the usage hint.
    Unknown,
    /// An empty line, or a command with nothing to send.
    Nothing,
}

/// A command seen abstractly.
pub open spec fn command_view(c: Command) -> CommandView {
    match c {
        Command::Quit => CommandView::Quit,
        Command::List => CommandView::List,
        Command::Broadcast(m) => CommandView::Broadcast(m@),
        Command::Direct { target, message } => CommandView::Direct(target@, message@),
        Command::Unknown => CommandView::Unknown,
        Command::Nothing => CommandView::Nothing,
    }
}

/// `k` is the first position of a space in `s`.
pub open spec fn first_space(s: Seq<char>, k: int) -> bool {
    &&& 0 <= k < s.len()
    &&& s[k] == ' '
    &&& forall|j: int| 0 <= j < k ==> #[trigger] s[j] != ' '
}

/// How a typed line is read. The line is trimmed; `/quit` and `/list` are commands;
/// `@all`, alone or followed by white space, broadcasts the trimmed rest if there is any;
/// another line
/// starting `@` is split at its first space into a target (after the `@`) and a message,
/// both trimmed, and does nothing without a space; any other non-empty line is unknown.
pub open spec fn command_of(line: Seq<char>) -> CommandView {
    let t = trimmed(line);
    if t == "/quit"@ {
        CommandView::Quit
    } else if t == "/list"@ {
        CommandView::List
    } else if t.len() >= 4 && t.take(4) == "@all"@ && (t.len() == 4 || is_white_space(t[4])) {
        let m = trimmed(t.skip(4));
        if m.len() > 0 {
            CommandView::Broadcast(m)
        } else {
            CommandView::Nothing
        }
    } else if t.len() >= 1 && t[0] == '@' {
        if exists|k: int| first_space(t, k) {
            let k = choose|k: int| first_space(t, k);
            CommandView::Direct(trimmed(t.subrange(1, k)), trimmed(t.skip(k + 1)))
        } else {
            CommandView::Nothing
        }
    } else if t.len() > 0 {
        CommandView::Unknown
    } else {
        CommandView::Nothing
    }
}

/// Reads a typed line.
pub fn parse_command(line: &str) -> (r: Command)
    ensures
        command_view(r) == command_of(line@),
{
    let t = trim(line);
    let n = t.unicode_len();
    if str_eq(t, "/quit") {
        return Command::Quit;
    }
    if str_eq(t, "/list") {
        return Command::List;
    }
    if n >= 4 && str_eq(t.substring_char(0, 4), "@all") && (n == 4 || white_space(t.get_char(4))) {
        let m = trim(t.substring_char(4, n));
        proof {
            assert(t@.subrange(4, n as int) =~= t@.skip(4));
        }
        if m.unicode_len() > 0 {
            return Command::Broadcast(m.to_owned());
        } else {
            return Command::Nothing;
        }
    }
    if n >= 1 && t.get_char(0) == '@' {
        let mut k: usize = 0;
        while k < n && t.get_char(k) != ' '
            invariant
                n == t@.len(),
                k <= n,
                forall|j: int| 0 <= j < k ==> #[trigger] t@[j] != ' ',
            decreases n - k,
        {
            k = k + 1;
        }
        if k == n {
            proof {
                assert(!exists|k: int| first_space(t@, k)) by {
                    if exists|k: int| first_space(t@, k) {
                        let i = choose|k: int| first_space(t@, k);
                        assert(t@[i] != ' ');
                    }
                }
            }
            return Command::Nothing;
        }
        proof {
            assert(first_space(t@, k as int));
            let i = choose|k: int| first_space(t@, k);
            assert(i == k) by {
                if i < k { assert(t@[i] != ' '); }
                if i > k { assert(t@[k as int] != ' '); }
            }
            assert(t@.subrange(k + 1, n as int) =~= t@.skip(k + 1));
        }
        let target = trim(t.substring_char(1, k));
        let message = trim(t.substring_char(k + 1, n));
        return Command::Direct { target: target.to_owned(), message: message.to_owned() };
    }
    if n > 0 {
        Command::Unknown
    } else {
        Command::Nothing
    }
}

/// What a command sends, or shows, from the device.
#[derive(Debug, Clone)]
pub enum Outgoing {
    /// Send this disconnect notice, then leave.
    Disconnect(String),
    /// Send this device-list request.
    ListRequest(String),
    /// Send this broadcast of `message`.
    Broadcast { text: String, message: String },
    /// Send this private `message` to `target`.
    Direct { target: String, text: String, message: String },
    /// The target is not a known device.
    UnknownTarget(String),
    /// Show the usage hint.
    Usage,
    /// Nothing to do.
    Nothing,
}

/// What an incoming message comes to on the device.
#[derive(Debug, Clone)]
pub enum Incoming {
    /// Show a verified, decrypted text from a known peer.
    Show { peer_name: String, sender: String, text: String },
    /// The JSON text of a device list.
    DeviceList(String),
    /// Nothing to show.
    Ignore,
}

/// Why a command could not be carried out.
#[derive(Debug, Clone, Copy, PartialEq, Eq, Structural)]
pub enum ClientError {
    /// Sealing failed.
    Kem(KemError),
    /// Signing failed.
    Signature(SignatureError),
    /// A message could not be written.
    Protocol(ProtocolError),
    /// Keys could not be generated.
    Keys(KeyError),
}

/// What an incoming message shows, abstractly.
pub enum IncomingView {
    Show(Seq<char>, Seq<char>, Seq<char>),
    DeviceList(Seq<char>),
    Ignore,
}

/// An incoming message seen abstractly.
pub open spec fn incoming_view(i: Incoming) -> IncomingView {
    match i {
        Incoming::Show { peer_name, sender, text } => IncomingView::Show(peer_name@, sender@, text@),
        Incoming::DeviceList(j) => IncomingView::DeviceList(j@),
        Incoming::Ignore => IncomingView::Ignore,
    }
}

/// What a device shows for a message. A text is shown when payload and signature are hex,
/// the sender is a known peer whose key verifies the signature on the data, and the data
/// opens with the device's own Kyber secret key; a device list shows the UTF-8 text of
/// its hex payload; anything else, or any failure, shows nothing.
pub open spec fn incoming_of(
    km: KeyManagerView,
    msg_type: MessageType,
    sender: Seq<char>,
    payload: Option<Seq<char>>,
    signature: Option<Seq<char>>,
) -> IncomingView {
    match msg_type {
        MessageType::Text => match (payload, signature) {
            (Some(p), Some(s)) => match (hex_decoding(encode_utf8(p)), hex_decoding(encode_utf8(s))) {
                (Ok(data), Ok(sig)) => if km.devices.contains_key(sender)
                    && ml_dsa_44_verifies(km.devices[sender].dilithium_verification, sig, data) {
                    match opened_message(data, km.kyber_secret) {
                        Ok(m) => IncomingView::Show(km.devices[sender].name, sender, m),
                        Err(_) => IncomingView::Ignore,
                    }
                } else {
                    IncomingView::Ignore
                },
                _ => IncomingView::Ignore,
            },
            _ => IncomingView::Ignore,
        },
        MessageType::DeviceList => match payload {
            Some(p) => match hex_decoding(encode_utf8(p)) {
                Ok(raw) => if valid_utf8(raw) {
                    IncomingView::DeviceList(decode_utf8(raw))
                } else {
                    IncomingView::Ignore
                },
                Err(_) => IncomingView::Ignore,
            },
            None => IncomingView::Ignore,
        },
        _ => IncomingView::Ignore,
    }
}

/// How sealing `m` for `recipient_key` and signing it with `signing_key` can fail on a device.
pub open spec fn client_failure(e: ClientError, recipient_key: Seq<u8>, m: Seq<char>, signing_key: Seq<u8>) -> bool {
    match e {
        ClientError::Kem(k) => seal_failure(k, recipient_key, m),
        ClientError::Signature(s) => sign_failure(s, recipient_key, m, signing_key),
        _ => false,
    }
}

/// What sending a broadcast of `m` from device `id` comes to: it is sealed for the central
/// drone's Kyber key and signed with the device's own key.
pub open spec fn broadcast_sent(r: Result<Outgoing, ClientError>, keys: KeyManagerView, id: Seq<char>, m: Seq<char>) -> bool {
    if keys.devices.contains_key("drone_central"@) {
        let drone_key = keys.devices["drone_central"@].kyber_public;
        match r {
            Ok(Outgoing::Broadcast { text, message }) => message@ == m
                && signed_sealed_text(text@, MessageType::Broadcast, id, "all"@, m, drone_key, keys.dilithium_signing),
            Ok(_) => false,
            Err(e) => client_failure(e, drone_key, m, keys.dilithium_signing),
        }
    } else {
        r matches Ok(Outgoing::Nothing)
    }
}

/// What sending `m` privately from device `id` to `target` comes to: it is sealed for the
/// target's Kyber key and signed with the device's own key.
pub open spec fn direct_sent(r: Result<Outgoing, ClientError>, keys: KeyManagerView, id: Seq<char>, target: Seq<char>, m: Seq<char>) -> bool {
    if keys.devices.contains_key(target) {
        let target_key = keys.devices[target].kyber_public;
        match r {
            Ok(Outgoing::Direct { target: t, text, message }) => t@ == target && message@ == m
                && relayed_text(text@, id, target, target_key, m, keys.dilithium_signing),
            Ok(_) => false,
            Err(e) => client_failure(e, target_key, m, keys.dilithium_signing),
        }
    } else {
        r matches Ok(Outgoing::UnknownTarget(t)) && t@ == target
    }
}

/// What a command sends from device `id` with the given keys.
pub open spec fn outgoing_of(r: Result<Outgoing, ClientError>, command: CommandView, keys: KeyManagerView, id: Seq<char>) -> bool {
    match command {
        CommandView::Quit => r matches Ok(Outgoing::Disconnect(text))
            && is_message_text(text@, MessageType::Disconnect, id, "drone"@, None, None),
        CommandView::List => r matches Ok(Outgoing::ListRequest(text))
            && is_message_text(text@, MessageType::DeviceList, id, "drone"@, None, None),
        CommandView::Broadcast(m) => broadcast_sent(r, keys, id, m),
        CommandView::Direct(target, m) => direct_sent(r, keys, id, target, m),
        CommandView::Unknown => r matches Ok(Outgoing::Usage),
        CommandView::Nothing => r matches Ok(Outgoing::Nothing),
    }
}

/// A laptop, phone or tablet in the mesh.
pub struct ClientDevice {
    pub device_id: String,
    pub device_name: String,
    key_manager: KeyManager,
    kyber: KyberKem,
    dilithium: DilithiumSignature,
    client: SecureClient,
    connected_devices: Vec<(String, String)>,
}

impl ClientDevice {
    /// The device's id.
    pub closed spec fn id(&self) -> Seq<char> {
        self.device_id@
    }

    /// The device's name.
    pub closed spec fn name(&self) -> Seq<char> {
        self.device_name@
    }

    /// The device's keys and known peers.
    pub closed spec fn keys(&self) -> KeyManagerView {
        self.key_manager@
    }

    /// A device with the given id and name; its keys are stored under its id.
    pub fn new(device_id: &str, device_name: &str) -> (r: Self)
        ensures
            r.id() == device_id@,
            r.name() == device_name@,
            r.keys().entity_name == device_id@,
            r.keys().devices == Map::<Seq<char>, crate::crypto::key_manager::DeviceView>::empty(),
    {
        ClientDevice {
            device_id: device_id.to_owned(),
            device_name: device_name.to_owned(),
            key_manager: KeyManager::new(device_id),
            kyber: KyberKem::new(),
            dilithium: DilithiumSignature::new(),
            client: SecureClient::new(),
            connected_devices: Vec::new(),
        }
    }

    /// The device's key manager.
    pub fn key_manager(&self) -> (r: &KeyManager)
        ensures
            r@ == self.keys(),
    {
        &self.key_manager
    }

    /// Replaces the device's keys and known peers with a stored form.
    pub fn restore_keys(&mut self, store: KeyStore)
        ensures
            final(self).id() == old(self).id(),
            final(self).name() == old(self).name(),
            final(self).keys().entity_name == old(self).keys().entity_name,
            final(self).keys().kyber_public == store.kyber_public@,
            final(self).keys().kyber_secret == store.kyber_secret@,
            final(self).keys().dilithium_signing == store.dilithium_signing@,
            final(self).keys().dilithium_verification == store.dilithium_verification@,
            final(self).keys().devices == crate::crypto::key_manager::entries_map(
                crate::crypto::key_manager::entries_view(store.devices@),
            ),
    {
        self.key_manager.restore(store);
    }

    /// Gives the device fresh key pairs; on failure nothing changes.
    pub fn generate_keys(&mut self) -> (r: Result<(), ClientError>)
        ensures
            final(self).id() == old(self).id(),
            final(self).name() == old(self).name(),
            final(self).keys().entity_name == old(self).keys().entity_name,
            final(self).keys().devices == old(self).keys().devices,
            r is Err ==> final(self).keys() == old(self).keys(),
            r matches Err(e) ==> e matches ClientError::Keys(k) && crate::crypto::key_manager::key_generation_error(k),
            r is Ok ==> crate::crypto::key_manager::fresh_keys(final(self).keys()),
    {
        match self.key_manager.generate_keys() {
            Ok(()) => Ok(()),
            Err(e) => Err(ClientError::Keys(e)),
        }
    }

    /// The key-exchange message announcing the device's public keys and name to the drone.
    pub fn key_exchange_message(&self) -> (r: Result<String, ClientError>)
        ensures
            r matches Ok(text) && is_message_text(
                text@,
                MessageType::KeyExchange,
                self.id(),
                "drone"@,
                Some(encode_utf8(key_exchange_json(self.keys().kyber_public, self.keys().dilithium_verification, self.name()))),
                None,
            ),
    {
        let keys_json = MessageProtocol::public_keys_json(
            self.key_manager.get_kyber_public(),
            self.key_manager.get_dilithium_verification(),
            self.device_name.as_str(),
        );
        match MessageProtocol::create_key_exchange(self.device_id.as_str(), "drone", keys_json.as_str()) {
            Ok(text) => Ok(text),
            Err(e) => Err(ClientError::Protocol(e)),
        }
    }

    fn seal_and_sign(&self, message: &str, kyber_public: &[u8]) -> (r: Result<(Vec<u8>, Vec<u8>), ClientError>)
        ensures
            r matches Err(e) ==> client_failure(e, kyber_public@, message@, self.keys().dilithium_signing),
            r matches Ok((data, sig)) ==> {
                &&& sealed_under(data@, message@, kyber_public@)
                &&& ml_dsa_keypair_accepted(self.keys().dilithium_signing)
                &&& crate::crypto::dilithium::is_ml_dsa_44_keypair(self.keys().dilithium_signing)
                    ==> ml_dsa_44_verifies(crate::crypto::dilithium::keypair_public_key(self.keys().dilithium_signing), sig@, data@)
            },
    {
        let encrypted = match self.kyber.encrypt_message(message, kyber_public) {
            Ok(c) => c,
            Err(e) => return Err(ClientError::Kem(e)),
        };
        let signature = match self.dilithium.sign(encrypted.as_slice(), self.key_manager.get_dilithium_signing()) {
            Ok(s) => s,
            Err(e) => return Err(ClientError::Signature(e)),
        };
        Ok((encrypted, signature))
    }

    fn notice(&self, kind: MessageType) -> (r: Result<String, ClientError>)
        ensures
            r matches Ok(text) && is_message_text(text@, kind, self.id(), "drone"@, None, None),
    {
        match MessageProtocol::encode_message(kind, self.device_id.as_str(), "drone", None, None) {
            Ok(text) => {
                assert(crate::network::protocol::bytes_view(None::<Vec<u8>>) == None::<Seq<u8>>);
                assert(is_message_text(text@, kind, self.device_id@, "drone"@, None, None));
                Ok(text)
            },
            Err(e) => Err(ClientError::Protocol(e)),
        }
    }

    fn broadcast_out(&self, message: &String) -> (r: Result<Outgoing, ClientError>)
        ensures
            broadcast_sent(r, self.keys(), self.id(), message@),
    {
        let drone_peer = match self.key_manager.get_device("drone_central") {
            Some(d) => d,
            None => return Ok(Outgoing::Nothing),
        };
        let (data, sig) = match self.seal_and_sign(message.as_str(), drone_peer.kyber_public.as_slice()) {
            Ok(pair) => pair,
            Err(e) => return Err(e),
        };
        let ghost d = data@;
        let ghost s = sig@;
        match MessageProtocol::create_broadcast(self.device_id.as_str(), data, sig) {
            Ok(text) => {
                proof {
                    assert(is_message_text(text@, MessageType::Broadcast, self.id(), "all"@, Some(d), Some(s)));
                    reveal(signed_sealed_text);
                }
                Ok(Outgoing::Broadcast { text, message: message.clone() })
            },
            Err(e) => Err(ClientError::Protocol(e)),
        }
    }

    fn direct_out(&self, target: &String, message: &String) -> (r: Result<Outgoing, ClientError>)
        ensures
            direct_sent(r, self.keys(), self.id(), target@, message@),
    {
        let target_device = match self.key_manager.get_device(target.as_str()) {
            Some(d) => d,
            None => return Ok(Outgoing::UnknownTarget(target.clone())),
        };
        let (data, sig) = match self.seal_and_sign(message.as_str(), target_device.kyber_public.as_slice()) {
            Ok(pair) => pair,
            Err(e) => return Err(e),
        };
        let ghost d = data@;
        let ghost s = sig@;
        match MessageProtocol::create_text_message(self.device_id.as_str(), target.as_str(), data, sig) {
            Ok(text) => {
                proof {
                    assert(is_message_text(text@, MessageType::Text, self.id(), target@, Some(d), Some(s)));
                    reveal(signed_sealed_text);
                }
                Ok(Outgoing::Direct { target: target.clone(), text, message: message.clone() })
            },
            Err(e) => Err(ClientError::Protocol(e)),
        }
    }

    /// What a command sends. A broadcast goes sealed for the central drone (`drone_central`)
    /// when the device knows it; a private message goes sealed for its target when known.
    /// Both are signed with the device's own signing key.
    pub fn outgoing(&self, command: &Command) -> (r: Result<Outgoing, ClientError>)
        ensures
            outgoing_of(r, command_view(*command), self.keys(), self.id()),
    {
        match command {
            Command::Quit => match self.notice(MessageType::Disconnect) {
                Ok(text) => Ok(Outgoing::Disconnect(text)),
                Err(e) => Err(e),
            },
            Command::List => match self.notice(MessageType::DeviceList) {
                Ok(text) => Ok(Outgoing::ListRequest(text)),
                Err(e) => Err(e),
            },
            Command::Broadcast(message) => self.broadcast_out(message),
            Command::Direct { target, message } => self.direct_out(target, message),
            Command::Unknown => Ok(Outgoing::Usage),
            Command::Nothing => Ok(Outgoing::Nothing),
        }
    }

    /// What an incoming message shows on the device.
    pub fn incoming(&self, msg: &SecureMessage) -> (r: Incoming)
        ensures
            incoming_view(r) == incoming_of(self.keys(), msg.msg_type, msg.sender@, text_field(msg.payload), text_field(msg.signature)),
    {
        match msg.msg_type {
            MessageType::Text => {
                let (payload_hex, signature_hex) = match (&msg.payload, &msg.signature) {
                    (Some(p), Some(s)) => (p, s),
                    _ => return Incoming::Ignore,
                };
                let encrypted = match hex_decode(payload_hex.as_str()) {
                    Ok(b) => b,
                    Err(_) => return Incoming::Ignore,
                };
                let signature = match hex_decode(signature_hex.as_str()) {
                    Ok(b) => b,
                    Err(_) => return Incoming::Ignore,
                };
                let peer = match self.key_manager.get_device(msg.sender.as_str()) {
                    Some(d) => d,
                    None => return Incoming::Ignore,
                };
                let valid = match self.dilithium.verify(encrypted.as_slice(), signature.as_slice(), peer.dilithium_verification.as_slice()) {
                    Ok(v) => v,
                    Err(_) => return Incoming::Ignore,
                };
                if !valid {
                    return Incoming::Ignore;
                }
                match self.kyber.decrypt_message(encrypted.as_slice(), self.key_manager.get_kyber_secret()) {
                    Ok(text) => Incoming::Show { peer_name: peer.name.clone(), sender: msg.sender.clone(), text },
                    Err(_) => Incoming::Ignore,
                }
            },
            MessageType::DeviceList => {
                let payload = match &msg.payload {
                    Some(p) => p,
                    None => return Incoming::Ignore,
                };
                let raw = match hex_decode(payload.as_str()) {
                    Ok(b) => b,
                    Err(_) => return Incoming::Ignore,
                };
                match string_from_utf8(raw) {
                    Ok(json) => Incoming::DeviceList(json),
                    Err(_) => Incoming::Ignore,
                }
            },
            _ => Incoming::Ignore,
        }
    }
}

/// A private message sealed for a device's Kyber public key and signed by a peer it knows
/// is shown on that device as exactly that message from that peer, when the device's secret
/// key decapsulates for that public key and the signature verifies under the key the device
/// holds for the peer.
pub proof fn lemma_direct_message_is_shown(
    km: KeyManagerView,
    public_key: Seq<u8>,
    sender: Seq<char>,
    message: Seq<char>,
    data: Seq<u8>,
    sig: Seq<u8>,
)
    requires
        sealed_under(data, message, public_key),
        decapsulates_for(public_key, km.kyber_secret),
        km.devices.contains_key(sender),
        ml_dsa_44_verifies(km.devices[sender].dilithium_verification, sig, data),
    ensures
        incoming_of(
            km,
            MessageType::Text,
            sender,
            Some(crate::hexcodec::hex_encoding(data)),
            Some(crate::hexcodec::hex_encoding(sig)),
        ) == IncomingView::Show(km.devices[sender].name, sender, message),
{
    crate::hexcodec::lemma_hex_round_trip(data);
    crate::hexcodec::lemma_hex_round_trip(sig);
    crate::crypto::kyber::lemma_sealed_opens(data, message, public_key, km.kyber_secret);
}

} // verus!
