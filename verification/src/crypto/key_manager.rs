//! An entity's own key pairs and the public keys of the devices it knows.
use vstd::prelude::*;
use crate::bytes::copy_bytes;
use crate::crypto::dilithium::{
    is_ml_dsa_44_keypair, keypair_public_key, ml_dsa_keypair_accepted, DilithiumSignature,
    SignatureError, ML_DSA_44_PUBLIC_KEY_BYTES,
};
use crate::crypto::kyber::{
    embedded_public_key, KemError, KyberKem, KYBER_PUBLIC_KEY_BYTES, KYBER_SECRET_KEY_BYTES,
};
use crate::hexcodec::{hex_encode, hex_encoding};
use crate::text::str_eq;

verus! {

/// What is known of a peer device.
#[derive(Debug, Clone)]
pub struct DeviceInfo {
    pub kyber_public: Vec<u8>,
    pub dilithium_verification: Vec<u8>,
    pub connected: bool,
    pub name: String,
}

/// The abstract value of a [`DeviceInfo`].
pub struct DeviceView {
    pub kyber_public: Seq<u8>,
    pub dilithium_verification: Seq<u8>,
    pub connected: bool,
    pub name: Seq<char>,
}

impl View for DeviceInfo {
    type V = DeviceView;

    open spec fn view(&self) -> DeviceView {
        DeviceView {
            kyber_public: self.kyber_public@,
            dilithium_verification: self.dilithium_verification@,
            connected: self.connected,
            name: self.name@,
        }
    }
}

impl DeviceInfo {
    /// A copy with the same contents.
    pub fn duplicate(&self) -> (r: DeviceInfo)
        ensures
            r@ == self@,
    {
        DeviceInfo {
            kyber_public: copy_bytes(self.kyber_public.as_slice()),
            dilithium_verification: copy_bytes(self.dilithium_verification.as_slice()),
            connected: self.connected,
            name: self.name.clone(),
        }
    }
}

/// An entity's key material and known devices, as it is stored.
#[derive(Debug, Clone)]
pub struct KeyStore {
    pub kyber_public: Vec<u8>,
    pub kyber_secret: Vec<u8>,
    pub dilithium_signing: Vec<u8>,
    pub dilithium_verification: Vec<u8>,
    pub devices: Vec<(String, DeviceInfo)>,
}

/// A device entry seen abstractly.
pub open spec fn entry_view(e: (String, DeviceInfo)) -> (Seq<char>, DeviceView) {
    (e.0@, e.1@)
}

/// Device entries seen abstractly.
pub open spec fn entries_view(s: Seq<(String, DeviceInfo)>) -> Seq<(Seq<char>, DeviceView)> {
    s.map_values(|e: (String, DeviceInfo)| entry_view(e))
}

/// No device id occurs twice.
pub open spec fn unique_ids(s: Seq<(Seq<char>, DeviceView)>) -> bool {
    forall|i: int, j: int| 0 <= i < j < s.len() ==> #[trigger] s[i].0 != #[trigger] s[j].0
}

/// The map from device id to device that a list of entries gives, a later entry for an id
/// replacing an earlier one.
pub open spec fn entries_map(s: Seq<(Seq<char>, DeviceView)>) -> Map<Seq<char>, DeviceView>
    decreases s.len(),
{
    if s.len() == 0 {
        Map::empty()
    } else {
        entries_map(s.drop_last()).insert(s.last().0, s.last().1)
    }
}

/// In a list with distinct ids, the map holds exactly the listed ids, with their devices.
pub proof fn lemma_entries_map(s: Seq<(Seq<char>, DeviceView)>)
    requires
        unique_ids(s),
    ensures
        entries_map(s).dom().finite(),
        entries_map(s).dom().len() == s.len(),
        forall|k: Seq<char>| entries_map(s).contains_key(k) <==> exists|i: int| 0 <= i < s.len() && #[trigger] s[i].0 == k,
        forall|i: int| 0 <= i < s.len() ==> entries_map(s)[#[trigger] s[i].0] == s[i].1,
    decreases s.len(),
{
    if s.len() > 0 {
        let p = s.drop_last();
        assert(unique_ids(p));
        lemma_entries_map(p);
        assert(!entries_map(p).contains_key(s.last().0)) by {
            if entries_map(p).contains_key(s.last().0) {
                let i = choose|i: int| 0 <= i < p.len() && #[trigger] p[i].0 == s.last().0;
                assert(s[i].0 == s[s.len() - 1].0);
            }
        }
        assert forall|k: Seq<char>| entries_map(s).contains_key(k) <==> exists|i: int| 0 <= i < s.len() && #[trigger] s[i].0 == k by {
            if entries_map(s).contains_key(k) && k != s.last().0 {
                let i = choose|i: int| 0 <= i < p.len() && #[trigger] p[i].0 == k;
                assert(s[i].0 == k);
            }
            if exists|i: int| 0 <= i < s.len() && #[trigger] s[i].0 == k {
                let i = choose|i: int| 0 <= i < s.len() && #[trigger] s[i].0 == k;
                if i < s.len() - 1 {
                    assert(p[i].0 == k);
                }
            }
        }
        assert forall|i: int| 0 <= i < s.len() implies entries_map(s)[#[trigger] s[i].0] == s[i].1 by {
            if i < s.len() - 1 {
                assert(p[i] == s[i]);
                assert(s[i].0 != s.last().0);
            }
        }
    }
}

proof fn lemma_entries_remove(s: Seq<(Seq<char>, DeviceView)>, i: int)
    requires
        unique_ids(s),
        0 <= i < s.len(),
    ensures
        unique_ids(s.remove(i)),
        entries_map(s.remove(i)) == entries_map(s).remove(s[i].0),
{
    let t = s.remove(i);
    assert(unique_ids(t)) by {
        assert forall|a: int, b: int| 0 <= a < b < t.len() implies #[trigger] t[a].0 != #[trigger] t[b].0 by {
            let a2 = if a < i { a } else { a + 1 };
            let b2 = if b < i { b } else { b + 1 };
            assert(t[a] == s[a2]);
            assert(t[b] == s[b2]);
        }
    }
    lemma_entries_map(s);
    lemma_entries_map(t);
    assert forall|k: Seq<char>| #[trigger] entries_map(t).contains_key(k) <==> entries_map(s).remove(s[i].0).contains_key(k) by {
        if entries_map(t).contains_key(k) {
            let j = choose|j: int| 0 <= j < t.len() && #[trigger] t[j].0 == k;
            let j2 = if j < i { j } else { j + 1 };
            assert(t[j] == s[j2]);
            assert(s[j2].0 == k);
        }
        if entries_map(s).remove(s[i].0).contains_key(k) {
            let j = choose|j: int| 0 <= j < s.len() && #[trigger] s[j].0 == k;
            assert(j != i);
            let j2 = if j < i { j } else { j - 1 };
            assert(t[j2] == s[j]);
            assert(t[j2].0 == k);
        }
    }
    assert forall|k: Seq<char>| #[trigger] entries_map(t).contains_key(k) implies entries_map(t)[k] == entries_map(s).remove(s[i].0)[k] by {
        let j = choose|j: int| 0 <= j < t.len() && #[trigger] t[j].0 == k;
        let j2 = if j < i { j } else { j + 1 };
        assert(t[j] == s[j2]);
        assert(entries_map(t)[t[j].0] == t[j].1);
        assert(entries_map(s)[s[j2].0] == s[j2].1);
    }
    assert(entries_map(t) =~= entries_map(s).remove(s[i].0));
}

proof fn lemma_entries_push(s: Seq<(Seq<char>, DeviceView)>, e: (Seq<char>, DeviceView))
    requires
        unique_ids(s),
        !entries_map(s).contains_key(e.0),
    ensures
        unique_ids(s.push(e)),
        entries_map(s.push(e)) == entries_map(s).insert(e.0, e.1),
{
    lemma_entries_map(s);
    let t = s.push(e);
    assert(t.drop_last() =~= s);
    assert forall|a: int, b: int| 0 <= a < b < t.len() implies #[trigger] t[a].0 != #[trigger] t[b].0 by {
        if b == s.len() {
            assert(t[a] == s[a]);
            assert(entries_map(s).contains_key(s[a].0));
        } else {
            assert(t[a] == s[a]);
            assert(t[b] == s[b]);
        }
    }
}

/// The abstract value of a [`KeyManager`].
pub struct KeyManagerView {
    pub entity_name: Seq<char>,
    pub kyber_public: Seq<u8>,
    pub kyber_secret: Seq<u8>,
    pub dilithium_signing: Seq<u8>,
    pub dilithium_verification: Seq<u8>,
    pub devices: Map<Seq<char>, DeviceView>,
}

/// Why fresh keys could not be made.
#[derive(Debug, Clone, Copy, PartialEq, Eq, Structural)]
pub enum KeyError {
    /// The Kyber key pair could not be generated.
    Kem(KemError),
    /// The ML-DSA key pair could not be generated.
    Signature(SignatureError),
}

/// An error that generating keys ends in: the Kyber or the ML-DSA key-pair generation failed.
pub open spec fn key_generation_error(e: KeyError) -> bool {
    ||| e == KeyError::Kem(KemError::KeypairGenerationFailed)
    ||| e matches KeyError::Signature(SignatureError::KeypairGenerationFailed(_))
}

/// Own keys as key generation leaves them: a Kyber-1024 pair whose secret key carries the
/// public key, and a loadable ML-DSA-44 key pair with its public key.
pub open spec fn fresh_keys(v: KeyManagerView) -> bool {
    &&& v.kyber_public.len() == KYBER_PUBLIC_KEY_BYTES
    &&& v.kyber_secret.len() == KYBER_SECRET_KEY_BYTES
    &&& embedded_public_key(v.kyber_secret) == v.kyber_public
    &&& is_ml_dsa_44_keypair(v.dilithium_signing)
    &&& ml_dsa_keypair_accepted(v.dilithium_signing)
    &&& v.dilithium_verification.len() == ML_DSA_44_PUBLIC_KEY_BYTES
    &&& keypair_public_key(v.dilithium_signing) == v.dilithium_verification
}

/// An entity's own keys and the keys of the devices it knows.
pub struct KeyManager {
    entity_name: String,
    kyber: KyberKem,
    dilithium: DilithiumSignature,
    keystore: KeyStore,
}

impl View for KeyManager {
    type V = KeyManagerView;

    closed spec fn view(&self) -> KeyManagerView {
        KeyManagerView {
            entity_name: self.entity_name@,
            kyber_public: self.keystore.kyber_public@,
            kyber_secret: self.keystore.kyber_secret@,
            dilithium_signing: self.keystore.dilithium_signing@,
            dilithium_verification: self.keystore.dilithium_verification@,
            devices: entries_map(entries_view(self.keystore.devices@)),
        }
    }
}

impl KeyManager {
    /// No device id is stored twice. Every key manager keeps this.
    #[verifier::type_invariant]
    pub closed spec fn wf(&self) -> bool {
        unique_ids(entries_view(self.keystore.devices@))
    }

    /// A key manager for an entity, with no keys and no devices yet.
    pub fn new(entity_name: &str) -> (r: Self)
        ensures
            r@.entity_name == entity_name@,
            r@.kyber_public.len() == 0,
            r@.kyber_secret.len() == 0,
            r@.dilithium_signing.len() == 0,
            r@.dilithium_verification.len() == 0,
            r@.devices == Map::<Seq<char>, DeviceView>::empty(),
    {
        let r = KeyManager {
            entity_name: entity_name.to_owned(),
            kyber: KyberKem::new(),
            dilithium: DilithiumSignature::new(),
            keystore: KeyStore {
                kyber_public: Vec::new(),
                kyber_secret: Vec::new(),
                dilithium_signing: Vec::new(),
                dilithium_verification: Vec::new(),
                devices: Vec::new(),
            },
        };
        assert(entries_view(r.keystore.devices@) =~= Seq::<(Seq<char>, DeviceView)>::empty());
        r
    }

    /// Replaces the own keys with fresh Kyber and ML-DSA key pairs; on failure nothing changes.
    pub fn generate_keys(&mut self) -> (r: Result<(), KeyError>)
        ensures
            final(self)@.entity_name == old(self)@.entity_name,
            final(self)@.devices == old(self)@.devices,
            r is Err ==> final(self)@ == old(self)@,
            r matches Err(e) ==> key_generation_error(e),
            r is Ok ==> fresh_keys(final(self)@),
    {
        proof { use_type_invariant(&*self); }
        let (kyber_pub, kyber_sec) = match self.kyber.generate_keypair() {
            Ok(pair) => pair,
            Err(e) => return Err(KeyError::Kem(e)),
        };
        let (signing, verification) = match self.dilithium.generate_keypair() {
            Ok(pair) => pair,
            Err(e) => return Err(KeyError::Signature(e)),
        };
        self.keystore.kyber_public = kyber_pub;
        self.keystore.kyber_secret = kyber_sec;
        self.keystore.dilithium_signing = signing;
        self.keystore.dilithium_verification = verification;
        Ok(())
    }

    /// Where the keys of this entity are stored: `keys/<entity>.json`.
    pub fn get_keys_path(&self) -> (r: String)
        ensures
            r@ == "keys/"@ + self@.entity_name + ".json"@,
    {
        let mut path = String::from_str("keys/");
        path.append(self.entity_name.as_str());
        path.append(".json");
        path
    }

    /// The stored form of the keys and devices.
    pub fn keystore(&self) -> (r: &KeyStore)
        ensures
            r.kyber_public@ == self@.kyber_public,
            r.kyber_secret@ == self@.kyber_secret,
            r.dilithium_signing@ == self@.dilithium_signing,
            r.dilithium_verification@ == self@.dilithium_verification,
            entries_map(entries_view(r.devices@)) == self@.devices,
    {
        &self.keystore
    }

    /// Replaces keys and devices with a stored form; of two entries for one device the
    /// later one is kept.
    pub fn restore(&mut self, store: KeyStore)
        ensures
            final(self)@.entity_name == old(self)@.entity_name,
            final(self)@.kyber_public == store.kyber_public@,
            final(self)@.kyber_secret == store.kyber_secret@,
            final(self)@.dilithium_signing == store.dilithium_signing@,
            final(self)@.dilithium_verification == store.dilithium_verification@,
            final(self)@.devices == entries_map(entries_view(store.devices@)),
    {
        let KeyStore { kyber_public, kyber_secret, dilithium_signing, dilithium_verification, devices } = store;
        let mut list: Vec<(String, DeviceInfo)> = Vec::new();
        assert(entries_view(list@) =~= Seq::<(Seq<char>, DeviceView)>::empty());
        let ghost all = entries_view(devices@);
        let mut i: usize = 0;
        while i < devices.len()
            invariant
                i <= devices@.len(),
                all == entries_view(devices@),
                unique_ids(entries_view(list@)),
                entries_map(entries_view(list@)) == entries_map(all.take(i as int)),
            decreases devices@.len() - i,
        {
            let (id, info) = &devices[i];
            insert_entry(&mut list, id.as_str(), info.duplicate());
            assert(all.take(i + 1).drop_last() =~= all.take(i as int));
            i = i + 1;
        }
        assert(all.take(devices@.len() as int) =~= all);
        self.keystore = KeyStore {
            kyber_public,
            kyber_secret,
            dilithium_signing,
            dilithium_verification,
            devices: list,
        };
    }

    /// Records a device as connected with its public keys, replacing what was known of it.
    pub fn add_device(&mut self, device_id: &str, name: &str, kyber_public: Vec<u8>, dilithium_verification: Vec<u8>)
        ensures
            final(self)@ == (KeyManagerView {
                devices: old(self)@.devices.insert(
                    device_id@,
                    DeviceView {
                        kyber_public: kyber_public@,
                        dilithium_verification: dilithium_verification@,
                        connected: true,
                        name: name@,
                    },
                ),
                ..old(self)@
            }),
    {
        proof { use_type_invariant(&*self); }
        let info = DeviceInfo { kyber_public, dilithium_verification, connected: true, name: name.to_owned() };
        let mut list: Vec<(String, DeviceInfo)> = Vec::new();
        std::mem::swap(&mut list, &mut self.keystore.devices);
        insert_entry(&mut list, device_id, info);
        self.keystore.devices = list;
    }

    /// Forgets a device.
    pub fn remove_device(&mut self, device_id: &str)
        ensures
            final(self)@ == (KeyManagerView { devices: old(self)@.devices.remove(device_id@), ..old(self)@ }),
    {
        proof { use_type_invariant(&*self); }
        let mut list: Vec<(String, DeviceInfo)> = Vec::new();
        std::mem::swap(&mut list, &mut self.keystore.devices);
        let ghost before = entries_view(list@);
        match find_entry(&list, device_id) {
            Some(i) => {
                proof { lemma_entries_remove(before, i as int); }
                list.remove(i);
                assert(entries_view(list@) =~= before.remove(i as int));
            },
            None => {
                assert(entries_map(before) =~= entries_map(before).remove(device_id@));
            },
        }
        self.keystore.devices = list;
    }

    /// What is known of a device.
    pub fn get_device(&self, device_id: &str) -> (r: Option<&DeviceInfo>)
        ensures
            match r {
                Some(d) => self@.devices.contains_key(device_id@) && self@.devices[device_id@] == d@,
                None => !self@.devices.contains_key(device_id@),
            },
    {
        proof { use_type_invariant(self); }
        match find_entry(&self.keystore.devices, device_id) {
            Some(i) => {
                proof {
                    let s = entries_view(self.keystore.devices@);
                    lemma_entries_map(s);
                    assert(s[i as int].0 == device_id@);
                }
                Some(&self.keystore.devices[i].1)
            },
            None => None,
        }
    }

    /// Every known device with its id, each once.
    pub fn get_all_devices(&self) -> (r: Vec<(String, DeviceInfo)>)
        ensures
            unique_ids(entries_view(r@)),
            entries_map(entries_view(r@)) == self@.devices,
            r@.len() == self@.devices.len(),
    {
        proof {
            use_type_invariant(self);
            lemma_entries_map(entries_view(self.keystore.devices@));
        }
        let mut out: Vec<(String, DeviceInfo)> = Vec::new();
        let mut i: usize = 0;
        while i < self.keystore.devices.len()
            invariant
                i <= self.keystore.devices@.len(),
                out@.len() == i,
                entries_view(out@) == entries_view(self.keystore.devices@).take(i as int),
            decreases self.keystore.devices@.len() - i,
        {
            let entry = &self.keystore.devices[i];
            let id = entry.0.clone();
            let info = entry.1.duplicate();
            assert(id@ == entry.0@);
            out.push((id, info));
            assert(entry_view(out@[i as int]) == entry_view(self.keystore.devices@[i as int]));
            assert(entries_view(out@) =~= entries_view(self.keystore.devices@).take(i + 1));
            i = i + 1;
        }
        assert(entries_view(out@) =~= entries_view(self.keystore.devices@));
        out
    }

    /// The own Kyber public key.
    pub fn get_kyber_public(&self) -> (r: &[u8])
        ensures
            r@ == self@.kyber_public,
    {
        self.keystore.kyber_public.as_slice()
    }

    /// The own Kyber secret key.
    pub fn get_kyber_secret(&self) -> (r: &[u8])
        ensures
            r@ == self@.kyber_secret,
    {
        self.keystore.kyber_secret.as_slice()
    }

    /// The own ML-DSA signing key.
    pub fn get_dilithium_signing(&self) -> (r: &[u8])
        ensures
            r@ == self@.dilithium_signing,
    {
        self.keystore.dilithium_signing.as_slice()
    }

    /// The own ML-DSA verification key.
    pub fn get_dilithium_verification(&self) -> (r: &[u8])
        ensures
            r@ == self@.dilithium_verification,
    {
        self.keystore.dilithium_verification.as_slice()
    }

    /// The own public keys as hex: `kyber` then `dilithium`.
    pub fn get_public_keys_for_exchange(&self) -> (r: Vec<(String, String)>)
        ensures
            r@.len() == 2,
            r@[0].0@ == "kyber"@,
            r@[0].1@ == hex_encoding(self@.kyber_public),
            r@[1].0@ == "dilithium"@,
            r@[1].1@ == hex_encoding(self@.dilithium_verification),
    {
        let mut keys: Vec<(String, String)> = Vec::new();
        keys.push((String::from_str("kyber"), hex_encode(self.keystore.kyber_public.as_slice())));
        keys.push((String::from_str("dilithium"), hex_encode(self.keystore.dilithium_verification.as_slice())));
        keys
    }

    /// How many devices are known.
    pub fn device_count(&self) -> (r: usize)
        ensures
            r == self@.devices.len(),
    {
        proof {
            use_type_invariant(self);
            lemma_entries_map(entries_view(self.keystore.devices@));
        }
        self.keystore.devices.len()
    }
}

fn find_entry(devices: &Vec<(String, DeviceInfo)>, device_id: &str) -> (r: Option<usize>)
    requires
        unique_ids(entries_view(devices@)),
    ensures
        match r {
            Some(i) => i < devices@.len() && devices@[i as int].0@ == device_id@,
            None => !entries_map(entries_view(devices@)).contains_key(device_id@),
        },
{
    proof { lemma_entries_map(entries_view(devices@)); }
    let mut i: usize = 0;
    while i < devices.len()
        invariant
            i <= devices@.len(),
            forall|j: int| 0 <= j < i ==> (#[trigger] devices@[j]).0@ != device_id@,
        decreases devices@.len() - i,
    {
        if str_eq(devices[i].0.as_str(), device_id) {
            return Some(i);
        }
        i = i + 1;
    }
    proof {
        let s = entries_view(devices@);
        if entries_map(s).contains_key(device_id@) {
            let j = choose|j: int| 0 <= j < s.len() && #[trigger] s[j].0 == device_id@;
            assert(devices@[j].0@ == device_id@);
        }
    }
    None
}

fn insert_entry(devices: &mut Vec<(String, DeviceInfo)>, device_id: &str, info: DeviceInfo)
    requires
        unique_ids(entries_view(old(devices)@)),
    ensures
        unique_ids(entries_view(final(devices)@)),
        entries_map(entries_view(final(devices)@)) == entries_map(entries_view(old(devices)@)).insert(device_id@, info@),
{
    let ghost before = entries_view(devices@);
    match find_entry(devices, device_id) {
        Some(i) => {
            proof { lemma_entries_remove(before, i as int); }
            devices.remove(i);
            assert(entries_view(devices@) =~= before.remove(i as int));
        },
        None => {},
    }
    let ghost mid = entries_view(devices@);
    proof {
        lemma_entries_map(mid);
        assert(!entries_map(mid).contains_key(device_id@));
        lemma_entries_push(mid, (device_id@, info@));
    }
    devices.push((device_id.to_owned(), info));
    assert(entries_view(devices@) =~= mid.push((device_id@, info@)));
    assert(entries_map(entries_view(devices@)) =~= entries_map(before).insert(device_id@, info@));
}

impl Clone for KeyManager {
    /// A key manager with the same name, keys and devices.
    fn clone(&self) -> (r: Self)
        ensures
            r@ == self@,
    {
        KeyManager {
            entity_name: self.entity_name.clone(),
            kyber: self.kyber,
            dilithium: self.dilithium,
            keystore: KeyStore {
                kyber_public: copy_bytes(self.keystore.kyber_public.as_slice()),
                kyber_secret: copy_bytes(self.keystore.kyber_secret.as_slice()),
                dilithium_signing: copy_bytes(self.keystore.dilithium_signing.as_slice()),
                dilithium_verification: copy_bytes(self.keystore.dilithium_verification.as_slice()),
                devices: self.get_all_devices(),
            },
        }
    }
}

/// After a device is recorded, looking it up gives what was recorded, every other device
/// is as before, and the count grows by one exactly when the id was new.
pub proof fn lemma_recorded_device_is_found(
    before: Map<Seq<char>, DeviceView>,
    after: Map<Seq<char>, DeviceView>,
    device_id: Seq<char>,
    info: DeviceView,
)
    requires
        before.dom().finite(),
        after == before.insert(device_id, info),
    ensures
        after.contains_key(device_id),
        after[device_id] == info,
        forall|k: Seq<char>| k != device_id ==> (#[trigger] after.contains_key(k) == before.contains_key(k)),
        forall|k: Seq<char>| k != device_id && before.contains_key(k) ==> #[trigger] after[k] == before[k],
        after.len() == if before.contains_key(device_id) { before.len() } else { before.len() + 1 },
{
}

/// After a device is forgotten, looking it up finds nothing, every other device is as
/// before, and the count drops by one exactly when the id was known.
pub proof fn lemma_forgotten_device_is_gone(
    before: Map<Seq<char>, DeviceView>,
    after: Map<Seq<char>, DeviceView>,
    device_id: Seq<char>,
)
    requires
        before.dom().finite(),
        after == before.remove(device_id),
    ensures
        !after.contains_key(device_id),
        forall|k: Seq<char>| k != device_id ==> (#[trigger] after.contains_key(k) == before.contains_key(k)),
        forall|k: Seq<char>| k != device_id && before.contains_key(k) ==> #[trigger] after[k] == before[k],
        after.len() == if before.contains_key(device_id) { before.len() - 1 } else { before.len() as int },
{
}

/// The devices of a well-formed key manager form a finite map.
pub proof fn lemma_devices_finite(km: &KeyManager)
    requires
        km.wf(),
    ensures
        km@.devices.dom().finite(),
{
    lemma_entries_map(entries_view(km.keystore.devices@));
}

} // verus!
