//! Kyber-1024 key encapsulation combined with AES-256-GCM message sealing.
//!
//! A sealed message is the Kyber ciphertext, then the 12-byte AES-GCM nonce, then the
//! AES-GCM ciphertext of the message's UTF-8 bytes under the SHA-256 hash of the
//! encapsulated shared secret.
use vstd::prelude::*;
use vstd::utf8::{decode_utf8, encode_utf8, valid_utf8};
use crate::bytes::{append_bytes, copy_bytes};
use crate::text::{decimal, decimal_text, string_from_utf8, utf8_error};
use aes_gcm::aead::{Aead, KeyInit};
use sha2::Digest;

verus! {

broadcast use vstd::utf8::group_utf8_lib;

/// Size in bytes of a Kyber-1024 public key.
pub const KYBER_PUBLIC_KEY_BYTES: usize = 1568;

/// Size in bytes of a Kyber-1024 secret key.
pub const KYBER_SECRET_KEY_BYTES: usize = 3168;

/// Size in bytes of a Kyber-1024 ciphertext.
pub const KYBER_CIPHERTEXT_BYTES: usize = 1568;

/// Size in bytes of the secret that Kyber encapsulates.
pub const KYBER_SHARED_SECRET_BYTES: usize = 32;

/// Offset of the public key inside a Kyber-1024 secret key.
pub const KYBER_SECRET_KEY_PUBLIC_OFFSET: usize = 1536;

/// Size in bytes of the AES-GCM nonce carried in a sealed message.
pub const NONCE_BYTES: usize = 12;

/// Largest plaintext, in bytes, that AES-GCM accepts.
pub const AES_GCM_MAX_PLAINTEXT: u64 = 0x10_0000_0000;

#[verifier::external_type_specification]
#[verifier::external_body]
pub struct ExKyberError(pqc_kyber::KyberError);

#[verifier::external_type_specification]
#[verifier::external_body]
pub struct ExAeadError(aes_gcm::Error);

/// Why a key-encapsulation or sealing operation failed.
#[derive(Debug, Clone, Copy, PartialEq, Eq, Structural)]
pub enum KemError {
    /// The random key-pair generation failed.
    KeypairGenerationFailed,
    /// The public key does not have the Kyber-1024 size.
    InvalidPublicKeySize,
    /// The random encapsulation failed.
    EncapsulationFailed,
    /// The ciphertext does not have the Kyber-1024 size.
    InvalidCiphertextSize,
    /// The secret key does not have the Kyber-1024 size.
    InvalidSecretKeySize,
    /// AES-GCM refused to encrypt the message.
    EncryptionFailed,
    /// The sealed data is shorter than a Kyber ciphertext and a nonce.
    DataTooShort,
    /// AES-GCM did not authenticate the sealed data.
    DecryptionFailed,
    /// The decrypted bytes are not UTF-8: they are valid up to `valid_up_to`, then come
    /// `error_len` bytes that cannot start a character, or the end comes inside one (`None`).
    InvalidUtf8 { valid_up_to: usize, error_len: Option<usize> },
}

/// The text of a key-encapsulation or sealing error.
pub open spec fn kem_error_text(e: KemError) -> Seq<char> {
    match e {
        KemError::KeypairGenerationFailed => "Keypair generation failed"@,
        KemError::InvalidPublicKeySize => "Invalid public key size"@,
        KemError::EncapsulationFailed => "Encapsulation failed"@,
        KemError::InvalidCiphertextSize => "Invalid ciphertext size"@,
        KemError::InvalidSecretKeySize => "Invalid secret key size"@,
        KemError::EncryptionFailed => "Encryption failed: Error"@,
        KemError::DataTooShort => "Encrypted data too short"@,
        KemError::DecryptionFailed => "Decryption failed: Error"@,
        KemError::InvalidUtf8 { valid_up_to, error_len } => match error_len {
            Some(n) => "invalid utf-8 sequence of "@ + decimal(n as nat) + " bytes from index "@ + decimal(valid_up_to as nat),
            None => "incomplete utf-8 byte sequence from index "@ + decimal(valid_up_to as nat),
        },
    }
}

impl KemError {
    /// The error's text.
    pub fn message(&self) -> (r: String)
        ensures
            r@ == kem_error_text(*self),
    {
        match self {
            KemError::KeypairGenerationFailed => String::from_str("Keypair generation failed"),
            KemError::InvalidPublicKeySize => String::from_str("Invalid public key size"),
            KemError::EncapsulationFailed => String::from_str("Encapsulation failed"),
            KemError::InvalidCiphertextSize => String::from_str("Invalid ciphertext size"),
            KemError::InvalidSecretKeySize => String::from_str("Invalid secret key size"),
            KemError::EncryptionFailed => String::from_str("Encryption failed: Error"),
            KemError::DataTooShort => String::from_str("Encrypted data too short"),
            KemError::DecryptionFailed => String::from_str("Decryption failed: Error"),
            KemError::InvalidUtf8 { valid_up_to, error_len } => match error_len {
                Some(n) => {
                    let mut text = String::from_str("invalid utf-8 sequence of ");
                    text.append(decimal_text(*n).as_str());
                    text.append(" bytes from index ");
                    text.append(decimal_text(*valid_up_to).as_str());
                    text
                },
                None => {
                    let mut text = String::from_str("incomplete utf-8 byte sequence from index ");
                    text.append(decimal_text(*valid_up_to).as_str());
                    text
                },
            },
        }
    }
}

/// The shared secret that Kyber-1024 decapsulation derives from a ciphertext and a
/// secret key of the right sizes (the result of `pqc_kyber::decapsulate`).
pub uninterp spec fn kyber_decapsulation(ciphertext: Seq<u8>, secret_key: Seq<u8>) -> Seq<u8>;

/// Whether `pqc_kyber::encapsulate` can give this ciphertext and shared secret for this
/// public key: the pair is an encapsulation made for that key.
pub uninterp spec fn kyber_encapsulation(public_key: Seq<u8>, ciphertext: Seq<u8>, shared_secret: Seq<u8>) -> bool;

/// The SHA-256 digest of a byte string (the result of `sha2::Sha256`).
pub uninterp spec fn sha256(data: Seq<u8>) -> Seq<u8>;

/// The AES-256-GCM ciphertext-and-tag of a plaintext under a key and nonce, with no
/// associated data (the result of `aes_gcm::Aes256Gcm::encrypt`).
pub uninterp spec fn aes256gcm_seal(key: Seq<u8>, nonce: Seq<u8>, plaintext: Seq<u8>) -> Seq<u8>;

/// The plaintext that AES-256-GCM recovers from a ciphertext-and-tag under a key and
/// nonce, with no associated data, or `None` when the tag does not authenticate (the
/// result of `aes_gcm::Aes256Gcm::decrypt`).
pub uninterp spec fn aes256gcm_open(key: Seq<u8>, nonce: Seq<u8>, ciphertext: Seq<u8>) -> Option<Seq<u8>>;

/// The public key that a Kyber-1024 secret key carries.
pub open spec fn embedded_public_key(secret_key: Seq<u8>) -> Seq<u8> {
    secret_key.subrange(
        KYBER_SECRET_KEY_PUBLIC_OFFSET as int,
        KYBER_SECRET_KEY_PUBLIC_OFFSET + KYBER_PUBLIC_KEY_BYTES,
    )
}

/// The AES key under which a message is sealed for a shared secret.
pub open spec fn message_key(shared_secret: Seq<u8>) -> Seq<u8> {
    sha256(shared_secret)
}

/// The sealed form of a message: Kyber ciphertext, nonce, then the AES-GCM ciphertext of
/// the message's UTF-8 bytes.
pub open spec fn sealed_message(
    message: Seq<char>,
    kem_ciphertext: Seq<u8>,
    shared_secret: Seq<u8>,
    nonce: Seq<u8>,
) -> Seq<u8> {
    kem_ciphertext + nonce + aes256gcm_seal(message_key(shared_secret), nonce, encode_utf8(message))
}

/// What opening sealed data with a secret key gives: the checks on sizes come first, then
/// AES-GCM authentication under the key derived from the decapsulated secret, then UTF-8.
pub open spec fn opened_message(data: Seq<u8>, secret_key: Seq<u8>) -> Result<Seq<char>, KemError> {
    let ct_end = KYBER_CIPHERTEXT_BYTES as int;
    let nonce_end = ct_end + NONCE_BYTES;
    if data.len() < nonce_end {
        Err(KemError::DataTooShort)
    } else if secret_key.len() != KYBER_SECRET_KEY_BYTES {
        Err(KemError::InvalidSecretKeySize)
    } else {
        let shared = kyber_decapsulation(data.subrange(0, ct_end), secret_key);
        match aes256gcm_open(
            message_key(shared),
            data.subrange(ct_end, nonce_end),
            data.subrange(nonce_end, data.len() as int),
        ) {
            None => Err(KemError::DecryptionFailed),
            Some(plain) => if valid_utf8(plain) {
                Ok(decode_utf8(plain))
            } else {
                Err(KemError::InvalidUtf8 { valid_up_to: utf8_error(plain).0, error_len: utf8_error(plain).1 })
            },
        }
    }
}

/// Data sealed around a Kyber ciphertext and shared secret opens to `message` under every
/// secret key from which that ciphertext decapsulates to that secret.
pub open spec fn opens_to(data: Seq<u8>, message: Seq<char>, kem_ciphertext: Seq<u8>, shared_secret: Seq<u8>) -> bool {
    forall|secret_key: Seq<u8>|
        secret_key.len() == KYBER_SECRET_KEY_BYTES
            && #[trigger] kyber_decapsulation(kem_ciphertext, secret_key) == shared_secret
            ==> opened_message(data, secret_key) == Ok::<Seq<char>, KemError>(message)
}

/// Data holding `message` sealed for `public_key`: a Kyber-1024 encapsulation made for that
/// key, a nonce, and the AES-GCM ciphertext under the encapsulated secret; it opens to the
/// message under every secret key that decapsulates that ciphertext to that secret.
pub open spec fn sealed_under(data: Seq<u8>, message: Seq<char>, public_key: Seq<u8>) -> bool {
    &&& public_key.len() == KYBER_PUBLIC_KEY_BYTES
    &&& exists|kem_ciphertext: Seq<u8>, shared_secret: Seq<u8>, nonce: Seq<u8>| {
        &&& kem_ciphertext.len() == KYBER_CIPHERTEXT_BYTES
        &&& shared_secret.len() == KYBER_SHARED_SECRET_BYTES
        &&& nonce.len() == NONCE_BYTES
        &&& kyber_encapsulation(public_key, kem_ciphertext, shared_secret)
        &&& data == #[trigger] sealed_message(message, kem_ciphertext, shared_secret, nonce)
        &&& opens_to(data, message, kem_ciphertext, shared_secret)
    }
}

/// A secret key that recovers the secret of every encapsulation made for `public_key`.
/// Kyber-1024 key pairs do so except with negligible probability; that is not claimed here.
pub open spec fn decapsulates_for(public_key: Seq<u8>, secret_key: Seq<u8>) -> bool {
    &&& secret_key.len() == KYBER_SECRET_KEY_BYTES
    &&& forall|kem_ciphertext: Seq<u8>, shared_secret: Seq<u8>|
        #[trigger] kyber_encapsulation(public_key, kem_ciphertext, shared_secret)
            ==> kyber_decapsulation(kem_ciphertext, secret_key) == shared_secret
}

/// A message sealed for a public key opens, with any secret key that decapsulates for that
/// public key, to exactly that message.
pub proof fn lemma_sealed_opens(data: Seq<u8>, message: Seq<char>, public_key: Seq<u8>, secret_key: Seq<u8>)
    requires
        sealed_under(data, message, public_key),
        decapsulates_for(public_key, secret_key),
    ensures
        opened_message(data, secret_key) == Ok::<Seq<char>, KemError>(message),
{
    let (ct, ss, nonce) = choose|kem_ciphertext: Seq<u8>, shared_secret: Seq<u8>, nonce: Seq<u8>| {
        &&& kem_ciphertext.len() == KYBER_CIPHERTEXT_BYTES
        &&& shared_secret.len() == KYBER_SHARED_SECRET_BYTES
        &&& nonce.len() == NONCE_BYTES
        &&& kyber_encapsulation(public_key, kem_ciphertext, shared_secret)
        &&& data == #[trigger] sealed_message(message, kem_ciphertext, shared_secret, nonce)
        &&& opens_to(data, message, kem_ciphertext, shared_secret)
    };
    assert(kyber_decapsulation(ct, secret_key) == ss);
}

/// A byte-vector result seen abstractly.
pub open spec fn bytes_result(r: Result<Vec<u8>, KemError>) -> Result<Seq<u8>, KemError> {
    match r {
        Ok(c) => Ok(c@),
        Err(e) => Err(e),
    }
}

/// What sealing `message` for `public_key` may give: sealed data of the stated length, or
/// the size error for a key of the wrong size, or AES-GCM's refusal of an over-long message.
pub open spec fn sealing_outcome(r: Result<Seq<u8>, KemError>, message: Seq<char>, public_key: Seq<u8>) -> bool {
    match r {
        Ok(c) => {
            &&& sealed_under(c, message, public_key)
            &&& c.len() == KYBER_CIPHERTEXT_BYTES + NONCE_BYTES + encode_utf8(message).len() + 16
        },
        Err(e) => if public_key.len() != KYBER_PUBLIC_KEY_BYTES {
            e == KemError::InvalidPublicKeySize
        } else {
            e == KemError::EncryptionFailed && encode_utf8(message).len() > AES_GCM_MAX_PLAINTEXT
        },
    }
}

/// Sealing a message within AES-GCM's limit for a key of the Kyber-1024 size always
/// succeeds, and its result is the message sealed for that key, of the length that the
/// ciphertext, the nonce, the message's bytes and the tag make up.
pub proof fn lemma_sealing_succeeds(r: Result<Seq<u8>, KemError>, message: Seq<char>, public_key: Seq<u8>)
    requires
        sealing_outcome(r, message, public_key),
        public_key.len() == KYBER_PUBLIC_KEY_BYTES,
        encode_utf8(message).len() <= AES_GCM_MAX_PLAINTEXT,
    ensures
        r is Ok,
        r matches Ok(c) ==> sealed_under(c, message, public_key)
            && c.len() == 1568 + 12 + encode_utf8(message).len() + 16,
{
}

/// Sealing fails only for a key that is not of the Kyber-1024 size, with the size error, or
/// for a message over AES-GCM's limit, with the encryption error.
pub proof fn lemma_sealing_fails_only_on_size(r: Result<Seq<u8>, KemError>, message: Seq<char>, public_key: Seq<u8>)
    requires
        sealing_outcome(r, message, public_key),
        r is Err,
    ensures
        (r == Err::<Seq<u8>, KemError>(KemError::InvalidPublicKeySize) && public_key.len() != 1568)
            || (r == Err::<Seq<u8>, KemError>(KemError::EncryptionFailed) && public_key.len() == 1568
                && encode_utf8(message).len() > 0x10_0000_0000),
{
}

/// A fresh Kyber-1024 key pair `(public, secret)`.
///
/// Trusted: `pqc_kyber::keypair` with the thread-local random generator. Its source fills
/// arrays of the Kyber-1024 sizes and copies the public key into the secret key at
/// offset 1536. Its only error comes from the generator's `try_fill_bytes`, which for the
/// thread-local generator (rand's `BlockRng`) always returns `Ok`, so it always succeeds.
/// The keys themselves are random and nothing more is said of them.
#[verifier::external_body]
fn kyber_keypair() -> (r: Result<(Vec<u8>, Vec<u8>), pqc_kyber::KyberError>)
    ensures
        r is Ok,
        r matches Ok((pk, sk)) ==> {
            &&& pk@.len() == KYBER_PUBLIC_KEY_BYTES
            &&& sk@.len() == KYBER_SECRET_KEY_BYTES
            &&& embedded_public_key(sk@) == pk@
        },
{
    match pqc_kyber::keypair(&mut rand::thread_rng()) {
        Ok(keys) => Ok((keys.public.to_vec(), keys.secret.to_vec())),
        Err(e) => Err(e),
    }
}

/// A random Kyber-1024 encapsulation `(ciphertext, shared secret)` for a public key.
///
/// Trusted: `pqc_kyber::encapsulate` with the thread-local random generator; its source
/// returns arrays of the ciphertext and shared-secret sizes. Which secret is encapsulated
/// is random; the pair is one that the crate gives for this public key. That decapsulating
/// with the matching secret key recovers the secret is shown by the crate's example but
/// holds only with overwhelming probability, so it is not stated.
///
/// Its source fails only on a key of the wrong size, which `requires` excludes, or when the
/// generator's `try_fill_bytes` fails, which the thread-local generator never does; so it
/// always succeeds.
#[verifier::external_body]
fn kyber_encapsulate(public_key: &[u8]) -> (r: Result<(Vec<u8>, Vec<u8>), pqc_kyber::KyberError>)
    requires
        public_key@.len() == KYBER_PUBLIC_KEY_BYTES,
    ensures
        r is Ok,
        r matches Ok((ct, ss)) ==> {
            &&& ct@.len() == KYBER_CIPHERTEXT_BYTES
            &&& ss@.len() == KYBER_SHARED_SECRET_BYTES
            &&& kyber_encapsulation(public_key@, ct@, ss@)
        },
{
    match pqc_kyber::encapsulate(public_key, &mut rand::thread_rng()) {
        Ok((ct, ss)) => Ok((ct.to_vec(), ss.to_vec())),
        Err(e) => Err(e),
    }
}

/// Kyber-1024 decapsulation of a ciphertext with a secret key.
///
/// Trusted: `pqc_kyber::decapsulate`. Its source fails only on inputs of the wrong sizes,
/// which `requires` excludes, and always writes a 32-byte secret (implicit rejection).
#[verifier::external_body]
fn kyber_decapsulate(ciphertext: &[u8], secret_key: &[u8]) -> (r: Result<Vec<u8>, pqc_kyber::KyberError>)
    requires
        ciphertext@.len() == KYBER_CIPHERTEXT_BYTES,
        secret_key@.len() == KYBER_SECRET_KEY_BYTES,
    ensures
        r is Ok,
        r matches Ok(ss) ==> ss@ == kyber_decapsulation(ciphertext@, secret_key@)
            && ss@.len() == KYBER_SHARED_SECRET_BYTES,
{
    match pqc_kyber::decapsulate(ciphertext, secret_key) {
        Ok(ss) => Ok(ss.to_vec()),
        Err(e) => Err(e),
    }
}

/// The SHA-256 digest of some bytes.
///
/// Trusted: `sha2::Sha256` (`new`, `update`, `finalize`); the digest has 32 bytes.
#[verifier::external_body]
fn sha256_digest(data: &[u8]) -> (r: Vec<u8>)
    ensures
        r@ == sha256(data@),
        r@.len() == 32,
{
    let mut hasher = sha2::Sha256::new();
    hasher.update(data);
    hasher.finalize().to_vec()
}

/// AES-256-GCM encryption with no associated data.
///
/// Trusted: `aes_gcm::Aes256Gcm::encrypt`. Its source refuses plaintexts longer than
/// 2^36 bytes and otherwise appends the 16-byte tag; the AEAD contract is that decrypting
/// the result with the same key and nonce gives the plaintext back.
#[verifier::external_body]
fn aes256gcm_encrypt(key: &[u8], nonce: &[u8], plaintext: &[u8]) -> (r: Result<Vec<u8>, aes_gcm::Error>)
    requires
        key@.len() == 32,
        nonce@.len() == NONCE_BYTES,
    ensures
        r is Ok <==> plaintext@.len() <= AES_GCM_MAX_PLAINTEXT,
        r matches Ok(c) ==> {
            &&& c@ == aes256gcm_seal(key@, nonce@, plaintext@)
            &&& c@.len() == plaintext@.len() + 16
            &&& aes256gcm_open(key@, nonce@, c@) == Some(plaintext@)
        },
{
    let cipher = aes_gcm::Aes256Gcm::new(aes_gcm::Key::<aes_gcm::Aes256Gcm>::from_slice(key));
    cipher.encrypt(aes_gcm::Nonce::from_slice(nonce), plaintext)
}

/// AES-256-GCM decryption with no associated data.
///
/// Trusted: `aes_gcm::Aes256Gcm::decrypt`; it fails exactly when the data does not
/// authenticate, and the result depends on the key, nonce and data alone.
#[verifier::external_body]
fn aes256gcm_decrypt(key: &[u8], nonce: &[u8], ciphertext: &[u8]) -> (r: Result<Vec<u8>, aes_gcm::Error>)
    requires
        key@.len() == 32,
        nonce@.len() == NONCE_BYTES,
    ensures
        r is Ok <==> aes256gcm_open(key@, nonce@, ciphertext@) is Some,
        r matches Ok(p) ==> aes256gcm_open(key@, nonce@, ciphertext@) == Some(p@),
{
    let cipher = aes_gcm::Aes256Gcm::new(aes_gcm::Key::<aes_gcm::Aes256Gcm>::from_slice(key));
    cipher.decrypt(aes_gcm::Nonce::from_slice(nonce), ciphertext)
}

/// A fresh random nonce.
///
/// Trusted: `rand::Rng::fill` on the thread-local generator; the bytes are random.
#[verifier::external_body]
fn random_nonce() -> (r: Vec<u8>)
    ensures
        r@.len() == NONCE_BYTES,
{
    let mut nonce = [0u8; 12];
    rand::Rng::fill(&mut rand::thread_rng(), &mut nonce);
    nonce.to_vec()
}

/// Seals a message for the holder of the secret key that decapsulates `kem_ciphertext`
/// to `shared_secret`, using the given nonce.
pub fn seal_message(message: &str, kem_ciphertext: &[u8], shared_secret: &[u8], nonce: &[u8]) -> (r: Result<Vec<u8>, KemError>)
    requires
        kem_ciphertext@.len() == KYBER_CIPHERTEXT_BYTES,
        nonce@.len() == NONCE_BYTES,
    ensures
        r is Ok <==> encode_utf8(message@).len() <= AES_GCM_MAX_PLAINTEXT,
        r matches Err(e) ==> e == KemError::EncryptionFailed,
        r matches Ok(c) ==> c@ == sealed_message(message@, kem_ciphertext@, shared_secret@, nonce@),
        r matches Ok(c) ==> c@.len() == kem_ciphertext@.len() + nonce@.len() + encode_utf8(message@).len() + 16,
        r matches Ok(c) ==> opens_to(c@, message@, kem_ciphertext@, shared_secret@),
{
    let key = sha256_digest(shared_secret);
    let plain = message.as_bytes();
    match aes256gcm_encrypt(&key, nonce, plain) {
        Err(_) => Err(KemError::EncryptionFailed),
        Ok(body) => {
            let mut out = copy_bytes(kem_ciphertext);
            append_bytes(&mut out, nonce);
            append_bytes(&mut out, &body);
            proof {
                let c = out@;
                let ct_end = KYBER_CIPHERTEXT_BYTES as int;
                let nonce_end = ct_end + NONCE_BYTES;
                assert(c.subrange(0, ct_end) =~= kem_ciphertext@);
                assert(c.subrange(ct_end, nonce_end) =~= nonce@);
                assert(c.subrange(nonce_end, c.len() as int) =~= body@);
                assert forall|secret_key: Seq<u8>|
                    secret_key.len() == KYBER_SECRET_KEY_BYTES
                        && #[trigger] kyber_decapsulation(kem_ciphertext@, secret_key) == shared_secret@
                    implies opened_message(c, secret_key) == Ok::<Seq<char>, KemError>(message@) by {
                    assert(valid_utf8(encode_utf8(message@)));
                    assert(decode_utf8(encode_utf8(message@)) == message@);
                }
            }
            Ok(out)
        },
    }
}

/// Opens sealed data with a secret key.
pub fn open_message(data: &[u8], secret_key: &[u8]) -> (r: Result<String, KemError>)
    ensures
        match r {
            Ok(s) => opened_message(data@, secret_key@) == Ok::<Seq<char>, KemError>(s@),
            Err(e) => opened_message(data@, secret_key@) == Err::<Seq<char>, KemError>(e),
        },
{
    if data.len() < KYBER_CIPHERTEXT_BYTES + NONCE_BYTES {
        return Err(KemError::DataTooShort);
    }
    if secret_key.len() != KYBER_SECRET_KEY_BYTES {
        return Err(KemError::InvalidSecretKeySize);
    }
    let ct = &data[0..KYBER_CIPHERTEXT_BYTES];
    let nonce = &data[KYBER_CIPHERTEXT_BYTES..KYBER_CIPHERTEXT_BYTES + NONCE_BYTES];
    let body = &data[KYBER_CIPHERTEXT_BYTES + NONCE_BYTES..data.len()];
    let shared = match kyber_decapsulate(ct, secret_key) {
        Ok(ss) => ss,
        Err(_) => return Err(KemError::InvalidSecretKeySize),
    };
    let key = sha256_digest(&shared);
    match aes256gcm_decrypt(&key, nonce, body) {
        Err(_) => Err(KemError::DecryptionFailed),
        Ok(plain) => match string_from_utf8(plain) {
            Ok(s) => Ok(s),
            Err((valid_up_to, error_len)) => Err(KemError::InvalidUtf8 { valid_up_to, error_len }),
        },
    }
}

/// Kyber-1024 key encapsulation with AES-256-GCM message sealing.
#[derive(Clone, Copy)]
pub struct KyberKem {
    ciphertext_size: usize,
}

impl KyberKem {
    /// Every `KyberKem` works with Kyber-1024 ciphertexts.
    #[verifier::type_invariant]
    spec fn inv(self) -> bool {
        self.ciphertext_size == KYBER_CIPHERTEXT_BYTES
    }

    /// A new Kyber-1024 engine.
    pub fn new() -> (r: Self) {
        KyberKem { ciphertext_size: KYBER_CIPHERTEXT_BYTES }
    }

    /// Generates a fresh key pair `(public, secret)`; the secret key carries the public key.
    pub fn generate_keypair(&self) -> (r: Result<(Vec<u8>, Vec<u8>), KemError>)
        ensures
            r is Ok,
            r matches Err(e) ==> e == KemError::KeypairGenerationFailed,
            r matches Ok((pk, sk)) ==> {
                &&& pk@.len() == KYBER_PUBLIC_KEY_BYTES
                &&& sk@.len() == KYBER_SECRET_KEY_BYTES
                &&& embedded_public_key(sk@) == pk@
            },
    {
        match kyber_keypair() {
            Ok(keys) => Ok(keys),
            Err(_) => Err(KemError::KeypairGenerationFailed),
        }
    }

    /// Encapsulates a fresh shared secret for a public key, giving `(ciphertext, secret)`.
    pub fn encapsulate(&self, public_key: &[u8]) -> (r: Result<(Vec<u8>, Vec<u8>), KemError>)
        ensures
            public_key@.len() != KYBER_PUBLIC_KEY_BYTES ==> r == Err::<(Vec<u8>, Vec<u8>), KemError>(KemError::InvalidPublicKeySize),
            public_key@.len() == KYBER_PUBLIC_KEY_BYTES ==> r is Ok,
            public_key@.len() == KYBER_PUBLIC_KEY_BYTES ==> (r matches Err(e) ==> e == KemError::EncapsulationFailed),
            r matches Ok((ct, ss)) ==> {
                &&& ct@.len() == KYBER_CIPHERTEXT_BYTES
                &&& ss@.len() == KYBER_SHARED_SECRET_BYTES
                &&& kyber_encapsulation(public_key@, ct@, ss@)
            },
    {
        if public_key.len() != KYBER_PUBLIC_KEY_BYTES {
            return Err(KemError::InvalidPublicKeySize);
        }
        match kyber_encapsulate(public_key) {
            Ok(pair) => Ok(pair),
            Err(_) => Err(KemError::EncapsulationFailed),
        }
    }

    /// Recovers the shared secret that a ciphertext encapsulates for a secret key.
    pub fn decapsulate(&self, ciphertext: &[u8], secret_key: &[u8]) -> (r: Result<Vec<u8>, KemError>)
        ensures
            ciphertext@.len() != KYBER_CIPHERTEXT_BYTES ==> r == Err::<Vec<u8>, KemError>(KemError::InvalidCiphertextSize),
            ciphertext@.len() == KYBER_CIPHERTEXT_BYTES && secret_key@.len() != KYBER_SECRET_KEY_BYTES
                ==> r == Err::<Vec<u8>, KemError>(KemError::InvalidSecretKeySize),
            ciphertext@.len() == KYBER_CIPHERTEXT_BYTES && secret_key@.len() == KYBER_SECRET_KEY_BYTES
                ==> (r matches Ok(ss) && ss@ == kyber_decapsulation(ciphertext@, secret_key@)),
    {
        if ciphertext.len() != KYBER_CIPHERTEXT_BYTES {
            return Err(KemError::InvalidCiphertextSize);
        }
        if secret_key.len() != KYBER_SECRET_KEY_BYTES {
            return Err(KemError::InvalidSecretKeySize);
        }
        match kyber_decapsulate(ciphertext, secret_key) {
            Ok(ss) => Ok(ss),
            Err(_) => Err(KemError::InvalidSecretKeySize),
        }
    }

    /// Seals a message for the holder of the secret key that matches `public_key`: a fresh
    /// shared secret is encapsulated and a fresh nonce drawn.
    pub fn encrypt_message(&self, message: &str, public_key: &[u8]) -> (r: Result<Vec<u8>, KemError>)
        ensures
            (r == Err::<Vec<u8>, KemError>(KemError::InvalidPublicKeySize)) <==> public_key@.len() != KYBER_PUBLIC_KEY_BYTES,
            r matches Err(e) ==> {
                ||| e == KemError::InvalidPublicKeySize
                ||| e == KemError::EncapsulationFailed
                ||| (e == KemError::EncryptionFailed && encode_utf8(message@).len() > AES_GCM_MAX_PLAINTEXT)
            },
            r matches Err(e) ==> {
                ||| (e == KemError::InvalidPublicKeySize && public_key@.len() != KYBER_PUBLIC_KEY_BYTES)
                ||| (e == KemError::EncryptionFailed && public_key@.len() == KYBER_PUBLIC_KEY_BYTES
                    && encode_utf8(message@).len() > AES_GCM_MAX_PLAINTEXT)
            },
            encode_utf8(message@).len() > AES_GCM_MAX_PLAINTEXT ==> r is Err,
            public_key@.len() == KYBER_PUBLIC_KEY_BYTES && encode_utf8(message@).len() <= AES_GCM_MAX_PLAINTEXT ==> r is Ok,
            sealing_outcome(bytes_result(r), message@, public_key@),
            r matches Ok(c) ==> sealed_under(c@, message@, public_key@),
            r matches Ok(c) ==> c@.len() == KYBER_CIPHERTEXT_BYTES + NONCE_BYTES + encode_utf8(message@).len() + 16,
    {
        let (ct, ss) = match self.encapsulate(public_key) {
            Ok(pair) => pair,
            Err(e) => return Err(e),
        };
        let nonce = random_nonce();
        let sealed = seal_message(message, &ct, &ss, &nonce);
        match sealed {
            Ok(c) => {
                assert(opens_to(c@, message@, ct@, ss@));
                assert(c@ == sealed_message(message@, ct@, ss@, nonce@));
                Ok(c)
            },
            Err(e) => Err(e),
        }
    }

    /// Opens data sealed by [`KyberKem::encrypt_message`] with a secret key.
    pub fn decrypt_message(&self, encrypted_data: &[u8], secret_key: &[u8]) -> (r: Result<String, KemError>)
        ensures
            match r {
                Ok(s) => opened_message(encrypted_data@, secret_key@) == Ok::<Seq<char>, KemError>(s@),
                Err(e) => opened_message(encrypted_data@, secret_key@) == Err::<Seq<char>, KemError>(e),
            },
    {
        proof { use_type_invariant(self); }
        if encrypted_data.len() < self.ciphertext_size + NONCE_BYTES {
            return Err(KemError::DataTooShort);
        }
        open_message(encrypted_data, secret_key)
    }
}

impl Default for KyberKem {
    fn default() -> (r: Self) {
        Self::new()
    }
}

} // verus!
