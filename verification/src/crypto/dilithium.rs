//! ML-DSA-44 (Dilithium) signatures.
//!
//! A signing key is the serialised key pair `[mode tag | public key | secret key]`; a
//! verification key is the bare ML-DSA-44 public key.
use vstd::prelude::*;

verus! {

/// Size in bytes of an ML-DSA-44 public key.
pub const ML_DSA_44_PUBLIC_KEY_BYTES: usize = 1312;

/// Size in bytes of an ML-DSA-44 secret key.
pub const ML_DSA_44_SECRET_KEY_BYTES: usize = 2560;

/// Size in bytes of an ML-DSA-44 signature.
pub const ML_DSA_44_SIGNATURE_BYTES: usize = 2420;

/// The mode tag that starts a serialised ML-DSA-44 key pair.
pub const ML_DSA_44_TAG: u8 = 2;

/// Size in bytes of a serialised ML-DSA-44 key pair.
pub const ML_DSA_44_KEYPAIR_BYTES: usize = 3873;

#[verifier::external_type_specification]
#[verifier::external_body]
pub struct ExDilithiumError(dilithium::DilithiumError);

/// The reason the ML-DSA implementation gave for a failure.
#[derive(Debug, Clone, Copy, PartialEq, Eq, Structural)]
pub enum DilithiumFailure {
    /// Random number generation failed.
    RandomError,
    /// Invalid key or signature format.
    FormatError,
    /// Signature verification failed.
    BadSignature,
    /// An argument was invalid.
    BadArgument,
    /// Key validation failed.
    InvalidKey,
}

/// Why a signature operation failed.
#[derive(Debug, Clone, Copy, PartialEq, Eq, Structural)]
pub enum SignatureError {
    /// Key-pair generation failed.
    KeypairGenerationFailed(DilithiumFailure),
    /// The signing key is not a valid serialised key pair.
    InvalidSigningKey(DilithiumFailure),
    /// Signing failed.
    SigningFailed(DilithiumFailure),
}

impl DilithiumFailure {
    /// The failure's name, as the ML-DSA implementation's `Debug` writes it.
    pub fn name(&self) -> (r: &'static str)
        ensures
            r@ == failure_name(*self),
    {
        match self {
            DilithiumFailure::RandomError => "RandomError",
            DilithiumFailure::FormatError => "FormatError",
            DilithiumFailure::BadSignature => "BadSignature",
            DilithiumFailure::BadArgument => "BadArgument",
            DilithiumFailure::InvalidKey => "InvalidKey",
        }
    }
}

/// The name of an ML-DSA failure.
pub open spec fn failure_name(f: DilithiumFailure) -> Seq<char> {
    match f {
        DilithiumFailure::RandomError => "RandomError"@,
        DilithiumFailure::FormatError => "FormatError"@,
        DilithiumFailure::BadSignature => "BadSignature"@,
        DilithiumFailure::BadArgument => "BadArgument"@,
        DilithiumFailure::InvalidKey => "InvalidKey"@,
    }
}

/// The text of a signature error: what failed, then the implementation's reason.
pub open spec fn signature_error_text(e: SignatureError) -> Seq<char> {
    match e {
        SignatureError::KeypairGenerationFailed(f) => "Dilithium keypair generation failed: "@ + failure_name(f),
        SignatureError::InvalidSigningKey(f) => "Invalid signing key: "@ + failure_name(f),
        SignatureError::SigningFailed(f) => "Signing failed: "@ + failure_name(f),
    }
}

impl SignatureError {
    /// The error's text.
    pub fn message(&self) -> (r: String)
        ensures
            r@ == signature_error_text(*self),
    {
        let (mut text, f) = match self {
            SignatureError::KeypairGenerationFailed(f) => (String::from_str("Dilithium keypair generation failed: "), f),
            SignatureError::InvalidSigningKey(f) => (String::from_str("Invalid signing key: "), f),
            SignatureError::SigningFailed(f) => (String::from_str("Signing failed: "), f),
        };
        text.append(f.name());
        text
    }
}

/// Whether `dilithium::MlDsaKeyPair::from_bytes` accepts a serialised key pair.
pub uninterp spec fn ml_dsa_keypair_accepted(keypair: Seq<u8>) -> bool;

/// Whether ML-DSA-44 verification (empty context) accepts a signature on a message under a
/// public key (the result of `dilithium::MlDsaKeyPair::verify`).
pub uninterp spec fn ml_dsa_44_verifies(public_key: Seq<u8>, signature: Seq<u8>, message: Seq<u8>) -> bool;

/// A serialised key pair of the ML-DSA-44 size and mode tag.
pub open spec fn is_ml_dsa_44_keypair(keypair: Seq<u8>) -> bool {
    keypair.len() == ML_DSA_44_KEYPAIR_BYTES && keypair[0] == ML_DSA_44_TAG
}

/// The public key inside a serialised ML-DSA-44 key pair.
pub open spec fn keypair_public_key(keypair: Seq<u8>) -> Seq<u8> {
    keypair.subrange(1, 1 + ML_DSA_44_PUBLIC_KEY_BYTES)
}

/// A fresh ML-DSA-44 key pair, serialised, with its public key.
///
/// Trusted: `dilithium::MlDsaKeyPair::generate(ML_DSA_44)`, then `to_bytes` and
/// `public_key`. Its source serialises as `[0x02 | public key | secret key]`, and its
/// round-trip tests show that `from_bytes` accepts that serialisation. The keys are random.
#[verifier::external_body]
fn ml_dsa_generate() -> (r: Result<(Vec<u8>, Vec<u8>), dilithium::DilithiumError>)
    ensures
        r matches Ok((keypair, public_key)) ==> {
            &&& is_ml_dsa_44_keypair(keypair@)
            &&& public_key@.len() == ML_DSA_44_PUBLIC_KEY_BYTES
            &&& keypair_public_key(keypair@) == public_key@
            &&& ml_dsa_keypair_accepted(keypair@)
        },
{
    match dilithium::MlDsaKeyPair::generate(dilithium::ML_DSA_44) {
        Ok(kp) => Ok((kp.to_bytes().to_vec(), kp.public_key().to_vec())),
        Err(e) => Err(e),
    }
}

/// A serialised key pair of one of the three ML-DSA modes: its mode tag and the length
/// that goes with it (ML-DSA-44, -65 or -87).
pub open spec fn keypair_shape(keypair: Seq<u8>) -> bool {
    ||| (keypair.len() == ML_DSA_44_KEYPAIR_BYTES && keypair[0] == ML_DSA_44_TAG)
    ||| (keypair.len() == 5985 && keypair[0] == 3)
    ||| (keypair.len() == 7489 && keypair[0] == 5)
}

/// Whether a serialised key pair can be loaded.
///
/// Trusted: `dilithium::MlDsaKeyPair::from_bytes`, whose outcome depends on the bytes alone.
/// Its source refuses with `FormatError` an empty input, an unknown mode tag and a length
/// other than that of the tag's mode, before any check of the keys themselves.
#[verifier::external_body]
fn ml_dsa_load_keypair(keypair: &[u8]) -> (r: Result<(), DilithiumFailure>)
    ensures
        r is Ok <==> ml_dsa_keypair_accepted(keypair@),
        r is Ok ==> keypair_shape(keypair@),
        r matches Err(f) ==> keypair_shape(keypair@) || f == DilithiumFailure::FormatError,
{
    match dilithium::MlDsaKeyPair::from_bytes(keypair) {
        Ok(_) => Ok(()),
        Err(dilithium::DilithiumError::RandomError) => Err(DilithiumFailure::RandomError),
        Err(dilithium::DilithiumError::FormatError) => Err(DilithiumFailure::FormatError),
        Err(dilithium::DilithiumError::BadSignature) => Err(DilithiumFailure::BadSignature),
        Err(dilithium::DilithiumError::BadArgument) => Err(DilithiumFailure::BadArgument),
        Err(dilithium::DilithiumError::InvalidKey) => Err(DilithiumFailure::InvalidKey),
    }
}

/// Signs a message (empty context) with a loadable serialised key pair.
///
/// Trusted: `dilithium::MlDsaKeyPair::sign` after `from_bytes`. Signing is randomised.
/// For an ML-DSA-44 key pair the crate's documented example and round-trip tests show that
/// the signature has the ML-DSA-44 size and verifies under the pair's public key.
#[verifier::external_body]
fn ml_dsa_sign(keypair: &[u8], message: &[u8]) -> (r: Result<Vec<u8>, dilithium::DilithiumError>)
    requires
        ml_dsa_keypair_accepted(keypair@),
    ensures
        is_ml_dsa_44_keypair(keypair@) ==> (r matches Ok(sig) ==> {
            &&& sig@.len() == ML_DSA_44_SIGNATURE_BYTES
            &&& ml_dsa_44_verifies(keypair_public_key(keypair@), sig@, message@)
        }),
{
    match dilithium::MlDsaKeyPair::from_bytes(keypair) {
        Ok(kp) => match kp.sign(message, b"") {
            Ok(sig) => Ok(sig.as_bytes().to_vec()),
            Err(e) => Err(e),
        },
        Err(e) => Err(e),
    }
}

/// ML-DSA-44 verification with an empty context.
///
/// Trusted: `dilithium::MlDsaKeyPair::verify(.., ML_DSA_44)` on the signature bytes; its
/// source refuses a public key or signature of the wrong size before any other check.
#[verifier::external_body]
fn ml_dsa_verify(public_key: &[u8], signature: &[u8], message: &[u8]) -> (r: bool)
    ensures
        r == ml_dsa_44_verifies(public_key@, signature@, message@),
        r ==> public_key@.len() == ML_DSA_44_PUBLIC_KEY_BYTES && signature@.len() == ML_DSA_44_SIGNATURE_BYTES,
{
    let sig = dilithium::DilithiumSignature::from_bytes(signature.to_vec());
    dilithium::MlDsaKeyPair::verify(public_key, &sig, message, b"", dilithium::ML_DSA_44)
}

/// The variant of an ML-DSA error.
///
/// Trusted: tells the variants of `dilithium::DilithiumError` apart, one arm each.
#[verifier::external_body]
fn failure_of(e: &dilithium::DilithiumError) -> (r: DilithiumFailure) {
    match e {
        dilithium::DilithiumError::RandomError => DilithiumFailure::RandomError,
        dilithium::DilithiumError::FormatError => DilithiumFailure::FormatError,
        dilithium::DilithiumError::BadSignature => DilithiumFailure::BadSignature,
        dilithium::DilithiumError::BadArgument => DilithiumFailure::BadArgument,
        dilithium::DilithiumError::InvalidKey => DilithiumFailure::InvalidKey,
    }
}

/// ML-DSA-44 signing and verification.
#[derive(Clone, Copy)]
pub struct DilithiumSignature;

impl DilithiumSignature {
    /// A new ML-DSA-44 engine.
    pub fn new() -> (r: Self) {
        DilithiumSignature
    }

    /// Generates a key pair `(signing key, verification key)`: the signing key is the
    /// serialised ML-DSA-44 key pair and carries the verification key.
    pub fn generate_keypair(&self) -> (r: Result<(Vec<u8>, Vec<u8>), SignatureError>)
        ensures
            r matches Err(e) ==> e is KeypairGenerationFailed,
            r matches Ok((signing_key, verification_key)) ==> {
                &&& is_ml_dsa_44_keypair(signing_key@)
                &&& ml_dsa_keypair_accepted(signing_key@)
                &&& verification_key@.len() == ML_DSA_44_PUBLIC_KEY_BYTES
                &&& keypair_public_key(signing_key@) == verification_key@
            },
    {
        match ml_dsa_generate() {
            Ok(pair) => Ok(pair),
            Err(e) => Err(SignatureError::KeypairGenerationFailed(failure_of(&e))),
        }
    }

    /// Signs a message with a signing key.
    pub fn sign(&self, message: &[u8], signing_key: &[u8]) -> (r: Result<Vec<u8>, SignatureError>)
        ensures
            !ml_dsa_keypair_accepted(signing_key@) ==> (r matches Err(e) && e is InvalidSigningKey),
            !keypair_shape(signing_key@) ==> r == Err::<Vec<u8>, SignatureError>(SignatureError::InvalidSigningKey(DilithiumFailure::FormatError)),
            ml_dsa_keypair_accepted(signing_key@) ==> (r matches Err(e) ==> e is SigningFailed),
            is_ml_dsa_44_keypair(signing_key@) ==> (r matches Ok(sig) ==> {
                &&& sig@.len() == ML_DSA_44_SIGNATURE_BYTES
                &&& ml_dsa_44_verifies(keypair_public_key(signing_key@), sig@, message@)
            }),
    {
        match ml_dsa_load_keypair(signing_key) {
            Err(f) => Err(SignatureError::InvalidSigningKey(f)),
            Ok(()) => match ml_dsa_sign(signing_key, message) {
                Ok(sig) => Ok(sig),
                Err(e) => Err(SignatureError::SigningFailed(failure_of(&e))),
            },
        }
    }

    /// Whether a signature on a message verifies under a verification key.
    pub fn verify(&self, message: &[u8], signature: &[u8], verification_key: &[u8]) -> (r: Result<bool, SignatureError>)
        ensures
            r == Ok::<bool, SignatureError>(ml_dsa_44_verifies(verification_key@, signature@, message@)),
            r == Ok::<bool, SignatureError>(true) ==> verification_key@.len() == ML_DSA_44_PUBLIC_KEY_BYTES
                && signature@.len() == ML_DSA_44_SIGNATURE_BYTES,
    {
        Ok(ml_dsa_verify(verification_key, signature, message))
    }
}

impl Default for DilithiumSignature {
    fn default() -> (r: Self) {
        Self::new()
    }
}

} // verus!
