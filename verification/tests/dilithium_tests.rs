use drone_mesh::crypto::dilithium::{DilithiumFailure, DilithiumSignature, SignatureError, ML_DSA_44_KEYPAIR_BYTES, ML_DSA_44_PUBLIC_KEY_BYTES, ML_DSA_44_SIGNATURE_BYTES, ML_DSA_44_TAG};

#[test]
fn keypair_layout() {
    let d = DilithiumSignature::new();
    let (signing, verification) = d.generate_keypair().unwrap();
    assert_eq!(signing.len(), ML_DSA_44_KEYPAIR_BYTES);
    assert_eq!(signing[0], ML_DSA_44_TAG);
    assert_eq!(verification.len(), ML_DSA_44_PUBLIC_KEY_BYTES);
    assert_eq!(&signing[1..1 + ML_DSA_44_PUBLIC_KEY_BYTES], &verification[..]);
}

#[test]
fn signature_verifies_under_matching_key() {
    let d = DilithiumSignature::default();
    let (signing, verification) = d.generate_keypair().unwrap();
    let sig = d.sign(b"payload", &signing).unwrap();
    assert_eq!(sig.len(), ML_DSA_44_SIGNATURE_BYTES);
    assert_eq!(d.verify(b"payload", &sig, &verification), Ok(true));
}

#[test]
fn signature_does_not_verify_other_message_or_key() {
    let d = DilithiumSignature::new();
    let (signing, verification) = d.generate_keypair().unwrap();
    let (_, other) = d.generate_keypair().unwrap();
    let sig = d.sign(b"payload", &signing).unwrap();
    assert_eq!(d.verify(b"payloaD", &sig, &verification), Ok(false));
    assert_eq!(d.verify(b"payload", &sig, &other), Ok(false));
}

#[test]
fn malformed_inputs() {
    let d = DilithiumSignature::new();
    assert_eq!(d.sign(b"m", &[]), Err(SignatureError::InvalidSigningKey(DilithiumFailure::FormatError)));
    assert_eq!(d.sign(b"m", &[2u8, 1, 2, 3]), Err(SignatureError::InvalidSigningKey(DilithiumFailure::FormatError)));
    assert_eq!(d.verify(b"m", &[0u8; 10], &[0u8; 10]), Ok(false));
}

#[test]
fn tampered_signing_key_is_refused() {
    let d = DilithiumSignature::new();
    let (mut signing, _) = d.generate_keypair().unwrap();
    let last = signing.len() - 1;
    signing[last] ^= 0x55;
    assert!(matches!(d.sign(b"m", &signing), Err(SignatureError::InvalidSigningKey(_))));
}

#[test]
fn short_keys_and_signatures_never_verify() {
    let d = DilithiumSignature::new();
    assert_eq!(d.verify(b"hello", &[], &[]), Ok(false));
}

#[test]
fn signature_error_texts() {
    let d = DilithiumSignature::new();
    let e = d.sign(b"hello", &[]).unwrap_err();
    assert_eq!(e.message(), "Invalid signing key: FormatError");
    assert!(e.message().starts_with("Invalid signing key"));
    assert_eq!(SignatureError::SigningFailed(DilithiumFailure::RandomError).message(), "Signing failed: RandomError");
    assert_eq!(
        SignatureError::KeypairGenerationFailed(DilithiumFailure::BadArgument).message(),
        "Dilithium keypair generation failed: BadArgument"
    );
    assert_eq!(DilithiumFailure::InvalidKey.name(), format!("{:?}", DilithiumFailure::InvalidKey));
}
