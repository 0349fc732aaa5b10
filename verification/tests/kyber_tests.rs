use aes_gcm::aead::{Aead, KeyInit};
use drone_mesh::crypto::kyber::{open_message, seal_message, KemError, KyberKem, KYBER_CIPHERTEXT_BYTES, KYBER_PUBLIC_KEY_BYTES, KYBER_SECRET_KEY_BYTES, KYBER_SECRET_KEY_PUBLIC_OFFSET, KYBER_SHARED_SECRET_BYTES, NONCE_BYTES};
use sha2::Digest;

#[test]
fn kyber_sizes_match_the_crate() {
    assert_eq!(KYBER_PUBLIC_KEY_BYTES, pqc_kyber::KYBER_PUBLICKEYBYTES);
    assert_eq!(KYBER_SECRET_KEY_BYTES, pqc_kyber::KYBER_SECRETKEYBYTES);
    assert_eq!(KYBER_CIPHERTEXT_BYTES, pqc_kyber::KYBER_CIPHERTEXTBYTES);
    assert_eq!(KYBER_SHARED_SECRET_BYTES, pqc_kyber::KYBER_SSBYTES);
}

#[test]
fn keypair_embeds_public_key() {
    let kem = KyberKem::new();
    let (pk, sk) = kem.generate_keypair().unwrap();
    assert_eq!(pk.len(), KYBER_PUBLIC_KEY_BYTES);
    assert_eq!(sk.len(), KYBER_SECRET_KEY_BYTES);
    assert_eq!(&sk[KYBER_SECRET_KEY_PUBLIC_OFFSET..KYBER_SECRET_KEY_PUBLIC_OFFSET + KYBER_PUBLIC_KEY_BYTES], &pk[..]);
}

#[test]
fn encapsulated_secret_is_recovered() {
    let kem = KyberKem::default();
    let (pk, sk) = kem.generate_keypair().unwrap();
    let (ct, ss) = kem.encapsulate(&pk).unwrap();
    assert_eq!(ct.len(), KYBER_CIPHERTEXT_BYTES);
    assert_eq!(ss.len(), KYBER_SHARED_SECRET_BYTES);
    assert_eq!(kem.decapsulate(&ct, &sk).unwrap(), ss);
}

#[test]
fn size_errors() {
    let kem = KyberKem::new();
    assert_eq!(kem.encapsulate(&[0u8; 10]), Err(KemError::InvalidPublicKeySize));
    assert_eq!(kem.decapsulate(&[0u8; 10], &[0u8; KYBER_SECRET_KEY_BYTES]), Err(KemError::InvalidCiphertextSize));
    assert_eq!(kem.decapsulate(&[0u8; KYBER_CIPHERTEXT_BYTES], &[0u8; 10]), Err(KemError::InvalidSecretKeySize));
    assert_eq!(kem.encrypt_message("hi", &[1u8; 3]), Err(KemError::InvalidPublicKeySize));
}

#[test]
fn encrypted_message_decrypts_with_matching_secret_key() {
    let kem = KyberKem::new();
    let (pk, sk) = kem.generate_keypair().unwrap();
    let sealed = kem.encrypt_message("hello drone 🚁", &pk).unwrap();
    assert_eq!(sealed.len(), KYBER_CIPHERTEXT_BYTES + NONCE_BYTES + "hello drone 🚁".len() + 16);
    assert_eq!(kem.decrypt_message(&sealed, &sk).unwrap(), "hello drone 🚁");
}

#[test]
fn decrypt_refuses_short_data() {
    let kem = KyberKem::new();
    let data = vec![0u8; KYBER_CIPHERTEXT_BYTES + NONCE_BYTES - 1];
    assert_eq!(kem.decrypt_message(&data, &[0u8; KYBER_SECRET_KEY_BYTES]), Err(KemError::DataTooShort));
}

#[test]
fn decrypt_refuses_wrong_secret_key_size() {
    let kem = KyberKem::new();
    let (pk, _) = kem.generate_keypair().unwrap();
    let sealed = kem.encrypt_message("x", &pk).unwrap();
    assert_eq!(kem.decrypt_message(&sealed, &pk), Err(KemError::InvalidSecretKeySize));
}

#[test]
fn tampered_data_is_not_authenticated() {
    let kem = KyberKem::new();
    let (pk, sk) = kem.generate_keypair().unwrap();
    let mut sealed = kem.encrypt_message("secret", &pk).unwrap();
    let last = sealed.len() - 1;
    sealed[last] ^= 1;
    assert_eq!(kem.decrypt_message(&sealed, &sk), Err(KemError::DecryptionFailed));
}

#[test]
fn wrong_secret_key_does_not_open() {
    let kem = KyberKem::new();
    let (pk, _) = kem.generate_keypair().unwrap();
    let (_, other_sk) = kem.generate_keypair().unwrap();
    let sealed = kem.encrypt_message("secret", &pk).unwrap();
    assert_eq!(kem.decrypt_message(&sealed, &other_sk), Err(KemError::DecryptionFailed));
}

fn aes_seal(key: &[u8], nonce: &[u8], plain: &[u8]) -> Vec<u8> {
    let cipher = aes_gcm::Aes256Gcm::new(aes_gcm::Key::<aes_gcm::Aes256Gcm>::from_slice(key));
    cipher.encrypt(aes_gcm::Nonce::from_slice(nonce), plain).unwrap()
}

#[test]
fn seal_message_frames_ciphertext_nonce_and_body() {
    let ct = vec![7u8; KYBER_CIPHERTEXT_BYTES];
    let ss = vec![9u8; 32];
    let nonce = vec![3u8; 12];
    let sealed = seal_message("abc", &ct, &ss, &nonce).unwrap();
    let key = sha2::Sha256::digest(&ss);
    let mut expected = ct.clone();
    expected.extend_from_slice(&nonce);
    expected.extend_from_slice(&aes_seal(&key, &nonce, b"abc"));
    assert_eq!(sealed, expected);
}

#[test]
fn open_message_reports_invalid_utf8() {
    let kem = KyberKem::new();
    let (pk, sk) = kem.generate_keypair().unwrap();
    let (ct, ss) = kem.encapsulate(&pk).unwrap();
    let nonce = [5u8; 12];
    let key = sha2::Sha256::digest(&ss);
    let mut data = ct.clone();
    data.extend_from_slice(&nonce);
    data.extend_from_slice(&aes_seal(&key, &nonce, &[0xff, 0xfe]));
    let err = open_message(&data, &sk).unwrap_err();
    assert_eq!(err, KemError::InvalidUtf8 { valid_up_to: 0, error_len: Some(1) });
    assert_eq!(err.message(), String::from_utf8(vec![0xff, 0xfe]).unwrap_err().to_string());
}

#[test]
fn open_message_reports_incomplete_utf8() {
    let kem = KyberKem::new();
    let (pk, sk) = kem.generate_keypair().unwrap();
    let (ct, ss) = kem.encapsulate(&pk).unwrap();
    let nonce = [6u8; 12];
    let key = sha2::Sha256::digest(&ss);
    let plain = vec![b'a', b'b', 0xe2, 0x82];
    let mut data = ct.clone();
    data.extend_from_slice(&nonce);
    data.extend_from_slice(&aes_seal(&key, &nonce, &plain));
    let err = open_message(&data, &sk).unwrap_err();
    assert_eq!(err, KemError::InvalidUtf8 { valid_up_to: 2, error_len: None });
    assert_eq!(err.message(), "incomplete utf-8 byte sequence from index 2");
    assert_eq!(err.message(), String::from_utf8(plain).unwrap_err().to_string());
}

#[test]
fn encrypted_message_length() {
    let kem = KyberKem::new();
    let (pk, sk) = kem.generate_keypair().unwrap();
    let c = kem.encrypt_message("héllo", &pk).unwrap();
    assert_eq!(c.len(), KYBER_CIPHERTEXT_BYTES + NONCE_BYTES + "héllo".len() + 16);
    assert_eq!(kem.decrypt_message(&c, &sk).unwrap(), "héllo");
    let (ct, ss) = kem.encapsulate(&pk).unwrap();
    assert_eq!(kem.decapsulate(&ct, &sk).unwrap(), ss);
}

#[test]
fn sealed_message_opens_with_decapsulating_key() {
    let kem = KyberKem::new();
    let (pk, sk) = kem.generate_keypair().unwrap();
    let (ct, ss) = kem.encapsulate(&pk).unwrap();
    let sealed = seal_message("over the mesh", &ct, &ss, &[1u8; 12]).unwrap();
    assert_eq!(open_message(&sealed, &sk).unwrap(), "over the mesh");
}

#[test]
fn error_messages() {
    assert_eq!(KemError::DataTooShort.message(), "Encrypted data too short");
    assert_eq!(KemError::InvalidPublicKeySize.message(), "Invalid public key size");
    assert_eq!(
        KemError::InvalidUtf8 { valid_up_to: 1234, error_len: Some(3) }.message(),
        "invalid utf-8 sequence of 3 bytes from index 1234"
    );
}
