use k_services_crypto::cipher::{open, seal, NONCE_LEN, TAG_LEN};
use k_services_crypto::codec::{decode_field, encode_bytes};
use k_services_crypto::envelope::{open_envelope, seal_envelope, SALT_LEN};
use k_services_crypto::kdf::derive_key;
use k_services_crypto::{decrypt_with_context, encrypt_with_context, CryptoError, EncryptedEnvelope, Field};

fn decoded(text: &str) -> Vec<u8> {
    decode_field(text, Field::Ciphertext).expect("valid base64")
}

fn decrypt(env: &EncryptedEnvelope, key: &str, context: &str) -> Result<String, CryptoError> {
    decrypt_with_context(&env.ciphertext, &env.salt, &env.nonce, key, context)
}

#[test]
fn hello_round_trip_and_wrong_context() {
    let env = encrypt_with_context("hello", "secret-key", "user:42").unwrap();
    assert_eq!(decoded(&env.salt).len(), SALT_LEN);
    assert_eq!(decoded(&env.nonce).len(), NONCE_LEN);
    assert_eq!(decoded(&env.ciphertext).len(), "hello".len() + TAG_LEN);
    assert_eq!(decrypt(&env, "secret-key", "user:42").unwrap(), "hello");
    assert_eq!(decrypt(&env, "secret-key", "user:43"), Err(CryptoError::AuthenticationFailed));
}

#[test]
fn round_trip_of_empty_and_multibyte_text() {
    for text in ["", "päivää, 世界 🦀"] {
        let env = encrypt_with_context(text, "k", "").unwrap();
        assert_eq!(decrypt(&env, "k", "").unwrap(), text);
    }
}

#[test]
fn wrong_master_key_fails_authentication() {
    let env = encrypt_with_context("payload", "secret-key", "ctx").unwrap();
    assert_eq!(decrypt(&env, "secret-kez", "ctx"), Err(CryptoError::AuthenticationFailed));
}

#[test]
fn flipped_ciphertext_bits_fail_authentication() {
    let env = encrypt_with_context("tamper me", "secret-key", "ctx").unwrap();
    let sealed = decoded(&env.ciphertext);
    for (byte, bit) in [(0usize, 0u8), (4, 7), (sealed.len() - 1, 3)] {
        let mut changed = sealed.clone();
        changed[byte] ^= 1 << bit;
        let r = decrypt_with_context(&encode_bytes(&changed), &env.salt, &env.nonce, "secret-key", "ctx");
        assert_eq!(r, Err(CryptoError::AuthenticationFailed));
    }
}

#[test]
fn two_encryptions_differ() {
    let a = encrypt_with_context("same", "key", "ctx").unwrap();
    let b = encrypt_with_context("same", "key", "ctx").unwrap();
    assert_ne!(a.salt, b.salt);
    assert_ne!(a.nonce, b.nonce);
    assert_ne!(a.ciphertext, b.ciphertext);
}

#[test]
fn nonce_of_eleven_or_thirteen_bytes_is_rejected() {
    let env = encrypt_with_context("hello", "secret-key", "user:42").unwrap();
    for len in [11usize, 13] {
        let nonce = encode_bytes(&vec![0u8; len]);
        let r = decrypt_with_context(&env.ciphertext, &env.salt, &nonce, "secret-key", "user:42");
        assert_eq!(r, Err(CryptoError::InvalidNonceLength));
    }
}

#[test]
fn each_field_reports_its_own_base64_error() {
    let good = encode_bytes(&[0u8; 12]);
    let r = decrypt_with_context("not base64!", &good, &good, "k", "c");
    assert_eq!(r, Err(CryptoError::InvalidBase64(Field::Ciphertext)));
    let r = decrypt_with_context(&good, "@@@@", &good, "k", "c");
    assert_eq!(r, Err(CryptoError::InvalidBase64(Field::Salt)));
    let r = decrypt_with_context(&good, &good, "AAA", "k", "c");
    assert_eq!(r, Err(CryptoError::InvalidBase64(Field::Nonce)));
}

#[test]
fn short_salt_fails_key_derivation() {
    let r = open_envelope(&[0u8; 32], &[1u8; 4], &[0u8; 12], "k", "c");
    assert!(matches!(r, Err(CryptoError::KeyDerivationFailed(_))));
    let r = derive_key("k", &[1u8; 7]);
    assert!(matches!(r, Err(CryptoError::KeyDerivationFailed(_))));
}

#[test]
fn authenticated_non_utf8_plaintext_is_rejected() {
    let salt = [9u8; SALT_LEN];
    let nonce = [3u8; NONCE_LEN];
    let key = derive_key("k", &salt).unwrap();
    let sealed = seal(&key, &nonce, b"ctx", &[0xff, 0xfe, 0x41]).unwrap();
    assert_eq!(open(&key, &nonce, b"ctx", &sealed).unwrap(), vec![0xff, 0xfe, 0x41]);
    let r = open_envelope(&sealed, &salt, &nonce, "k", "ctx");
    assert_eq!(r, Err(CryptoError::InvalidUtf8));
}

#[test]
fn short_sealed_input_fails_authentication() {
    let r = open_envelope(&[0u8; 15], &[1u8; SALT_LEN], &[0u8; NONCE_LEN], "k", "c");
    assert_eq!(r, Err(CryptoError::AuthenticationFailed));
}

#[test]
fn sealing_is_deterministic_for_fixed_salt_and_nonce() {
    let salt = [7u8; SALT_LEN];
    let nonce = [5u8; NONCE_LEN];
    let a = seal_envelope("text", "key", "ctx", &salt, &nonce).unwrap();
    let b = seal_envelope("text", "key", "ctx", &salt, &nonce).unwrap();
    assert_eq!(a, b);
    assert_eq!(a.salt, "BwcHBwcHBwcHBwcHBwcHBw==");
    assert_eq!(a.nonce, "BQUFBQUFBQUFBQUF");
    assert_ne!(decoded(&a.ciphertext)[..4], b"text"[..]);
    assert_eq!(decrypt(&a, "key", "ctx").unwrap(), "text");
}

#[test]
fn derived_key_depends_on_secret_and_salt() {
    let a = derive_key("secret", &[1u8; SALT_LEN]).unwrap();
    assert_eq!(a, derive_key("secret", &[1u8; SALT_LEN]).unwrap());
    assert_ne!(a, derive_key("secret", &[2u8; SALT_LEN]).unwrap());
    assert_ne!(a, derive_key("secres", &[1u8; SALT_LEN]).unwrap());
}

#[test]
fn base64_encoding_and_decoding() {
    assert_eq!(encode_bytes(b"hello"), "aGVsbG8=");
    assert_eq!(encode_bytes(&[]), "");
    assert_eq!(encode_bytes(&[0xfb, 0xff]), "+/8=");
    assert_eq!(decode_field("aGVsbG8=", Field::Salt).unwrap(), b"hello".to_vec());
    assert_eq!(decode_field("aGVsbG8", Field::Salt), Err(CryptoError::InvalidBase64(Field::Salt)));
}
