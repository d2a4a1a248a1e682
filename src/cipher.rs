use aes_gcm::aead::{Aead, KeyInit, Payload};
use aes_gcm::{Aes256Gcm, Key, Nonce};
use vstd::prelude::*;

use crate::error::CryptoError;
use crate::kdf::KEY_LEN;

verus! {

/// Length in bytes of a GCM nonce.
pub const NONCE_LEN: usize = 12;

/// Length in bytes of the authentication tag appended to a ciphertext.
pub const TAG_LEN: usize = 16;

/// Longest plaintext, and longest associated data, that AES-GCM accepts.
pub const GCM_MAX_LEN: u64 = 1 << 36;

/// The AES-256-GCM ciphertext, tag appended, of a message under a key, a
/// nonce and associated data.
pub uninterp spec fn gcm_seal(key: Seq<u8>, nonce: Seq<u8>, aad: Seq<u8>, msg: Seq<u8>) -> Seq<u8>;

/// The message that an AES-256-GCM ciphertext with its tag authenticates to
/// under a key, a nonce and associated data, or `None` where the tag does
/// not verify.
pub uninterp spec fn gcm_open(key: Seq<u8>, nonce: Seq<u8>, aad: Seq<u8>, sealed: Seq<u8>) -> Option<
    Seq<u8>,
>;

/// Whether AES-GCM accepts a message and associated data of these lengths.
pub open spec fn gcm_accepts(aad: Seq<u8>, msg: Seq<u8>) -> bool {
    aad.len() <= GCM_MAX_LEN && msg.len() <= GCM_MAX_LEN
}

#[verifier::external_type_specification]
#[verifier::external_body]
pub struct ExAeadError(aes_gcm::Error);

/// Relies on `Aead::encrypt` of `Aes256Gcm`: it fails exactly when the
/// message or the associated data is longer than 2^36 bytes, and otherwise
/// returns the ciphertext with its 16-byte tag, which `Aead::decrypt` with
/// the same key, nonce and associated data opens to the message.
#[verifier::external_body]
fn aes256gcm_encrypt(key: &[u8; KEY_LEN], nonce: &[u8], aad: &[u8], msg: &[u8]) -> (r: Result<
    Vec<u8>,
    aes_gcm::Error,
>)
    requires
        nonce@.len() == NONCE_LEN,
    ensures
        r is Ok <==> gcm_accepts(aad@, msg@),
        r is Ok ==> r->Ok_0@ == gcm_seal(key@, nonce@, aad@, msg@),
        r is Ok ==> r->Ok_0@.len() == msg@.len() + TAG_LEN,
        r is Ok ==> gcm_open(key@, nonce@, aad@, r->Ok_0@) == Some(msg@),
{
    let cipher = Aes256Gcm::new(Key::<Aes256Gcm>::from_slice(key));
    cipher.encrypt(Nonce::from_slice(nonce), Payload { msg, aad })
}

/// Relies on `Aead::decrypt` of `Aes256Gcm`: the authenticated message, or
/// an error where the tag does not verify (always so for input shorter
/// than the tag).
#[verifier::external_body]
fn aes256gcm_decrypt(key: &[u8; KEY_LEN], nonce: &[u8], aad: &[u8], sealed: &[u8]) -> (r: Result<
    Vec<u8>,
    aes_gcm::Error,
>)
    requires
        nonce@.len() == NONCE_LEN,
    ensures
        r is Ok <==> gcm_open(key@, nonce@, aad@, sealed@) is Some,
        r is Ok ==> gcm_open(key@, nonce@, aad@, sealed@) == Some(r->Ok_0@),
        sealed@.len() < TAG_LEN ==> r is Err,
{
    let cipher = Aes256Gcm::new(Key::<Aes256Gcm>::from_slice(key));
    cipher.decrypt(Nonce::from_slice(nonce), Payload { msg: sealed, aad })
}

/// Seals a message under a session key and a 12-byte nonce, binding the
/// associated data; the result carries its tag at the end.
pub fn seal(key: &[u8; KEY_LEN], nonce: &[u8], aad: &[u8], msg: &[u8]) -> (r: Result<
    Vec<u8>,
    CryptoError,
>)
    requires
        nonce@.len() == NONCE_LEN,
    ensures
        r is Ok <==> gcm_accepts(aad@, msg@),
        r is Ok ==> r->Ok_0@ == gcm_seal(key@, nonce@, aad@, msg@),
        r is Ok ==> r->Ok_0@.len() == msg@.len() + TAG_LEN,
        r is Ok ==> gcm_open(key@, nonce@, aad@, r->Ok_0@) == Some(msg@),
        r is Err ==> r->Err_0 == CryptoError::EncryptionFailed,
{
    match aes256gcm_encrypt(key, nonce, aad, msg) {
        Ok(sealed) => Ok(sealed),
        Err(_) => Err(CryptoError::EncryptionFailed),
    }
}

/// Opens a sealed message; any mismatch of key, nonce, associated data,
/// ciphertext or tag gives one and the same error and no plaintext.
pub fn open(key: &[u8; KEY_LEN], nonce: &[u8], aad: &[u8], sealed: &[u8]) -> (r: Result<
    Vec<u8>,
    CryptoError,
>)
    requires
        nonce@.len() == NONCE_LEN,
    ensures
        match gcm_open(key@, nonce@, aad@, sealed@) {
            Some(msg) => r is Ok && r->Ok_0@ == msg,
            None => r is Err && r->Err_0 == CryptoError::AuthenticationFailed,
        },
{
    match aes256gcm_decrypt(key, nonce, aad, sealed) {
        Ok(msg) => Ok(msg),
        Err(_) => Err(CryptoError::AuthenticationFailed),
    }
}

} // verus!
