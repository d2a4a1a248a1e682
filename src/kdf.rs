use vstd::prelude::*;
use vstd::utf8::encode_utf8;

use crate::error::CryptoError;

verus! {

/// Length in bytes of a derived session key.
pub const KEY_LEN: usize = 32;

/// Longest password, and longest salt, that Argon2 accepts.
pub const MAX_INPUT_LEN: u64 = 0xFFFF_FFFF;

/// Shortest salt that Argon2 accepts.
pub const MIN_SALT_LEN: usize = 8;

/// The 32-byte Argon2id key (version 0x13, default work parameters) derived
/// from a password and a salt.
pub uninterp spec fn argon2id_key(password: Seq<u8>, salt: Seq<u8>) -> Seq<u8>;

/// Whether Argon2 with the default parameters accepts a password and a salt.
pub open spec fn kdf_accepts(password: Seq<u8>, salt: Seq<u8>) -> bool {
    &&& password.len() <= MAX_INPUT_LEN
    &&& MIN_SALT_LEN <= salt.len() <= MAX_INPUT_LEN
}

#[verifier::external_type_specification]
#[verifier::external_body]
pub struct ExArgon2Error(argon2::Error);

/// Relies on `Argon2::hash_password_into` with `Argon2::default()` (Argon2id,
/// version 0x13, default parameters) and a 32-byte output: it fails exactly
/// when the password or the salt length is out of range, and otherwise fills
/// the output with the derived key.
#[verifier::external_body]
fn argon2id_hash(password: &[u8], salt: &[u8]) -> (r: Result<[u8; KEY_LEN], argon2::Error>)
    ensures
        r is Ok <==> kdf_accepts(password@, salt@),
        r is Ok ==> r->Ok_0@ == argon2id_key(password@, salt@),
{
    let mut key = [0u8; KEY_LEN];
    argon2::Argon2::default().hash_password_into(password, salt, &mut key)?;
    Ok(key)
}

/// Relies on the `Display` impl of `argon2::Error` for a readable cause.
#[verifier::external_body]
fn argon2_error_text(e: &argon2::Error) -> String {
    e.to_string()
}

/// Derives the session key for a master secret and a salt.
///
/// The result depends on the two inputs alone, so decryption rebuilds the
/// key from the transmitted salt.
pub fn derive_key(master_key: &str, salt: &[u8]) -> (r: Result<[u8; KEY_LEN], CryptoError>)
    ensures
        r is Ok <==> kdf_accepts(encode_utf8(master_key@), salt@),
        r is Ok ==> r->Ok_0@ == argon2id_key(encode_utf8(master_key@), salt@),
        r is Err ==> r->Err_0 is KeyDerivationFailed,
{
    match argon2id_hash(master_key.as_bytes(), salt) {
        Ok(key) => Ok(key),
        Err(e) => Err(CryptoError::KeyDerivationFailed(argon2_error_text(&e))),
    }
}

} // verus!
