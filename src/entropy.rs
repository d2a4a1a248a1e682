use rand::RngCore;
use vstd::prelude::*;

use crate::error::CryptoError;

verus! {

#[verifier::external_type_specification]
#[verifier::external_body]
pub struct ExRandError(rand::Error);

/// Relies on `RngCore::try_fill_bytes` of rand's `OsRng`: on success the
/// buffer of the requested length holds bytes drawn from the operating
/// system's secure random source. Nothing is known of their values.
#[verifier::external_body]
fn os_random_bytes(len: usize) -> (r: Result<Vec<u8>, rand::Error>)
    ensures
        r is Ok ==> r->Ok_0@.len() == len,
{
    let mut buf = vec![0u8; len];
    rand::rngs::OsRng.try_fill_bytes(&mut buf)?;
    Ok(buf)
}

/// Draws `len` fresh bytes from the operating system's secure random source.
pub fn random_bytes(len: usize) -> (r: Result<Vec<u8>, CryptoError>)
    ensures
        r is Ok ==> r->Ok_0@.len() == len,
        r is Err ==> r->Err_0 == CryptoError::EntropyUnavailable,
{
    match os_random_bytes(len) {
        Ok(bytes) => Ok(bytes),
        Err(_) => Err(CryptoError::EntropyUnavailable),
    }
}

} // verus!
