use vstd::prelude::*;

verus! {

/// The transported field that a base64 failure refers to.
#[derive(Clone, Copy, Debug, PartialEq, Eq, Structural)]
pub enum Field {
    Ciphertext,
    Salt,
    Nonce,
}

/// Every way an encryption or decryption call can fail.
///
/// Authentication failures are deliberately not broken down any further:
/// a wrong key, a wrong context and a tampered ciphertext all look the same.
#[derive(Clone, Debug, PartialEq, Eq)]
pub enum CryptoError {
    /// The named field is not valid padded standard base64.
    InvalidBase64(Field),
    /// The decoded nonce is not exactly twelve bytes long.
    InvalidNonceLength,
    /// The key derivation function refused its inputs; the text says why.
    KeyDerivationFailed(String),
    /// The tag did not verify under the derived key, nonce and context.
    AuthenticationFailed,
    /// The authenticated plaintext is not well-formed UTF-8.
    InvalidUtf8,
    /// The payload or the context is longer than the cipher accepts.
    EncryptionFailed,
    /// The operating system's random source could not be read.
    EntropyUnavailable,
}

} // verus!
