//! Context-bound authenticated encryption of short text payloads.
//!
//! A caller-held master secret is stretched per call into a session key with
//! Argon2id over a fresh random salt; the payload is sealed with AES-256-GCM
//! under a fresh random nonce, with a usage context as associated data; the
//! three resulting byte strings travel as padded standard base64 text.
pub mod cipher;
pub mod codec;
pub mod entropy;
pub mod envelope;
pub mod error;
pub mod kdf;

pub use envelope::{decrypt_with_context, encrypt_with_context, EncryptedEnvelope};
pub use error::{CryptoError, Field};
