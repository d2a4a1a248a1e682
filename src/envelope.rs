use vstd::prelude::*;
use vstd::utf8::{decode_utf8, encode_utf8, encode_utf8_decode_utf8, encode_utf8_valid_utf8, valid_utf8};

use crate::cipher::{gcm_accepts, gcm_open, gcm_seal, open, seal, NONCE_LEN};
use crate::codec::{base64_decoded, base64_text, decode_field, encode_bytes};
use crate::entropy::random_bytes;
use crate::error::{CryptoError, Field};
use crate::kdf::{argon2id_key, derive_key, kdf_accepts, MAX_INPUT_LEN};

verus! {

/// Length in bytes of the random salt drawn for each encryption.
pub const SALT_LEN: usize = 16;

/// The three transported fields of one encryption, each as padded standard
/// base64 text.
#[derive(Clone, Debug, PartialEq, Eq)]
pub struct EncryptedEnvelope {
    /// The sealed plaintext with its authentication tag.
    pub ciphertext: String,
    /// The salt that the session key was derived with.
    pub salt: String,
    /// The nonce that the plaintext was sealed under.
    pub nonce: String,
}

#[verifier::external_type_specification]
#[verifier::external_body]
pub struct ExFromUtf8Error(std::string::FromUtf8Error);

/// Relies on `String::from_utf8`: it accepts exactly the well-formed UTF-8
/// byte strings, and the text is what they encode.
pub assume_specification[ std::string::String::from_utf8 ](vec: Vec<u8>) -> (r: Result<
    String,
    std::string::FromUtf8Error,
>)
    ensures
        r is Ok <==> valid_utf8(vec@),
        r is Ok ==> r->Ok_0@ == decode_utf8(vec@),
;

/// The session key for a master secret and a salt.
pub open spec fn session_key(master_key: Seq<char>, salt: Seq<u8>) -> Seq<u8> {
    argon2id_key(encode_utf8(master_key), salt)
}

/// The envelope is the encryption of `plaintext` under `master_key` and
/// `context` with this salt and this nonce.
pub open spec fn is_envelope_for(
    env: EncryptedEnvelope,
    plaintext: Seq<char>,
    master_key: Seq<char>,
    context: Seq<char>,
    salt: Seq<u8>,
    nonce: Seq<u8>,
) -> bool {
    &&& env.salt@ == base64_text(salt)
    &&& env.nonce@ == base64_text(nonce)
    &&& env.ciphertext@ == base64_text(
        gcm_seal(session_key(master_key, salt), nonce, encode_utf8(context), encode_utf8(plaintext)),
    )
}

/// The envelope's fields decode to a salt, a nonce of the right length and
/// a sealed message that authenticates, under the session key and the
/// context, to the bytes of `plaintext`.
pub open spec fn opens_to(
    env: EncryptedEnvelope,
    plaintext: Seq<char>,
    master_key: Seq<char>,
    context: Seq<char>,
) -> bool {
    exists|salt: Seq<u8>, nonce: Seq<u8>, sealed: Seq<u8>|
        #![trigger gcm_open(session_key(master_key, salt), nonce, encode_utf8(context), sealed)]
        {
            &&& base64_decoded(env.salt@) == Some(salt)
            &&& base64_decoded(env.nonce@) == Some(nonce)
            &&& base64_decoded(env.ciphertext@) == Some(sealed)
            &&& nonce.len() == NONCE_LEN
            &&& kdf_accepts(encode_utf8(master_key), salt)
            &&& gcm_open(session_key(master_key, salt), nonce, encode_utf8(context), sealed) == Some(
                encode_utf8(plaintext),
            )
        }
}

/// The error that sealing reports when it does not succeed.
pub open spec fn seal_error(
    plaintext: Seq<char>,
    master_key: Seq<char>,
    context: Seq<char>,
    salt: Seq<u8>,
    e: CryptoError,
) -> bool {
    if !kdf_accepts(encode_utf8(master_key), salt) {
        e is KeyDerivationFailed
    } else {
        !gcm_accepts(encode_utf8(context), encode_utf8(plaintext)) && e
            == CryptoError::EncryptionFailed
    }
}

/// The plaintext recovered from decoded fields, or `None` where any check
/// along the way fails.
pub open spec fn opened_bytes(
    sealed: Seq<u8>,
    salt: Seq<u8>,
    nonce: Seq<u8>,
    master_key: Seq<char>,
    context: Seq<char>,
) -> Option<Seq<char>> {
    if nonce.len() != NONCE_LEN || !kdf_accepts(encode_utf8(master_key), salt) {
        None
    } else {
        match gcm_open(session_key(master_key, salt), nonce, encode_utf8(context), sealed) {
            Some(msg) => if valid_utf8(msg) {
                Some(decode_utf8(msg))
            } else {
                None
            },
            None => None,
        }
    }
}

/// The error that opening decoded fields reports: the first check that
/// fails, in the order nonce length, key derivation, tag, UTF-8.
pub open spec fn open_error(
    sealed: Seq<u8>,
    salt: Seq<u8>,
    nonce: Seq<u8>,
    master_key: Seq<char>,
    context: Seq<char>,
    e: CryptoError,
) -> bool {
    if nonce.len() != NONCE_LEN {
        e == CryptoError::InvalidNonceLength
    } else if !kdf_accepts(encode_utf8(master_key), salt) {
        e is KeyDerivationFailed
    } else {
        match gcm_open(session_key(master_key, salt), nonce, encode_utf8(context), sealed) {
            Some(msg) => !valid_utf8(msg) && e == CryptoError::InvalidUtf8,
            None => e == CryptoError::AuthenticationFailed,
        }
    }
}

/// The plaintext recovered from the transported texts, or `None` where any
/// check along the way fails.
pub open spec fn opened_plaintext(
    ciphertext: Seq<char>,
    salt: Seq<char>,
    nonce: Seq<char>,
    master_key: Seq<char>,
    context: Seq<char>,
) -> Option<Seq<char>> {
    match (base64_decoded(ciphertext), base64_decoded(salt), base64_decoded(nonce)) {
        (Some(c), Some(s), Some(n)) => opened_bytes(c, s, n, master_key, context),
        _ => None,
    }
}

/// The error that decryption of the transported texts reports: a field that
/// is not base64 (ciphertext, then salt, then nonce), else as `open_error`.
pub open spec fn decrypt_error(
    ciphertext: Seq<char>,
    salt: Seq<char>,
    nonce: Seq<char>,
    master_key: Seq<char>,
    context: Seq<char>,
    e: CryptoError,
) -> bool {
    match (base64_decoded(ciphertext), base64_decoded(salt), base64_decoded(nonce)) {
        (None, _, _) => e == CryptoError::InvalidBase64(Field::Ciphertext),
        (Some(_), None, _) => e == CryptoError::InvalidBase64(Field::Salt),
        (Some(_), Some(_), None) => e == CryptoError::InvalidBase64(Field::Nonce),
        (Some(c), Some(s), Some(n)) => open_error(c, s, n, master_key, context, e),
    }
}

/// Seals `plaintext` under the key derived from `master_key` and `salt`,
/// with `nonce`, binding `aad_context`, and encodes the three results.
pub fn seal_envelope(
    plaintext: &str,
    master_key: &str,
    aad_context: &str,
    salt: &[u8],
    nonce: &[u8],
) -> (r: Result<EncryptedEnvelope, CryptoError>)
    requires
        salt@.len() == SALT_LEN,
        nonce@.len() == NONCE_LEN,
    ensures
        r is Ok <==> kdf_accepts(encode_utf8(master_key@), salt@) && gcm_accepts(
            encode_utf8(aad_context@),
            encode_utf8(plaintext@),
        ),
        r is Ok ==> is_envelope_for(r->Ok_0, plaintext@, master_key@, aad_context@, salt@, nonce@),
        r is Ok ==> opens_to(r->Ok_0, plaintext@, master_key@, aad_context@),
        r is Err ==> seal_error(plaintext@, master_key@, aad_context@, salt@, r->Err_0),
{
    let key = match derive_key(master_key, salt) {
        Ok(key) => key,
        Err(e) => return Err(e),
    };
    let sealed = match seal(&key, nonce, aad_context.as_bytes(), plaintext.as_bytes()) {
        Ok(sealed) => sealed,
        Err(e) => return Err(e),
    };
    let env = EncryptedEnvelope {
        ciphertext: encode_bytes(sealed.as_slice()),
        salt: encode_bytes(salt),
        nonce: encode_bytes(nonce),
    };
    assert(gcm_open(
        session_key(master_key@, salt@),
        nonce@,
        encode_utf8(aad_context@),
        sealed@,
    ) == Some(encode_utf8(plaintext@)));
    Ok(env)
}

/// Encrypts `plaintext` under a key derived from `master_key`, bound to
/// `aad_context`, with a fresh random salt and nonce.
pub fn encrypt_with_context(plaintext: &str, master_key: &str, aad_context: &str) -> (r: Result<
    EncryptedEnvelope,
    CryptoError,
>)
    ensures
        r is Ok ==> exists|salt: Seq<u8>, nonce: Seq<u8>|
            salt.len() == SALT_LEN && nonce.len() == NONCE_LEN && #[trigger] is_envelope_for(
                r->Ok_0,
                plaintext@,
                master_key@,
                aad_context@,
                salt,
                nonce,
            ),
        r is Ok ==> opens_to(r->Ok_0, plaintext@, master_key@, aad_context@),
        r is Err ==> {
            ||| r->Err_0 == CryptoError::EntropyUnavailable
            ||| encode_utf8(master_key@).len() > MAX_INPUT_LEN && r->Err_0 is KeyDerivationFailed
            ||| encode_utf8(master_key@).len() <= MAX_INPUT_LEN && !gcm_accepts(
                encode_utf8(aad_context@),
                encode_utf8(plaintext@),
            ) && r->Err_0 == CryptoError::EncryptionFailed
        },
{
    let salt = match random_bytes(SALT_LEN) {
        Ok(bytes) => bytes,
        Err(e) => return Err(e),
    };
    let nonce = match random_bytes(NONCE_LEN) {
        Ok(bytes) => bytes,
        Err(e) => return Err(e),
    };
    let r = seal_envelope(plaintext, master_key, aad_context, salt.as_slice(), nonce.as_slice());
    assert(r is Ok ==> is_envelope_for(
        r->Ok_0,
        plaintext@,
        master_key@,
        aad_context@,
        salt@,
        nonce@,
    ));
    r
}

/// Opens decoded fields: checks the nonce length, derives the session key,
/// authenticates and decrypts, and reads the result as UTF-8 text.
pub fn open_envelope(
    sealed: &[u8],
    salt: &[u8],
    nonce: &[u8],
    master_key: &str,
    aad_context: &str,
) -> (r: Result<String, CryptoError>)
    ensures
        r is Ok <==> opened_bytes(sealed@, salt@, nonce@, master_key@, aad_context@) is Some,
        r is Ok ==> opened_bytes(sealed@, salt@, nonce@, master_key@, aad_context@) == Some(
            r->Ok_0@,
        ),
        r is Err ==> open_error(sealed@, salt@, nonce@, master_key@, aad_context@, r->Err_0),
{
    if nonce.len() != NONCE_LEN {
        return Err(CryptoError::InvalidNonceLength);
    }
    let key = match derive_key(master_key, salt) {
        Ok(key) => key,
        Err(e) => return Err(e),
    };
    let msg = match open(&key, nonce, aad_context.as_bytes(), sealed) {
        Ok(msg) => msg,
        Err(e) => return Err(e),
    };
    match String::from_utf8(msg) {
        Ok(text) => Ok(text),
        Err(_) => Err(CryptoError::InvalidUtf8),
    }
}

/// Decrypts the three transported texts of an envelope under `master_key`
/// and `aad_context`.
pub fn decrypt_with_context(
    ciphertext_b64: &str,
    salt_b64: &str,
    nonce_b64: &str,
    master_key: &str,
    aad_context: &str,
) -> (r: Result<String, CryptoError>)
    ensures
        r is Ok <==> opened_plaintext(
            ciphertext_b64@,
            salt_b64@,
            nonce_b64@,
            master_key@,
            aad_context@,
        ) is Some,
        r is Ok ==> opened_plaintext(
            ciphertext_b64@,
            salt_b64@,
            nonce_b64@,
            master_key@,
            aad_context@,
        ) == Some(r->Ok_0@),
        r is Err ==> decrypt_error(
            ciphertext_b64@,
            salt_b64@,
            nonce_b64@,
            master_key@,
            aad_context@,
            r->Err_0,
        ),
{
    let sealed = match decode_field(ciphertext_b64, Field::Ciphertext) {
        Ok(bytes) => bytes,
        Err(e) => return Err(e),
    };
    let salt = match decode_field(salt_b64, Field::Salt) {
        Ok(bytes) => bytes,
        Err(e) => return Err(e),
    };
    let nonce = match decode_field(nonce_b64, Field::Nonce) {
        Ok(bytes) => bytes,
        Err(e) => return Err(e),
    };
    open_envelope(sealed.as_slice(), salt.as_slice(), nonce.as_slice(), master_key, aad_context)
}

/// Decryption inverts encryption: an envelope that opens to a plaintext
/// under a master key and a context, as every envelope that encryption
/// returns does, decrypts under that key and context to that plaintext.
pub proof fn lemma_round_trip(
    env: EncryptedEnvelope,
    plaintext: Seq<char>,
    master_key: Seq<char>,
    context: Seq<char>,
)
    requires
        opens_to(env, plaintext, master_key, context),
    ensures
        opened_plaintext(env.ciphertext@, env.salt@, env.nonce@, master_key, context) == Some(
            plaintext,
        ),
{
    let (salt, nonce, sealed) = choose|salt: Seq<u8>, nonce: Seq<u8>, sealed: Seq<u8>|
        #![trigger gcm_open(session_key(master_key, salt), nonce, encode_utf8(context), sealed)]
        {
            &&& base64_decoded(env.salt@) == Some(salt)
            &&& base64_decoded(env.nonce@) == Some(nonce)
            &&& base64_decoded(env.ciphertext@) == Some(sealed)
            &&& nonce.len() == NONCE_LEN
            &&& kdf_accepts(encode_utf8(master_key), salt)
            &&& gcm_open(session_key(master_key, salt), nonce, encode_utf8(context), sealed)
                == Some(encode_utf8(plaintext))
        };
    encode_utf8_valid_utf8(plaintext);
    encode_utf8_decode_utf8(plaintext);
}

} // verus!
