use base64::engine::general_purpose::STANDARD;
use base64::Engine as _;
use vstd::prelude::*;

use crate::error::{CryptoError, Field};

verus! {

/// The padded standard base64 text of a byte string.
pub uninterp spec fn base64_text(bytes: Seq<u8>) -> Seq<char>;

/// The bytes that a text decodes to as padded standard base64, or `None`
/// where the text is not such an encoding.
pub uninterp spec fn base64_decoded(text: Seq<char>) -> Option<Seq<u8>>;

#[verifier::external_type_specification]
#[verifier::external_body]
pub struct ExDecodeError(base64::DecodeError);

/// Relies on `Engine::encode` of base64's `STANDARD` engine: the padded text
/// of the bytes, which its decoder maps back to the same bytes.
#[verifier::external_body]
fn standard_encode(bytes: &[u8]) -> (r: String)
    ensures
        r@ == base64_text(bytes@),
        base64_decoded(r@) == Some(bytes@),
{
    STANDARD.encode(bytes)
}

/// Relies on `Engine::decode` of base64's `STANDARD` engine: the bytes that
/// the text encodes, or an error where it encodes none.
#[verifier::external_body]
fn standard_decode(text: &str) -> (r: Result<Vec<u8>, base64::DecodeError>)
    ensures
        r is Ok <==> base64_decoded(text@) is Some,
        r is Ok ==> base64_decoded(text@) == Some(r->Ok_0@),
{
    STANDARD.decode(text)
}

/// Encodes bytes as padded standard base64 text.
pub fn encode_bytes(bytes: &[u8]) -> (r: String)
    ensures
        r@ == base64_text(bytes@),
        base64_decoded(r@) == Some(bytes@),
{
    standard_encode(bytes)
}

/// Decodes one transported field, naming the field when the text is not
/// padded standard base64.
pub fn decode_field(text: &str, field: Field) -> (r: Result<Vec<u8>, CryptoError>)
    ensures
        match base64_decoded(text@) {
            Some(bytes) => r is Ok && r->Ok_0@ == bytes,
            None => r == Err::<Vec<u8>, CryptoError>(CryptoError::InvalidBase64(field)),
        },
{
    match standard_decode(text) {
        Ok(bytes) => Ok(bytes),
        Err(_) => Err(CryptoError::InvalidBase64(field)),
    }
}

} // verus!
