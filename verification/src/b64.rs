//! Standard base64 (RFC 4648 alphabet, with `=` padding), by the `base64` crate.
use vstd::prelude::*;

verus! {

/// The standard base64 encoding of `bytes`.
pub uninterp spec fn base64_standard(bytes: Seq<u8>) -> Seq<char>;

/// The bytes that the standard base64 text `text` (given by its bytes) decodes to,
/// `None` when it is not valid standard base64.
pub uninterp spec fn base64_standard_decoded(text: Seq<u8>) -> Option<Seq<u8>>;

/// Declares `base64::DecodeError`, the reason a text is not valid base64.
#[verifier::external_type_specification]
#[verifier::external_body]
pub struct ExDecodeError(base64::DecodeError);

/// Calls `base64::engine::general_purpose::STANDARD.encode(bytes)`: the padded standard
/// encoding, four characters for every three bytes or part of three. The encoder
/// panics when that length does not fit in `usize`, hence the bound.
#[verifier::external_body]
pub(crate) fn base64_encode(bytes: &[u8]) -> (res: String)
    requires
        bytes@.len() / 3 * 4 + 4 <= usize::MAX,
    ensures
        res@ == base64_standard(bytes@),
        res@.len() == 4 * ((bytes@.len() + 2) / 3),
{
    base64::Engine::encode(&base64::engine::general_purpose::STANDARD, bytes)
}

/// Calls `base64::engine::general_purpose::STANDARD.decode(text)` on the bytes of
/// `text`: the decoded bytes, or the crate's error when the text is not valid; which
/// error variant comes back is not stated.
#[verifier::external_body]
pub(crate) fn base64_decode(text: &str) -> (res: Result<Vec<u8>, base64::DecodeError>)
    ensures
        match res {
            Ok(b) => base64_standard_decoded(vstd::utf8::encode_utf8(text@)) == Some(b@),
            Err(_) => base64_standard_decoded(vstd::utf8::encode_utf8(text@)) is None,
        },
{
    base64::Engine::decode(&base64::engine::general_purpose::STANDARD, text)
}

} // verus!
