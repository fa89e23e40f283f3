use base64::Engine;
use vstd::prelude::*;
use vstd::utf8::*;

verus! {

/// The base64 text (standard alphabet, padded) that stands for `data`.
pub uninterp spec fn base64_text(data: Seq<u8>) -> Seq<char>;

/// The bytes that the base64 text `text` stands for, if it is valid base64
/// text (standard alphabet, padded).
pub uninterp spec fn base64_data(text: Seq<u8>) -> Option<Seq<u8>>;

/// The byte that separates the two fields of a password record: a colon.
pub const SEPARATOR: u8 = 0x3a;

/// Calls `base64::Engine::encode` on the engine `general_purpose::STANDARD`.
///
/// Trusted, not proved: the text returned is the encoding named by
/// `base64_text`; decoding its bytes with the same engine gives the input
/// back; and, as the standard alphabet and its padding hold letters,
/// digits, `+`, `/` and `=` only, no byte of it is a colon.
#[verifier::external_body]
pub(crate) fn base64_encode(data: &[u8]) -> (text: String)
    ensures
        text@ == base64_text(data@),
        base64_data(encode_utf8(text@)) == Some(data@),
        forall|i: int| 0 <= i < encode_utf8(text@).len() ==> encode_utf8(text@)[i] != SEPARATOR,
{
    base64::engine::general_purpose::STANDARD.encode(data)
}

/// Calls `base64::Engine::decode` on the engine `general_purpose::STANDARD`.
///
/// Trusted, not proved: the call succeeds exactly on the texts for which
/// `base64_data` names bytes, and then returns those bytes.
#[verifier::external_body]
pub(crate) fn base64_decode(text: &[u8]) -> (data: Option<Vec<u8>>)
    ensures
        match data {
            Some(bytes) => base64_data(text@) == Some(bytes@),
            None => base64_data(text@) is None,
        },
{
    base64::engine::general_purpose::STANDARD.decode(text).ok()
}

/// Calls `String::from_utf8`.
///
/// Trusted, not proved: the call succeeds exactly on valid UTF-8, and the
/// string returned holds the characters that the bytes encode.
#[verifier::external_body]
pub(crate) fn string_from_utf8(bytes: Vec<u8>) -> (text: Option<String>)
    ensures
        text is Some <==> valid_utf8(bytes@),
        text matches Some(s) ==> s@ == decode_utf8(bytes@),
{
    String::from_utf8(bytes).ok()
}

} // verus!
