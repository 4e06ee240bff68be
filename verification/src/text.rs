//! Text decoding for response payloads.
//!
//! NNTP does not guarantee that response bytes are valid text, so parsing
//! never decodes. These helpers decode on demand, strictly or lossily.

use vstd::prelude::*;

verus! {

/// The characters that a byte sequence decodes to as UTF-8, or `None` where
/// it is not valid UTF-8. Computed by the standard library's decoder.
pub uninterp spec fn utf8_chars(bytes: Seq<u8>) -> Option<Seq<char>>;

/// The characters that a byte sequence decodes to under lossy UTF-8
/// decoding, invalid sequences replaced. Computed by the standard library's
/// decoder.
pub uninterp spec fn utf8_lossy_chars(bytes: Seq<u8>) -> Seq<char>;

/// Relies on `String::from_utf8`: returns the decoded string exactly when
/// the bytes are valid UTF-8.
#[verifier::external_body]
pub fn utf8_decode(bytes: Vec<u8>) -> (r: Option<String>)
    ensures
        r is Some <==> utf8_chars(bytes@) is Some,
        r matches Some(s) ==> utf8_chars(bytes@) == Some(s@),
{
    String::from_utf8(bytes).ok()
}

/// Relies on `String::from_utf8_lossy`: replaces invalid sequences with the
/// replacement character and returns valid UTF-8 input unchanged.
#[verifier::external_body]
pub fn utf8_decode_lossy(bytes: &Vec<u8>) -> (r: String)
    ensures
        r@ == utf8_lossy_chars(bytes@),
        utf8_chars(bytes@) matches Some(cs) ==> r@ == cs,
{
    String::from_utf8_lossy(bytes.as_slice()).into_owned()
}

} // verus!
