//! Decoding driver log bytes into text.

use vstd::prelude::*;

verus! {

/// The text that a byte sequence decodes to under UTF-8, if it is valid.
pub uninterp spec fn utf8_decode(bytes: Seq<u8>) -> Option<Seq<char>>;

/// Relies on `String::from_utf8`: returns the bytes' text exactly when
/// they are valid UTF-8, and a non-empty input decodes to non-empty text
/// (the string holds the very bytes given).
#[verifier::external_body]
pub(crate) fn bytes_to_string(bytes: Vec<u8>) -> (r: Option<String>)
    ensures
        r is Some <==> utf8_decode(bytes@) is Some,
        r matches Some(s) ==> utf8_decode(bytes@) == Some(s@),
        bytes@.len() > 0 && r is Some ==> r.unwrap()@.len() > 0,
{
    String::from_utf8(bytes).ok()
}

} // verus!
