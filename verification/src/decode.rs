//! Lossy decoding of caller-supplied byte buffers into text.
//!
//! Malformed input is never an error: ill-formed sequences are replaced by
//! the replacement character, so construction never fails.

use vstd::prelude::*;

verus! {

use vstd::utf8::decode_utf8;
use vstd::utf8::valid_utf8;

/// The characters that lossy UTF-16 decoding yields for a sequence of code
/// units: well-formed code units decode normally, unpaired surrogates become
/// the replacement character U+FFFD. The result is a function of the code
/// units alone.
pub uninterp spec fn utf16_decoded(units: Seq<u16>) -> Seq<char>;

/// The characters that lossy UTF-8 decoding yields for a byte sequence:
/// ill-formed sequences become replacement characters U+FFFD. The result is a
/// function of the bytes alone.
pub uninterp spec fn utf8_decoded(bytes: Seq<u8>) -> Seq<char>;

/// Relies on `String::from_utf16_lossy`: it decodes a UTF-16 code-unit slice,
/// replacing ill-formed data with the replacement character, and its result
/// depends on the code units alone.
pub assume_specification[ String::from_utf16_lossy ](v: &[u16]) -> (r: String)
    ensures
        r@ == utf16_decoded(v@),
;

/// Relies on `String::from_utf8_lossy`: it decodes a byte slice as UTF-8,
/// replacing ill-formed sequences with the replacement character; on valid
/// UTF-8 it returns exactly the characters the bytes encode.
#[verifier::external_body]
pub(crate) fn decode_utf8_lossy(bytes: &[u8]) -> (r: String)
    ensures
        r@ == utf8_decoded(bytes@),
        valid_utf8(bytes@) ==> r@ == decode_utf8(bytes@),
{
    String::from_utf8_lossy(bytes).into_owned()
}

} // verus!
