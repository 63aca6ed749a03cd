//! Lossy text decoding of captured output bytes: invalid byte sequences are
//! substituted, never fatal.

use vstd::prelude::*;

verus! {

/// The characters a byte string reads as when decoded as UTF-8 with invalid
/// sequences substituted. The decoding is a function of the bytes alone; it
/// is named here and spoken of only through the wrapper below.
pub uninterp spec fn lossy_utf8(bytes: Seq<u8>) -> Seq<char>;

/// Relies on String::from_utf8_lossy: the result depends on the bytes alone;
/// valid UTF-8 passes through unchanged, so bytes below 0x80 read as
/// themselves; and every character read — a decoded one or a substitute for
/// an invalid sequence — consumes at least one byte, so the text is never
/// longer than the bytes.
#[verifier::external_body]
pub(crate) fn lossy_decode(bytes: &Vec<u8>) -> (r: String)
    ensures
        r@ == lossy_utf8(bytes@),
        r@.len() <= bytes@.len(),
        (forall|i: int| 0 <= i < bytes@.len() ==> bytes@[i] < 128) ==> r@ == bytes@.map(
            |i: int, b: u8| b as char,
        ),
{
    String::from_utf8_lossy(bytes.as_slice()).to_string()
}

} // verus!
