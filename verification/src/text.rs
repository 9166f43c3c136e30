//! Text out of bytes.
use vstd::prelude::*;

verus! {

/// The text that `String::from_utf8_lossy` makes of bytes: their characters, with U+FFFD in the
/// place of what is not UTF-8.
pub uninterp spec fn lossy_text(bytes: Seq<u8>) -> Seq<char>;

/// Calls `String::from_utf8_lossy`. Claimed of it: the text depends on the bytes alone, and
/// bytes that are UTF-8 become the characters that they encode. Which characters come out of
/// other bytes is left to the name.
#[verifier::external_body]
pub(crate) fn text_from_utf8_lossy(bytes: &[u8]) -> (text: String)
    ensures
        text@ == lossy_text(bytes@),
        vstd::utf8::valid_utf8(bytes@) ==> text@ == vstd::utf8::decode_utf8(bytes@),
{
    String::from_utf8_lossy(bytes).into_owned()
}

} // verus!
