use vstd::prelude::*;
use vstd::utf8::{decode_utf8, valid_utf8};

use gix::bstr::ByteSlice;

verus! {

/// What bstr's `ByteSlice::to_str_lossy` makes of a byte string: the text
/// it encodes, with each invalid UTF-8 sequence replaced by U+FFFD.
pub uninterp spec fn lossy_text(bytes: Seq<u8>) -> Seq<char>;

/// Converts bytes to text with bstr's `ByteSlice::to_str_lossy` (as gix
/// re-exports it). Claimed: the result is what `lossy_text` names for the
/// bytes, and bytes that are valid UTF-8 come back as the text they encode
/// (bstr documents that valid UTF-8 is returned unchanged).
#[verifier::external_body]
pub(crate) fn text_of_bytes(bytes: &[u8]) -> (text: String)
    ensures
        text@ == lossy_text(bytes@),
        valid_utf8(bytes@) ==> text@ == decode_utf8(bytes@),
{
    bytes.to_str_lossy().into_owned()
}

} // verus!
