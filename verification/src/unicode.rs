//! What is left to the standard library: lower-casing a text, and reading a
//! text from bytes that may not be well-formed UTF-8.
//!
//! Nothing in this file is proved. Each item states what the standard
//! library's documentation says of the function it stands for.
use vstd::prelude::*;
use vstd::utf8::encode_utf8;

verus! {

/// The lower-case form of a text under Unicode's case mapping.
///
/// The mapping is the one that `str::to_lowercase` applies. It is left
/// without a definition here: the contracts that mention it say which text
/// is lower-cased, not what the mapping gives.
pub uninterp spec fn lowercase(s: Seq<char>) -> Seq<char>;

/// `str::to_lowercase` returns the lower-case equivalent of the string slice
/// as a new `String`. The result depends on the characters alone; that it is
/// the text named by [`lowercase`] is taken on trust.
pub assume_specification[ str::to_lowercase ](s: &str) -> (r: String)
    ensures
        r@ == lowercase(s@),
;

/// The text that a run of bytes denotes when it is read as UTF-8 and every
/// ill-formed sequence in it is replaced by U+FFFD.
///
/// The replacement is the one that `String::from_utf8_lossy` makes. It is
/// left without a definition here.
pub uninterp spec fn lossy_text(bytes: Seq<u8>) -> Seq<char>;

/// `String::from_utf8_lossy` converts a slice of bytes to a string and
/// replaces invalid UTF-8 sequences by U+FFFD. The result depends on the
/// bytes alone, and bytes that are the UTF-8 encoding of a text give that
/// text back unchanged. Both are taken on trust.
#[verifier::external_body]
pub(crate) fn decode_lossy(bytes: &[u8]) -> (r: String)
    ensures
        r@ == lossy_text(bytes@),
        forall|text: Seq<char>| bytes@ == #[trigger] encode_utf8(text) ==> r@ == text,
{
    String::from_utf8_lossy(bytes).into_owned()
}

} // verus!
