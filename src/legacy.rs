//! Decoding of raw entry names under the Shift_JIS legacy encoding.
use vstd::prelude::*;

verus! {

/// What decoding `raw` as Shift_JIS gives: the text, the name of the encoding
/// that did the decoding (a byte order mark may select another one), and
/// whether a malformed byte sequence was met.
pub uninterp spec fn shift_jis_decode(raw: Seq<u8>) -> (Seq<char>, Seq<char>, bool);

/// The text that `raw` decodes to.
pub open spec fn decoded_name(raw: Seq<u8>) -> Seq<char> {
    shift_jis_decode(raw).0
}

/// Whether decoding `raw` meets a malformed byte sequence.
pub open spec fn is_malformed(raw: Seq<u8>) -> bool {
    shift_jis_decode(raw).2
}

/// Relies on `encoding_rs::Encoding::decode` on `SHIFT_JIS`: the decoded text,
/// the encoding used, and the flag that reports malformed sequences.
#[verifier::external_body]
pub(crate) fn decode_shift_jis(raw: &[u8]) -> (r: (String, String, bool))
    ensures
        (r.0@, r.1@, r.2) == shift_jis_decode(raw@),
{
    let (text, used, malformed) = encoding_rs::SHIFT_JIS.decode(raw);
    (text.into_owned(), used.name().to_string(), malformed)
}

} // verus!
