//! Byte/text conversions for archival data.
//!
//! Captured bodies and header values are raw bytes and are not guaranteed to
//! be valid text, while the in-memory content and the durable textual form
//! are text. Decoding is therefore lossy: invalid byte sequences are replaced
//! rather than rejected. Re-encoding recovers the original bytes exactly when
//! they were valid text; this is a documented fidelity limitation otherwise.

use vstd::prelude::*;

verus! {

/// The text obtained from `b` by UTF-8 decoding with lossy replacement of
/// invalid byte sequences, as computed by `String::from_utf8_lossy`.
pub uninterp spec fn lossy_decode(b: Seq<u8>) -> Seq<char>;

/// The UTF-8 encoding of `s`, as laid out by `str::as_bytes`.
pub uninterp spec fn encode_utf8(s: Seq<char>) -> Seq<u8>;

/// Whether `b` is a valid UTF-8 encoding of some text.
pub uninterp spec fn is_utf8(b: Seq<u8>) -> bool;

/// Bytes that decoding does not damage: re-encoding the decoded text gives
/// the bytes back. Every valid UTF-8 byte sequence is such.
pub open spec fn valid_text(b: Seq<u8>) -> bool {
    encode_utf8(lossy_decode(b)) == b
}

/// Relies on `String::from_utf8_lossy`: the result is a function of the bytes
/// alone, and when the bytes are valid UTF-8 it is exactly the text they
/// encode, so re-encoding it gives the bytes back.
#[verifier::external_body]
pub fn utf8_lossy(b: &[u8]) -> (s: String)
    ensures
        s@ == lossy_decode(b@),
        is_utf8(b@) ==> encode_utf8(s@) == b@,
{
    String::from_utf8_lossy(b).into_owned()
}

/// Relies on `str::as_bytes`: the returned bytes are the UTF-8 encoding of
/// `s`, a function of its characters alone, and are themselves valid UTF-8
/// that decodes (also lossily) back to `s`.
#[verifier::external_body]
pub fn utf8_encode(s: &str) -> (b: Vec<u8>)
    ensures
        b@ == encode_utf8(s@),
        is_utf8(b@),
        lossy_decode(b@) == s@,
{
    s.as_bytes().to_vec()
}

} // verus!
