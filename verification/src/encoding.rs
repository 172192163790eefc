//! Trusted wrappers around the text codecs the library consumes: RFC 4648
//! base32 (unpadded) for the shared secret, and percent-encoding for the
//! label and issuer text of a key URI.

use vstd::prelude::*;

verus! {

/// What the unpadded RFC 4648 base32 decoder returns for `s`: the decoded
/// bytes, or nothing when `s` is not valid base32. A pure function of the
/// characters alone.
pub uninterp spec fn base32_decode_rfc4648(s: Seq<char>) -> Option<Seq<u8>>;

/// The unpadded RFC 4648 base32 encoding of `b`; a pure function of the bytes
/// alone.
pub uninterp spec fn base32_rfc4648(b: Seq<u8>) -> Seq<char>;

/// What the percent encoder returns for `s`; a pure function of the
/// characters alone.
pub uninterp spec fn percent_encoded(s: Seq<char>) -> Seq<char>;

/// The characters of the unpadded RFC 4648 base32 alphabet.
pub open spec fn is_base32_char(c: char) -> bool {
    ('A' <= c && c <= 'Z') || ('2' <= c && c <= '7')
}

/// The characters a percent-encoded string can hold: ASCII alphanumerics, the
/// four bytes the encoder keeps verbatim, and the escape character itself.
pub open spec fn is_percent_encoded_char(c: char) -> bool {
    ('A' <= c && c <= 'Z') || ('a' <= c && c <= 'z') || ('0' <= c && c <= '9') || c == '-' || c
        == '.' || c == '_' || c == '~' || c == '%'
}

/// Relies on base32::decode with Alphabet::Rfc4648 { padding: false }: it
/// returns Some(bytes) or None as a function of the input characters alone.
#[verifier::external_body]
pub(crate) fn decode_rfc4648(s: &str) -> (r: Option<Vec<u8>>)
    ensures
        r matches Some(v) ==> base32_decode_rfc4648(s@) == Some(v@),
        r is None ==> base32_decode_rfc4648(s@) is None,
{
    base32::decode(base32::Alphabet::Rfc4648 { padding: false }, s)
}

/// Relies on base32::encode with Alphabet::Rfc4648 { padding: false }: the
/// output is a function of the bytes alone, holds 8 characters for every 5
/// input bytes (the last group shortened, never padded), and draws every
/// character from the RFC 4648 alphabet A-Z, 2-7.
#[verifier::external_body]
pub(crate) fn encode_rfc4648(b: &[u8]) -> (r: String)
    ensures
        r@ == base32_rfc4648(b@),
        r@.len() == (b@.len() * 8 + 4) / 5,
        forall|i: int| 0 <= i < r@.len() ==> is_base32_char(#[trigger] r@[i]),
{
    base32::encode(base32::Alphabet::Rfc4648 { padding: false }, b)
}

/// Relies on urlencoding::encode: it percent-escapes every byte of the UTF-8
/// form of `s` except ASCII alphanumerics and '-', '.', '_', '~', as a
/// function of the characters alone; every input byte yields at least one
/// output character, and only the listed characters and '%' plus hex digits
/// appear in the output.
#[verifier::external_body]
pub(crate) fn percent_encode(s: &str) -> (r: String)
    ensures
        r@ == percent_encoded(s@),
        r@.len() == 0 <==> s@.len() == 0,
        forall|i: int| 0 <= i < r@.len() ==> is_percent_encoded_char(#[trigger] r@[i]),
{
    urlencoding::encode(s).into_owned()
}

} // verus!
