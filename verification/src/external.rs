//! Trusted boundary to std and outside crates: base64, the YAML scalar
//! parser, UTF-8 conversion, and `String` growth.

use vstd::prelude::*;
use vstd::utf8::{decode_utf8, encode_utf8, valid_utf8};
use base64::Engine;

verus! {

/// The bytes that unpadded URL-safe base64 (with canonical trailing bits)
/// decodes `text` to, or `None` when `text` is not such an encoding.
pub uninterp spec fn base64_url_nopad_decoding(text: Seq<u8>) -> Option<Seq<u8>>;

/// The unpadded URL-safe base64 encoding of `data`.
pub uninterp spec fn base64_url_nopad_encoding(data: Seq<u8>) -> Seq<char>;

/// What `noyalib::from_str::<String>` yields for `text`: the string of the
/// single YAML scalar document, or `None` when `text` does not parse to a
/// string.
pub uninterp spec fn yaml_string_document(text: Seq<char>) -> Option<Seq<char>>;

pub open spec fn opt_bytes_view(o: Option<Vec<u8>>) -> Option<Seq<u8>> {
    match o {
        Some(v) => Some(v@),
        None => None,
    }
}

pub open spec fn opt_string_view(o: Option<String>) -> Option<Seq<char>> {
    match o {
        Some(s) => Some(s@),
        None => None,
    }
}

/// Calls `base64::engine::general_purpose::URL_SAFE_NO_PAD.decode`.
/// Trusted: the result is the named decoding of the input bytes; the
/// decoding rules themselves are not restated here.
#[verifier::external_body]
pub(crate) fn base64_url_decode(text: &[u8]) -> (r: Option<Vec<u8>>)
    ensures
        opt_bytes_view(r) == base64_url_nopad_decoding(text@),
{
    base64::engine::general_purpose::URL_SAFE_NO_PAD.decode(text).ok()
}

/// Calls `base64::engine::general_purpose::URL_SAFE_NO_PAD.encode`, which
/// panics only where the encoded length does not fit in `usize`.
/// Trusted: the result is the named encoding of `data`; it has the length
/// that `base64::encoded_len` gives without padding (four characters for
/// every three bytes, two or three for a trailing one or two); and decoding
/// that encoding's UTF-8 bytes gives `data` back.
#[verifier::external_body]
pub(crate) fn base64_url_encode(data: &[u8]) -> (r: String)
    requires
        data.len() <= usize::MAX / 2,
    ensures
        r@ == base64_url_nopad_encoding(data@),
        r@.len() == (4 * data@.len() + 2) / 3,
        base64_url_nopad_decoding(encode_utf8(r@)) == Some(data@),
{
    base64::engine::general_purpose::URL_SAFE_NO_PAD.encode(data)
}

/// Calls `noyalib::from_str::<String>`.
/// Trusted: the result is the named parse of `text`; YAML scalar
/// resolution is not restated here.
#[verifier::external_body]
pub(crate) fn parse_yaml_string(text: &str) -> (r: Option<String>)
    ensures
        opt_string_view(r) == yaml_string_document(text@),
{
    noyalib::from_str::<String>(text).ok()
}

/// Calls `core::str::from_utf8`.
/// Trusted: it succeeds exactly on well-formed UTF-8 and then yields the
/// decoded characters.
#[verifier::external_body]
pub(crate) fn str_from_utf8(bytes: &[u8]) -> (r: Option<&str>)
    ensures
        r is Some <==> valid_utf8(bytes@),
        r matches Some(s) ==> s@ == decode_utf8(bytes@),
{
    core::str::from_utf8(bytes).ok()
}

/// Calls `String::push`.
/// Trusted: it appends the one character.
#[verifier::external_body]
pub(crate) fn push_char(s: &mut String, c: char)
    ensures
        final(s)@ == old(s)@.push(c),
{
    s.push(c)
}

/// Every character of `s`, in order.
pub fn chars_of(s: &str) -> (r: Vec<char>)
    ensures
        r@ == s@,
{
    let mut out: Vec<char> = Vec::new();
    proof {
        broadcast use vstd::string::axiom_spec_iter;
    }
    for c in it: s.chars()
        invariant
            out@ == it.seq().subrange(0, it.index() as int),
    {
        out.push(c);
    }
    assert(out@ =~= s@);
    out
}

/// A `String` holding exactly `chars`.
pub fn string_of_chars(chars: &[char]) -> (r: String)
    ensures
        r@ == chars@,
{
    let mut out = String::new();
    let mut i: usize = 0;
    while i < chars.len()
        invariant
            i <= chars.len(),
            out@ == chars@.subrange(0, i as int),
        decreases chars.len() - i,
    {
        push_char(&mut out, chars[i]);
        i = i + 1;
        assert(out@ =~= chars@.subrange(0, i as int));
    }
    assert(chars@.subrange(0, chars.len() as int) =~= chars@);
    out
}

} // verus!
