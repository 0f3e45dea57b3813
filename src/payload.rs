//! The payload decoder: a subscription body is base64 text or plain text.
use crate::text::{chars_of, is_ws, string_of, trim, trim_bounds, trim_end, trim_start};
use base64::Engine;
use vstd::prelude::*;
use vstd::utf8::{decode_utf8, encode_utf8, valid_utf8};

verus! {

/// What strict standard-alphabet base64 decoding (with padding) makes of
/// `s`; `None` where it rejects `s`.
pub uninterp spec fn b64_decode(s: Seq<char>) -> Option<Seq<u8>>;

/// Relies on `base64::engine::general_purpose::STANDARD.decode`: the result
/// depends on the text alone.
#[verifier::external_body]
pub(crate) fn b64_standard(s: &str) -> (r: Option<Vec<u8>>)
    ensures
        match r {
            Some(b) => b64_decode(s@) == Some(b@),
            None => b64_decode(s@) is None,
        },
{
    base64::engine::general_purpose::STANDARD.decode(s).ok()
}

/// Relies on `String::from_utf8`: it accepts exactly the valid UTF-8 byte
/// strings and decodes them.
#[verifier::external_body]
pub(crate) fn utf8_text(b: Vec<u8>) -> (r: Option<String>)
    ensures
        match r {
            Some(s) => valid_utf8(b@) && s@ == decode_utf8(b@),
            None => !valid_utf8(b@),
        },
{
    String::from_utf8(b).ok()
}

/// The UTF-8 text that `s` encodes in base64, if any.
pub open spec fn b64_text(s: Seq<char>) -> Option<Seq<char>> {
    match b64_decode(s) {
        Some(b) => if valid_utf8(b) {
            Some(decode_utf8(b))
        } else {
            None
        },
        None => None,
    }
}

/// The text of a subscription body: its trimmed form decoded from base64
/// when that yields UTF-8 text, the trimmed form itself otherwise.
pub open spec fn decode_payload_spec(body: Seq<char>) -> Seq<char> {
    match b64_text(trim(body)) {
        Some(t) => t,
        None => trim(body),
    }
}

/// The base64 text of `s` decoded as UTF-8, if `s` is valid base64 of valid
/// UTF-8.
pub fn base64_text(s: &str) -> (r: Option<String>)
    ensures
        match r {
            Some(t) => b64_text(s@) == Some(t@),
            None => b64_text(s@) is None,
        },
{
    match b64_standard(s) {
        Some(bytes) => utf8_text(bytes),
        None => None,
    }
}

/// Decodes a subscription body; never fails.
pub fn decode_payload(body: &str) -> (r: String)
    ensures
        r@ == decode_payload_spec(body@),
{
    let v = chars_of(body);
    let (lo, hi) = trim_bounds(&v);
    let trimmed = string_of(&v, lo, hi);
    match base64_text(trimmed.as_str()) {
        Some(t) => t,
        None => trimmed,
    }
}

/// A character of the standard base64 alphabet, or the padding `=`.
pub open spec fn is_b64_char(c: char) -> bool {
    ||| ('A' <= c && c <= 'Z')
    ||| ('a' <= c && c <= 'z')
    ||| ('0' <= c && c <= '9')
    ||| c == '+'
    ||| c == '/'
    ||| c == '='
}

/// Relies on `base64::engine::general_purpose::STANDARD.encode`: the output
/// is written in the standard alphabet with canonical padding, and
/// `STANDARD.decode` gives the encoded bytes back from it.
#[verifier::external_body]
pub(crate) fn b64_encode(s: &str) -> (r: String)
    ensures
        b64_decode(r@) == Some(encode_utf8(s@)),
        forall|i: int| 0 <= i < r@.len() ==> is_b64_char(#[trigger] r@[i]),
{
    base64::engine::general_purpose::STANDARD.encode(s)
}

/// Encodes `text` as a base64 subscription body, the form that
/// `decode_payload` turns back into `text`.
pub fn encode_payload(text: &str) -> (r: String)
    ensures
        decode_payload_spec(r@) == text@,
{
    let r = b64_encode(text);
    proof {
        let s = r@;
        if s.len() > 0 {
            assert(is_b64_char(s[0]) && !is_ws(s[0]));
            assert(is_b64_char(s.last()) && !is_ws(s.last()));
        }
        assert(trim_start(s) == s);
        assert(trim_end(s) == s);
        crate::laws::lemma_base64_round_trip(s, text@);
    }
    r
}

} // verus!
