use base64::Engine;
use luxnulla::batch::{candidate_lines, parse_batch, parse_subscription};
use luxnulla::config::ParseError;
use luxnulla::payload::{base64_text, decode_payload, encode_payload};
use luxnulla::text::{parse_decimal, split_lines};

fn s(x: &str) -> String {
    x.to_string()
}

const GOOD1: &str = "vless://a@one.example:443?type=tcp";
const GOOD2: &str = "trojan://pw@two.example:443";

#[test]
fn batch_keeps_order_and_counts() {
    let text = format!("{}\nnot a uri\n\n   \n{}\r\nhttp://x.example/\n", GOOD1, GOOD2);
    let r = parse_batch(&text, None);
    assert_eq!(r.successes.len(), 2);
    assert_eq!(r.failures.len(), 2);
    assert_eq!(r.successes[0].0, GOOD1);
    assert_eq!(r.successes[1].0, GOOD2);
    assert_eq!(r.successes[0].1.address(), "one.example");
    assert_eq!(r.successes[1].1.address(), "two.example");
    assert_eq!(r.failures[0], (s("not a uri"), ParseError::MalformedUri(s("not a uri"))));
    assert_eq!(r.failures[1], (s("http://x.example/"), ParseError::UnsupportedScheme(s("http"))));
}

#[test]
fn batch_cap_limits_lines() {
    let text = format!("{}\n\n{}\n{}", GOOD1, GOOD2, GOOD1);
    let r = parse_batch(&text, Some(2));
    assert_eq!(r.successes.len(), 1);
    assert!(r.failures.is_empty());
    let r = parse_batch(&text, Some(3));
    assert_eq!(r.successes.len(), 2);
    let r = parse_batch(&text, Some(0));
    assert!(r.successes.is_empty() && r.failures.is_empty());
}

#[test]
fn empty_batch() {
    let r = parse_batch("", None);
    assert!(r.successes.is_empty() && r.failures.is_empty());
    assert!(candidate_lines(" \n\t\n", None).is_empty());
}

#[test]
fn split_lines_strips_carriage_returns() {
    assert_eq!(split_lines("a\r\nb\n\nc"), vec![s("a"), s("b"), s(""), s("c")]);
    assert_eq!(split_lines(""), vec![s("")]);
    assert_eq!(split_lines("x\n"), vec![s("x"), s("")]);
}

#[test]
fn decimal_numbers() {
    assert_eq!(parse_decimal(&s("443"), 65535), Some(443));
    assert_eq!(parse_decimal(&s("65535"), 65535), Some(65535));
    assert_eq!(parse_decimal(&s("65536"), 65535), None);
    assert_eq!(parse_decimal(&s(""), 65535), None);
    assert_eq!(parse_decimal(&s("4a"), 65535), None);
    assert_eq!(parse_decimal(&s("007"), 10), Some(7));
}

#[test]
fn base64_body_is_decoded() {
    let text = format!("{}\n{}\n", GOOD1, GOOD2);
    let body = format!("  {}\n", base64::engine::general_purpose::STANDARD.encode(&text));
    assert_eq!(decode_payload(&body), text);
    let r = parse_subscription(&body, None);
    assert_eq!(r.successes.len(), 2);
    assert!(r.failures.is_empty());
}

#[test]
fn plain_body_is_used_verbatim() {
    let text = format!("{}\n{}", GOOD1, GOOD2);
    let body = format!("\n{}\n\n", text);
    assert_eq!(decode_payload(&body), text);
    let r = parse_subscription(&body, None);
    assert_eq!(r.successes.len(), 2);
}

#[test]
fn base64_of_invalid_utf8_is_used_verbatim() {
    let body = base64::engine::general_purpose::STANDARD.encode([0xffu8, 0xfe, 0x00]);
    assert_eq!(base64_text(&body), None);
    assert_eq!(decode_payload(&body), body);
}

#[test]
fn base64_round_trip_of_text() {
    for t in ["héllo wörld ✓", "", "a", "line one\nline two"] {
        let enc = base64::engine::general_purpose::STANDARD.encode(t);
        assert_eq!(decode_payload(&enc), t.trim());
        assert_eq!(base64_text(&enc), Some(s(t)));
    }
}

#[test]
fn plain_text_that_is_base64_is_decoded() {
    // the plain word "ZmFu" is also base64 of "fan": the heuristic decodes it
    assert_eq!(decode_payload("ZmFu"), s("fan"));
    // "abcd" is base64 of bytes that are not UTF-8: kept as plain text
    assert_eq!(decode_payload("abcd"), s("abcd"));
}

#[test]
fn encoded_payload_decodes_back() {
    for t in ["héllo wörld ✓", "", "  padded text \n", "vless://a@b.example:1?type=tcp\n"] {
        let body = encode_payload(t);
        assert_eq!(body, base64::engine::general_purpose::STANDARD.encode(t));
        assert_eq!(decode_payload(&body), t);
    }
}
