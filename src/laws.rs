//! Properties that relate several functions of the library, or that hold of
//! all inputs of one of them.
use crate::batch::{err_part, ok_part};
use crate::config::{
    vless_promoted, ParseError, ParseErrorView, ProxyConfig, ProxyConfigView, VlessView,
};
use crate::dispatch::{parse_line_spec, scheme_protocol, Protocol};
use crate::pairs::{collect_extras, query_get};
use crate::batch::candidates;
use crate::payload::{b64_decode, b64_text, decode_payload_spec};
use crate::protocols::rv;
use crate::text::trim;
use crate::uri::url_parse;
use vstd::prelude::*;
use vstd::utf8::{encode_utf8, encode_utf8_decode_utf8, encode_utf8_valid_utf8};

verus! {

/// A `vless://` link with an id, a host, a non-zero port and a `type`
/// parameter parses, and every field is taken over exactly from the link;
/// `tls` holds exactly when `security` is `tls`.
pub proof fn lemma_vless_fields(line: Seq<char>)
    requires
        url_parse(line) is Some,
        url_parse(line)->0.scheme == "vless"@,
        url_parse(line)->0.username.len() > 0,
        url_parse(line)->0.host is Some,
        url_parse(line)->0.host->0.len() > 0,
        url_parse(line)->0.port is Some,
        url_parse(line)->0.port->0 != 0,
        query_get(url_parse(line)->0.query, "type"@) is Some,
    ensures
        ({
            let u = url_parse(line)->0;
            parse_line_spec(line) == Ok::<ProxyConfigView, ParseErrorView>(
                ProxyConfigView::Vless(
                    VlessView {
                        id: u.username,
                        address: u.host->0,
                        port: u.port->0,
                        security: query_get(u.query, "security"@),
                        encryption: query_get(u.query, "encryption"@),
                        network: query_get(u.query, "type"@)->0,
                        path: query_get(u.query, "path"@),
                        host: query_get(u.query, "host"@),
                        tls: query_get(u.query, "security"@) == Some("tls"@),
                        name: u.fragment,
                        extras: collect_extras(u.query, vless_promoted()),
                    },
                ),
            )
        }),
{
}

/// A link of a URI-based protocol (VLESS, Shadowsocks, Trojan) without a
/// host, or with an empty one, fails with `FieldMissing("address")`.
pub proof fn lemma_missing_host(line: Seq<char>)
    requires
        url_parse(line) is Some,
        url_parse(line)->0.host is None || url_parse(line)->0.host->0.len() == 0,
        scheme_protocol(url_parse(line)->0.scheme) is Some,
        scheme_protocol(url_parse(line)->0.scheme) != Some(Protocol::Vmess),
    ensures
        parse_line_spec(line) == Err::<ProxyConfigView, ParseErrorView>(
            ParseErrorView::FieldMissing("address"@),
        ),
{
}

/// A URI whose scheme is not in the scheme table fails with
/// `UnsupportedScheme(scheme)`.
pub proof fn lemma_unsupported_scheme(line: Seq<char>)
    requires
        url_parse(line) is Some,
        scheme_protocol(url_parse(line)->0.scheme) is None,
    ensures
        parse_line_spec(line) == Err::<ProxyConfigView, ParseErrorView>(
            ParseErrorView::UnsupportedScheme(url_parse(line)->0.scheme),
        ),
{
}

/// The number of lines that fail to parse.
pub open spec fn count_failing(lines: Seq<Seq<char>>) -> nat
    decreases lines.len(),
{
    if lines.len() == 0 {
        0
    } else {
        count_failing(lines.drop_last()) + if parse_line_spec(lines.last()) is Err {
            1nat
        } else {
            0nat
        }
    }
}

/// Positions of the lines that parse, in increasing order.
pub open spec fn ok_positions(lines: Seq<Seq<char>>) -> Seq<int>
    decreases lines.len(),
{
    if lines.len() == 0 {
        Seq::empty()
    } else if parse_line_spec(lines.last()) is Ok {
        ok_positions(lines.drop_last()).push(lines.len() - 1)
    } else {
        ok_positions(lines.drop_last())
    }
}

/// Positions of the lines that fail, in increasing order.
pub open spec fn err_positions(lines: Seq<Seq<char>>) -> Seq<int>
    decreases lines.len(),
{
    if lines.len() == 0 {
        Seq::empty()
    } else if parse_line_spec(lines.last()) is Err {
        err_positions(lines.drop_last()).push(lines.len() - 1)
    } else {
        err_positions(lines.drop_last())
    }
}

/// The `j`-th success comes from the line at the `j`-th ok position.
pub open spec fn ok_entry_matches(lines: Seq<Seq<char>>, j: int) -> bool {
    let i = ok_positions(lines)[j];
    &&& 0 <= i < lines.len()
    &&& ok_part(lines)[j].0 == lines[i]
    &&& parse_line_spec(lines[i]) == Ok::<ProxyConfigView, ParseErrorView>(ok_part(lines)[j].1)
}

/// The `j`-th failure comes from the line at the `j`-th error position.
pub open spec fn err_entry_matches(lines: Seq<Seq<char>>, j: int) -> bool {
    let i = err_positions(lines)[j];
    &&& 0 <= i < lines.len()
    &&& err_part(lines)[j].0 == lines[i]
    &&& parse_line_spec(lines[i]) == Err::<ProxyConfigView, ParseErrorView>(err_part(lines)[j].1)
}

/// Of `N` lines of which `K` fail, a batch holds `N - K` successes and `K`
/// failures; the `j`-th success (failure) comes from the line at the `j`-th
/// position of `ok_positions` (`err_positions`), and those positions
/// increase, so both lists keep the order of the input lines.
pub proof fn lemma_batch_partition(lines: Seq<Seq<char>>)
    ensures
        ok_part(lines).len() == lines.len() - count_failing(lines),
        err_part(lines).len() == count_failing(lines),
        ok_positions(lines).len() == ok_part(lines).len(),
        err_positions(lines).len() == err_part(lines).len(),
        forall|j: int, k: int|
            0 <= j < k < ok_positions(lines).len() ==> #[trigger] ok_positions(lines)[j]
                < #[trigger] ok_positions(lines)[k],
        forall|j: int, k: int|
            0 <= j < k < err_positions(lines).len() ==> #[trigger] err_positions(lines)[j]
                < #[trigger] err_positions(lines)[k],
        forall|j: int| 0 <= j < ok_part(lines).len() ==> #[trigger] ok_entry_matches(lines, j),
        forall|j: int| 0 <= j < err_part(lines).len() ==> #[trigger] err_entry_matches(lines, j),
    decreases lines.len(),
{
    if lines.len() > 0 {
        let d = lines.drop_last();
        lemma_batch_partition(d);
        let n = lines.len() - 1;
        assert forall|i: int| 0 <= i < d.len() implies #[trigger] d[i] == lines[i] by {}
        if parse_line_spec(lines.last()) is Ok {
            let op = ok_positions(lines);
            assert(op == ok_positions(d).push(n));
            assert forall|j: int, k: int| 0 <= j < k < op.len() implies #[trigger] op[j]
                < #[trigger] op[k] by {
                assert(ok_entry_matches(d, j));
                if k < op.len() - 1 {
                    assert(op[k] == ok_positions(d)[k]);
                }
            }
            assert forall|j: int| 0 <= j < ok_part(lines).len() implies #[trigger] ok_entry_matches(
                lines,
                j,
            ) by {
                if j < ok_part(d).len() {
                    assert(ok_entry_matches(d, j));
                    let i = ok_positions(d)[j];
                    assert(d[i] == lines[i]);
                }
            }
            assert(err_part(lines) == err_part(d));
            assert(err_positions(lines) == err_positions(d));
            assert forall|j: int| 0 <= j < err_part(lines).len() implies #[trigger] err_entry_matches(
                lines,
                j,
            ) by {
                assert(err_entry_matches(d, j));
                let i = err_positions(d)[j];
                assert(d[i] == lines[i]);
            }
        } else {
            let ep = err_positions(lines);
            assert(ep == err_positions(d).push(n));
            assert forall|j: int, k: int| 0 <= j < k < ep.len() implies #[trigger] ep[j]
                < #[trigger] ep[k] by {
                assert(err_entry_matches(d, j));
                if k < ep.len() - 1 {
                    assert(ep[k] == err_positions(d)[k]);
                }
            }
            assert forall|j: int| 0 <= j < err_part(lines).len() implies #[trigger] err_entry_matches(
                lines,
                j,
            ) by {
                if j < err_part(d).len() {
                    assert(err_entry_matches(d, j));
                    let i = err_positions(d)[j];
                    assert(d[i] == lines[i]);
                }
            }
            assert(ok_part(lines) == ok_part(d));
            assert(ok_positions(lines) == ok_positions(d));
            assert forall|j: int| 0 <= j < ok_part(lines).len() implies #[trigger] ok_entry_matches(
                lines,
                j,
            ) by {
                assert(ok_entry_matches(d, j));
                let i = ok_positions(d)[j];
                assert(d[i] == lines[i]);
            }
        }
    }
}

/// Two parses of one line give equal results: parsing keeps no state.
pub proof fn lemma_parse_deterministic(
    line: Seq<char>,
    first: Result<ProxyConfig, ParseError>,
    second: Result<ProxyConfig, ParseError>,
)
    requires
        rv(first) == parse_line_spec(line),
        rv(second) == parse_line_spec(line),
    ensures
        rv(first) == rv(second),
{
}

/// A body whose trimmed text is the standard base64 encoding of the UTF-8
/// bytes of `text` decodes to `text` exactly.
pub proof fn lemma_base64_round_trip(body: Seq<char>, text: Seq<char>)
    requires
        b64_decode(trim(body)) == Some(encode_utf8(text)),
    ensures
        decode_payload_spec(body) == text,
{
    encode_utf8_valid_utf8(text);
    encode_utf8_decode_utf8(text);
}

/// A body whose trimmed text is base64 of UTF-8 text is decoded before it is
/// split into lines; any other body is split as it stands, trimmed.
pub proof fn lemma_payload_branches(body: Seq<char>, cap: Option<usize>)
    ensures
        b64_text(trim(body)) is Some ==> candidates(decode_payload_spec(body), cap) == candidates(
            b64_text(trim(body))->0,
            cap,
        ),
        b64_text(trim(body)) is None ==> candidates(decode_payload_spec(body), cap) == candidates(
            trim(body),
            cap,
        ),
{
}

} // verus!
