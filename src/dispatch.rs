//! The scheme dispatcher: a line is parsed as a URI and handed to the parser
//! that the scheme table names.
use crate::config::{
    ParseError, ParseErrorView, ProxyConfig, ProxyConfigView, Shadowsocks, Trojan, Vless, Vmess,
    trojan_promoted, vless_promoted, vmess_promoted,
};
use crate::json::leaf_text;
use crate::json::JsonLeafView;
use crate::pairs::lemma_collect_extras_ok;
use crate::pairs::same;
use crate::protocols::{
    rv, shadowsocks_spec, ss_creds_spec, trojan_spec, vless_spec, vmess_fields,
    vmess_spec,
};
use crate::uri::{parse_uri, url_parse, UriView};
use vstd::prelude::*;

verus! {

/// The protocols that have a parser.
#[derive(Clone, Copy, Debug, PartialEq, Eq, Structural)]
pub enum Protocol {
    Vless,
    Vmess,
    Shadowsocks,
    Trojan,
}

/// The scheme table: which scheme each parser serves.
pub open spec fn scheme_protocol(scheme: Seq<char>) -> Option<Protocol> {
    if scheme == "vless"@ {
        Some(Protocol::Vless)
    } else if scheme == "vmess"@ {
        Some(Protocol::Vmess)
    } else if scheme == "ss"@ {
        Some(Protocol::Shadowsocks)
    } else if scheme == "trojan"@ {
        Some(Protocol::Trojan)
    } else {
        None
    }
}

pub fn protocol_for(scheme: &String) -> (r: Option<Protocol>)
    ensures
        r == scheme_protocol(scheme@),
{
    if same(scheme, "vless") {
        Some(Protocol::Vless)
    } else if same(scheme, "vmess") {
        Some(Protocol::Vmess)
    } else if same(scheme, "ss") {
        Some(Protocol::Shadowsocks)
    } else if same(scheme, "trojan") {
        Some(Protocol::Trojan)
    } else {
        None
    }
}

/// What the parser of `p` makes of `line`, whose components are `u`.
pub open spec fn run_spec(p: Protocol, line: Seq<char>, u: UriView) -> Result<
    ProxyConfigView,
    ParseErrorView,
> {
    match p {
        Protocol::Vless => match vless_spec(u) {
            Ok(c) => Ok(ProxyConfigView::Vless(c)),
            Err(e) => Err(e),
        },
        Protocol::Vmess => match vmess_spec(line) {
            Ok(c) => Ok(ProxyConfigView::Vmess(c)),
            Err(e) => Err(e),
        },
        Protocol::Shadowsocks => match shadowsocks_spec(u) {
            Ok(c) => Ok(ProxyConfigView::Shadowsocks(c)),
            Err(e) => Err(e),
        },
        Protocol::Trojan => match trojan_spec(u) {
            Ok(c) => Ok(ProxyConfigView::Trojan(c)),
            Err(e) => Err(e),
        },
    }
}

/// What one line of a subscription yields.
pub open spec fn parse_line_spec(line: Seq<char>) -> Result<ProxyConfigView, ParseErrorView> {
    match url_parse(line) {
        None => Err(ParseErrorView::MalformedUri(line)),
        Some(u) => match scheme_protocol(u.scheme) {
            None => Err(ParseErrorView::UnsupportedScheme(u.scheme)),
            Some(p) => run_spec(p, line, u),
        },
    }
}

/// Parses one proxy link.
pub fn parse_line(line: &str) -> (r: Result<ProxyConfig, ParseError>)
    ensures
        rv(r) == parse_line_spec(line@),
        r is Ok ==> r->Ok_0@.wf(),
{
    proof {
        lemma_parse_line_wf(line@);
    }
    let u = match parse_uri(line) {
        Some(u) => u,
        None => return Err(ParseError::MalformedUri(line.to_owned())),
    };
    match protocol_for(&u.scheme) {
        None => Err(ParseError::UnsupportedScheme(u.scheme.clone())),
        Some(Protocol::Vless) => match Vless::parse(&u) {
            Ok(c) => Ok(ProxyConfig::Vless(c)),
            Err(e) => Err(e),
        },
        Some(Protocol::Vmess) => match Vmess::parse(line) {
            Ok(c) => Ok(ProxyConfig::Vmess(c)),
            Err(e) => Err(e),
        },
        Some(Protocol::Shadowsocks) => match Shadowsocks::parse(&u) {
            Ok(c) => Ok(ProxyConfig::Shadowsocks(c)),
            Err(e) => Err(e),
        },
        Some(Protocol::Trojan) => match Trojan::parse(&u) {
            Ok(c) => Ok(ProxyConfig::Trojan(c)),
            Err(e) => Err(e),
        },
    }
}

/// Every configuration that a line yields is well formed: non-empty address,
/// port in 1..=65535, non-empty credentials, `tls` derived from `security`,
/// and extras free of duplicate and promoted keys.
pub proof fn lemma_parse_line_wf(line: Seq<char>)
    ensures
        parse_line_spec(line) is Ok ==> parse_line_spec(line)->Ok_0.wf(),
{
    if let Some(u) = url_parse(line) {
        lemma_collect_extras_ok(u.query, vless_promoted());
        lemma_collect_extras_ok(u.query, trojan_promoted());
        lemma_collect_extras_ok(u.query, seq![]);
        if let Ok(fs) = vmess_fields(line) {
            lemma_collect_extras_ok(
                fs.map_values(|p: (Seq<char>, JsonLeafView)| (p.0, leaf_text(p.1))),
                vmess_promoted(),
            );
        }
        if let Some(Protocol::Shadowsocks) = scheme_protocol(u.scheme) {
            if let Ok(c) = ss_creds_spec(u) {
                if u.password is None {
                    let t = crate::payload::b64_text(u.username)->0;
                    crate::protocols::lemma_first_index(t, ':');
                }
            }
        }
    }
}

} // verus!
