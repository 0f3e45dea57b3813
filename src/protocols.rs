//! Protocol parsers: from URI components to a typed configuration.
use crate::config::{
    opt_view, trojan_promoted, vless_promoted, vmess_promoted, ParseError, ParseErrorView,
    Shadowsocks, ShadowsocksView, Trojan, TrojanView, Vless, VlessView, Vmess, VmessView,
};
use crate::json::{
    field_get, fields_view, find_field, leaf_text, parse_json_object, text_of_leaf, text_pairs,
    json_object, Fields, JsonLeaf, JsonLeafView,
};
use crate::pairs::{collect_extras, extras_from, lookup, query_get, same};
use crate::payload::{b64_decode, b64_standard, b64_text, base64_text};
use crate::text::{
    chars_of, decimal_spec, parse_decimal, string_of, strings_view, trim, trim_bounds,
};
use crate::uri::{UriParts, UriView};
use vstd::prelude::*;

verus! {

/// A `Result` seen through the views of its two sides.
pub open spec fn rv<T: View>(r: Result<T, ParseError>) -> Result<T::V, ParseErrorView> {
    match r {
        Ok(t) => Ok(t@),
        Err(e) => Err(e@),
    }
}

/// The host, which must be present and non-empty.
pub open spec fn host_spec(u: UriView) -> Result<Seq<char>, ParseErrorView> {
    if u.host is Some && u.host->0.len() > 0 {
        Ok(u.host->0)
    } else {
        Err(ParseErrorView::FieldMissing("address"@))
    }
}

/// The port, which must be present and not zero.
pub open spec fn port_spec(u: UriView) -> Result<u16, ParseErrorView> {
    match u.port {
        None => Err(ParseErrorView::FieldMissing("port"@)),
        Some(p) => if p == 0 {
            Err(ParseErrorView::UnknownFieldType { current: "0"@, expected: "port"@ })
        } else {
            Ok(p)
        },
    }
}

pub fn required_host(u: &UriParts) -> (r: Result<String, ParseError>)
    ensures
        rv(r) == host_spec(u@),
{
    match &u.host {
        Some(h) => {
            if h.as_str().is_empty() {
                Err(ParseError::missing("address"))
            } else {
                Ok(h.clone())
            }
        },
        None => Err(ParseError::missing("address")),
    }
}

pub fn required_port(u: &UriParts) -> (r: Result<u16, ParseError>)
    ensures
        match r {
            Ok(p) => port_spec(u@) == Ok::<u16, ParseErrorView>(p),
            Err(e) => port_spec(u@) == Err::<u16, ParseErrorView>(e@),
        },
{
    match u.port {
        None => Err(ParseError::missing("port")),
        Some(p) => if p == 0 {
            Err(ParseError::wrong_type("0", "port"))
        } else {
            Ok(p)
        },
    }
}

fn vless_keys() -> (r: Vec<String>)
    ensures
        strings_view(r@) == vless_promoted(),
{
    let mut v: Vec<String> = Vec::new();
    v.push("type".to_owned());
    v.push("security".to_owned());
    v.push("encryption".to_owned());
    v.push("path".to_owned());
    v.push("host".to_owned());
    assert(strings_view(v@) =~= vless_promoted());
    v
}

fn trojan_keys() -> (r: Vec<String>)
    ensures
        strings_view(r@) == trojan_promoted(),
{
    let mut v: Vec<String> = Vec::new();
    v.push("sni".to_owned());
    v.push("path".to_owned());
    v.push("host".to_owned());
    v.push("allowInsecure".to_owned());
    assert(strings_view(v@) =~= trojan_promoted());
    v
}

/// What a `vless://` link yields.
pub open spec fn vless_spec(u: UriView) -> Result<VlessView, ParseErrorView> {
    if host_spec(u) is Err {
        Err(host_spec(u)->Err_0)
    } else if u.username.len() == 0 {
        Err(ParseErrorView::FieldMissing("id"@))
    } else if port_spec(u) is Err {
        Err(port_spec(u)->Err_0)
    } else if query_get(u.query, "type"@) is None {
        Err(ParseErrorView::FieldMissing("network"@))
    } else {
        let security = query_get(u.query, "security"@);
        Ok(
            VlessView {
                id: u.username,
                address: host_spec(u)->Ok_0,
                port: port_spec(u)->Ok_0,
                security,
                encryption: query_get(u.query, "encryption"@),
                network: query_get(u.query, "type"@)->0,
                path: query_get(u.query, "path"@),
                host: query_get(u.query, "host"@),
                tls: security == Some("tls"@),
                name: u.fragment,
                extras: collect_extras(u.query, vless_promoted()),
            },
        )
    }
}

/// Whether `v` holds exactly `lit`.
fn opt_is(v: &Option<String>, lit: &str) -> (r: bool)
    ensures
        r == (opt_view(*v) == Some(lit@)),
{
    match v {
        Some(s) => same(s, lit),
        None => false,
    }
}

impl Vless {
    /// Parses the components of a `vless://` link.
    pub fn parse(u: &UriParts) -> (r: Result<Vless, ParseError>)
        ensures
            rv(r) == vless_spec(u@),
    {
        let address = match required_host(u) {
            Ok(a) => a,
            Err(e) => return Err(e),
        };
        if u.username.as_str().is_empty() {
            return Err(ParseError::missing("id"));
        }
        let port = match required_port(u) {
            Ok(p) => p,
            Err(e) => return Err(e),
        };
        let network = match lookup(&u.query, "type") {
            Some(n) => n,
            None => return Err(ParseError::missing("network")),
        };
        let security = lookup(&u.query, "security");
        let tls = opt_is(&security, "tls");
        let extras = extras_from(&u.query, &vless_keys());
        Ok(Vless {
            id: u.username.clone(),
            address,
            port,
            security,
            encryption: lookup(&u.query, "encryption"),
            network,
            path: lookup(&u.query, "path"),
            host: lookup(&u.query, "host"),
            tls,
            name: u.fragment.clone(),
            extras,
        })
    }
}

/// What a `trojan://` link yields.
pub open spec fn trojan_spec(u: UriView) -> Result<TrojanView, ParseErrorView> {
    if host_spec(u) is Err {
        Err(host_spec(u)->Err_0)
    } else if u.username.len() == 0 {
        Err(ParseErrorView::FieldMissing("password"@))
    } else if port_spec(u) is Err {
        Err(port_spec(u)->Err_0)
    } else {
        Ok(
            TrojanView {
                password: u.username,
                address: host_spec(u)->Ok_0,
                port: port_spec(u)->Ok_0,
                sni: query_get(u.query, "sni"@),
                ws_path: query_get(u.query, "path"@),
                host: query_get(u.query, "host"@),
                allow_insecure: query_get(u.query, "allowInsecure"@) == Some("1"@),
                name: u.fragment,
                extras: collect_extras(u.query, trojan_promoted()),
            },
        )
    }
}

impl Trojan {
    /// Parses the components of a `trojan://` link.
    pub fn parse(u: &UriParts) -> (r: Result<Trojan, ParseError>)
        ensures
            rv(r) == trojan_spec(u@),
    {
        let address = match required_host(u) {
            Ok(a) => a,
            Err(e) => return Err(e),
        };
        if u.username.as_str().is_empty() {
            return Err(ParseError::missing("password"));
        }
        let port = match required_port(u) {
            Ok(p) => p,
            Err(e) => return Err(e),
        };
        let allow = lookup(&u.query, "allowInsecure");
        Ok(Trojan {
            password: u.username.clone(),
            address,
            port,
            sni: lookup(&u.query, "sni"),
            ws_path: lookup(&u.query, "path"),
            host: lookup(&u.query, "host"),
            allow_insecure: opt_is(&allow, "1"),
            name: u.fragment.clone(),
            extras: extras_from(&u.query, &trojan_keys()),
        })
    }
}

/// Index of the first `c` in `s`.
pub open spec fn first_index(s: Seq<char>, c: char) -> Option<int>
    decreases s.len(),
{
    if s.len() == 0 {
        None
    } else {
        let p = first_index(s.drop_last(), c);
        if p is Some {
            p
        } else if s.last() == c {
            Some(s.len() - 1)
        } else {
            None
        }
    }
}

/// `method:password`, split at the first colon; both parts non-empty.
pub open spec fn split_creds_spec(t: Seq<char>) -> Result<(Seq<char>, Seq<char>), ParseErrorView> {
    match first_index(t, ':') {
        None => Err(ParseErrorView::FieldMissing("password"@)),
        Some(i) => if i == 0 {
            Err(ParseErrorView::FieldMissing("method"@))
        } else if i + 1 == t.len() {
            Err(ParseErrorView::FieldMissing("password"@))
        } else {
            Ok((t.take(i), t.skip(i + 1)))
        },
    }
}

/// The Shadowsocks method and password: from the userinfo as written, or,
/// where it has no password part, from the base64 text of the user name.
pub open spec fn ss_creds_spec(u: UriView) -> Result<(Seq<char>, Seq<char>), ParseErrorView> {
    if u.username.len() == 0 {
        Err(ParseErrorView::FieldMissing("method"@))
    } else {
        match u.password {
            Some(p) => if p.len() == 0 {
                Err(ParseErrorView::FieldMissing("password"@))
            } else {
                Ok((u.username, p))
            },
            None => match b64_text(u.username) {
                None => Err(
                    ParseErrorView::UnknownFieldType {
                        current: u.username,
                        expected: "base64 method:password"@,
                    },
                ),
                Some(t) => split_creds_spec(t),
            },
        }
    }
}

pub proof fn lemma_first_index(s: Seq<char>, c: char)
    ensures
        first_index(s, c) is Some ==> 0 <= first_index(s, c)->0 < s.len(),
    decreases s.len(),
{
    if s.len() > 0 {
        lemma_first_index(s.drop_last(), c);
    }
}

proof fn lemma_first_index_prefix(s: Seq<char>, c: char, j: int)
    requires
        0 <= j <= s.len(),
        first_index(s.take(j), c) is Some,
    ensures
        first_index(s, c) == first_index(s.take(j), c),
    decreases s.len(),
{
    if j == s.len() {
        assert(s.take(j) == s);
    } else {
        assert(s.drop_last().take(j) == s.take(j));
        lemma_first_index_prefix(s.drop_last(), c, j);
    }
}

fn split_creds(t: &String) -> (r: Result<(String, String), ParseError>)
    ensures
        match r {
            Ok(p) => split_creds_spec(t@) == Ok::<_, ParseErrorView>((p.0@, p.1@)),
            Err(e) => split_creds_spec(t@) == Err::<(Seq<char>, Seq<char>), _>(e@),
        },
{
    let v = chars_of(t.as_str());
    let n = v.len();
    let mut i: usize = 0;
    assert(v@.take(0) == Seq::<char>::empty());
    while i < n
        invariant
            i <= n == v@.len(),
            v@ == t@,
            first_index(v@.take(i as int), ':') is None,
        decreases n - i,
    {
        assert(v@.take(i + 1).drop_last() == v@.take(i as int));
        if v[i] == ':' {
            proof {
                lemma_first_index_prefix(v@, ':', i + 1);
            }
            if i == 0 {
                return Err(ParseError::missing("method"));
            }
            if i + 1 == n {
                return Err(ParseError::missing("password"));
            }
            let method = string_of(&v, 0, i);
            let password = string_of(&v, i + 1, n);
            return Ok((method, password));
        }
        i = i + 1;
    }
    assert(v@.take(n as int) == v@);
    Err(ParseError::missing("password"))
}

fn ss_creds(u: &UriParts) -> (r: Result<(String, String), ParseError>)
    ensures
        match r {
            Ok(p) => ss_creds_spec(u@) == Ok::<_, ParseErrorView>((p.0@, p.1@)),
            Err(e) => ss_creds_spec(u@) == Err::<(Seq<char>, Seq<char>), _>(e@),
        },
{
    if u.username.as_str().is_empty() {
        return Err(ParseError::missing("method"));
    }
    match &u.password {
        Some(p) => if p.as_str().is_empty() {
            Err(ParseError::missing("password"))
        } else {
            Ok((u.username.clone(), p.clone()))
        },
        None => match base64_text(u.username.as_str()) {
            None => Err(ParseError::wrong_type(u.username.as_str(), "base64 method:password")),
            Some(t) => split_creds(&t),
        },
    }
}

/// What an `ss://` link yields.
pub open spec fn shadowsocks_spec(u: UriView) -> Result<ShadowsocksView, ParseErrorView> {
    if host_spec(u) is Err {
        Err(host_spec(u)->Err_0)
    } else if ss_creds_spec(u) is Err {
        Err(ss_creds_spec(u)->Err_0)
    } else if port_spec(u) is Err {
        Err(port_spec(u)->Err_0)
    } else {
        Ok(
            ShadowsocksView {
                method: ss_creds_spec(u)->Ok_0.0,
                password: ss_creds_spec(u)->Ok_0.1,
                address: host_spec(u)->Ok_0,
                port: port_spec(u)->Ok_0,
                name: u.fragment,
                extras: collect_extras(u.query, seq![]),
            },
        )
    }
}

impl Shadowsocks {
    /// Parses the components of an `ss://` link.
    pub fn parse(u: &UriParts) -> (r: Result<Shadowsocks, ParseError>)
        ensures
            rv(r) == shadowsocks_spec(u@),
    {
        let address = match required_host(u) {
            Ok(a) => a,
            Err(e) => return Err(e),
        };
        let (method, password) = match ss_creds(u) {
            Ok(c) => c,
            Err(e) => return Err(e),
        };
        let port = match required_port(u) {
            Ok(p) => p,
            Err(e) => return Err(e),
        };
        let none: Vec<String> = Vec::new();
        assert(strings_view(none@) =~= seq![]);
        Ok(Shadowsocks {
            method,
            password,
            address,
            port,
            name: u.fragment.clone(),
            extras: extras_from(&u.query, &none),
        })
    }
}

/// Index of the first `://` in `s`.
pub open spec fn sep_pos(s: Seq<char>) -> Option<int>
    decreases s.len(),
{
    if s.len() < 3 {
        None
    } else {
        let p = sep_pos(s.drop_last());
        if p is Some {
            p
        } else if s.subrange(s.len() - 3, s.len() as int) == "://"@ {
            Some(s.len() - 3)
        } else {
            None
        }
    }
}

/// The base64 text after the scheme and its `://`, whatever the scheme's
/// case, without surrounding whitespace.
pub open spec fn vmess_payload(line: Seq<char>) -> Option<Seq<char>> {
    match sep_pos(line) {
        Some(i) => Some(trim(line.skip(i + 3))),
        None => None,
    }
}

pub proof fn lemma_sep_pos(s: Seq<char>)
    ensures
        sep_pos(s) is Some ==> 0 <= sep_pos(s)->0 && sep_pos(s)->0 + 3 <= s.len(),
    decreases s.len(),
{
    if s.len() >= 3 {
        lemma_sep_pos(s.drop_last());
    }
}

proof fn lemma_sep_pos_prefix(s: Seq<char>, j: int)
    requires
        0 <= j <= s.len(),
        sep_pos(s.take(j)) is Some,
    ensures
        sep_pos(s) == sep_pos(s.take(j)),
    decreases s.len(),
{
    if j == s.len() {
        assert(s.take(j) == s);
    } else {
        assert(s.drop_last().take(j) == s.take(j));
        lemma_sep_pos_prefix(s.drop_last(), j);
    }
}

/// Index of the first `://` in `v`.
fn find_sep(v: &Vec<char>) -> (r: Option<usize>)
    ensures
        match r {
            Some(i) => sep_pos(v@) == Some(i as int),
            None => sep_pos(v@) is None,
        },
{
    let n = v.len();
    if n < 3 {
        return None;
    }
    let mut i: usize = 0;
    while i + 2 < n
        invariant
            3 <= n == v@.len(),
            i + 2 <= n,
            sep_pos(v@.take(i + 2)) is None,
        decreases n - i,
    {
        let ghost t = v@.take(i + 3);
        proof {
            assert(t.drop_last() == v@.take(i + 2));
            reveal_strlit("://");
        }
        if v[i] == ':' && v[i + 1] == '/' && v[i + 2] == '/' {
            proof {
                assert(t.subrange(t.len() - 3, t.len() as int) =~= "://"@);
                lemma_sep_pos_prefix(v@, i + 3);
            }
            return Some(i);
        }
        proof {
            let w = t.subrange(t.len() - 3, t.len() as int);
            assert(w[0] == v@[i as int] && w[1] == v@[i + 1] && w[2] == v@[i + 2]);
            assert(w != "://"@);
        }
        i = i + 1;
    }
    assert(v@.take(n as int) == v@);
    None
}

/// The members of the JSON object that a `vmess://` link carries.
pub open spec fn vmess_fields(line: Seq<char>) -> Result<Fields, ParseErrorView> {
    match vmess_payload(line) {
        None => Err(ParseErrorView::MalformedUri(line)),
        Some(p) => {
            let bad = ParseErrorView::UnknownFieldType {
                current: p,
                expected: "base64 JSON object"@,
            };
            match b64_decode(p) {
                None => Err(bad),
                Some(b) => match json_object(b) {
                    None => Err(bad),
                    Some(fs) => Ok(fs),
                },
            }
        },
    }
}

/// A required non-empty string member.
pub open spec fn string_field(fs: Fields, key: Seq<char>, name: Seq<char>) -> Result<
    Seq<char>,
    ParseErrorView,
> {
    match field_get(fs, key) {
        None => Err(ParseErrorView::FieldMissing(name)),
        Some(l) => match l {
            JsonLeafView::Null => Err(ParseErrorView::FieldMissing(name)),
            JsonLeafView::Str(s) => if s.len() == 0 {
                Err(ParseErrorView::FieldMissing(name))
            } else {
                Ok(s)
            },
            _ => Err(ParseErrorView::UnknownFieldType { current: leaf_text(l), expected: "string"@ }),
        },
    }
}

/// A number written as a JSON number or as a string of digits.
pub open spec fn leaf_number(l: JsonLeafView, max: int) -> Option<int> {
    match l {
        JsonLeafView::Str(t) => decimal_spec(t, max),
        JsonLeafView::Num(t) => decimal_spec(t, max),
        _ => None,
    }
}

pub open spec fn port_field(fs: Fields) -> Result<u16, ParseErrorView> {
    match field_get(fs, "port"@) {
        None => Err(ParseErrorView::FieldMissing("port"@)),
        Some(l) => if l is Null {
            Err(ParseErrorView::FieldMissing("port"@))
        } else if leaf_number(l, 65535) is Some && leaf_number(l, 65535)->0 >= 1 {
            Ok(leaf_number(l, 65535)->0 as u16)
        } else {
            Err(ParseErrorView::UnknownFieldType { current: leaf_text(l), expected: "port"@ })
        },
    }
}

/// The alter id; absent, null or empty means 0.
pub open spec fn aid_field(fs: Fields) -> Result<u32, ParseErrorView> {
    match field_get(fs, "aid"@) {
        None => Ok(0),
        Some(l) => if l is Null || l == JsonLeafView::Str(Seq::empty()) {
            Ok(0)
        } else if leaf_number(l, u32::MAX as int) is Some {
            Ok(leaf_number(l, u32::MAX as int)->0 as u32)
        } else {
            Err(ParseErrorView::UnknownFieldType { current: leaf_text(l), expected: "alter id"@ })
        },
    }
}

/// An optional member, as text; absent or null means `None`.
pub open spec fn opt_field(fs: Fields, key: Seq<char>) -> Option<Seq<char>> {
    match field_get(fs, key) {
        None => None,
        Some(l) => if l is Null {
            None
        } else {
            Some(leaf_text(l))
        },
    }
}

pub open spec fn tls_field(fs: Fields) -> bool {
    field_get(fs, "tls"@) == Some(JsonLeafView::Str("tls"@)) || field_get(fs, "tls"@) == Some(
        JsonLeafView::Bool(true),
    )
}

/// What a `vmess://` link yields.
pub open spec fn vmess_spec(line: Seq<char>) -> Result<VmessView, ParseErrorView> {
    match vmess_fields(line) {
        Err(e) => Err(e),
        Ok(fs) => if string_field(fs, "add"@, "address"@) is Err {
            Err(string_field(fs, "add"@, "address"@)->Err_0)
        } else if port_field(fs) is Err {
            Err(port_field(fs)->Err_0)
        } else if string_field(fs, "id"@, "id"@) is Err {
            Err(string_field(fs, "id"@, "id"@)->Err_0)
        } else if string_field(fs, "net"@, "network"@) is Err {
            Err(string_field(fs, "net"@, "network"@)->Err_0)
        } else if aid_field(fs) is Err {
            Err(aid_field(fs)->Err_0)
        } else {
            Ok(
                VmessView {
                    id: string_field(fs, "id"@, "id"@)->Ok_0,
                    address: string_field(fs, "add"@, "address"@)->Ok_0,
                    port: port_field(fs)->Ok_0,
                    aid: aid_field(fs)->Ok_0,
                    network: string_field(fs, "net"@, "network"@)->Ok_0,
                    type_field: opt_field(fs, "type"@),
                    host: opt_field(fs, "host"@),
                    path: opt_field(fs, "path"@),
                    tls: tls_field(fs),
                    name: opt_field(fs, "ps"@),
                    extras: collect_extras(
                        fs.map_values(|p: (Seq<char>, JsonLeafView)| (p.0, leaf_text(p.1))),
                        vmess_promoted(),
                    ),
                },
            )
        },
    }
}

fn vmess_keys() -> (r: Vec<String>)
    ensures
        strings_view(r@) == vmess_promoted(),
{
    let mut v: Vec<String> = Vec::new();
    v.push("add".to_owned());
    v.push("port".to_owned());
    v.push("id".to_owned());
    v.push("aid".to_owned());
    v.push("net".to_owned());
    v.push("type".to_owned());
    v.push("host".to_owned());
    v.push("path".to_owned());
    v.push("tls".to_owned());
    v.push("ps".to_owned());
    assert(strings_view(v@) =~= vmess_promoted());
    v
}

fn load_vmess_fields(line: &str) -> (r: Result<Vec<(String, JsonLeaf)>, ParseError>)
    ensures
        match r {
            Ok(fs) => vmess_fields(line@) == Ok::<Fields, ParseErrorView>(fields_view(fs@)),
            Err(e) => vmess_fields(line@) == Err::<Fields, ParseErrorView>(e@),
        },
{
    let v = chars_of(line);
    proof {
        lemma_sep_pos(v@);
    }
    let n = v.len();
    let start = match find_sep(&v) {
        Some(i) => {
            assert(i + 3 <= n);
            i + 3
        },
        None => return Err(ParseError::MalformedUri(line.to_owned())),
    };
    let rest = chars_of(string_of(&v, start, n).as_str());
    let (lo, hi) = trim_bounds(&rest);
    let payload = string_of(&rest, lo, hi);
    match b64_standard(payload.as_str()) {
        None => Err(ParseError::wrong_type(payload.as_str(), "base64 JSON object")),
        Some(bytes) => match parse_json_object(&bytes) {
            None => Err(ParseError::wrong_type(payload.as_str(), "base64 JSON object")),
            Some(fs) => Ok(fs),
        },
    }
}

fn string_member(fs: &Vec<(String, JsonLeaf)>, key: &str, name: &str) -> (r: Result<String, ParseError>)
    ensures
        rv(r) == string_field(fields_view(fs@), key@, name@),
{
    match find_field(fs, key) {
        None => Err(ParseError::missing(name)),
        Some(l) => match l {
            JsonLeaf::Null => Err(ParseError::missing(name)),
            JsonLeaf::Str(s) => if s.as_str().is_empty() {
                Err(ParseError::missing(name))
            } else {
                Ok(s.clone())
            },
            _ => Err(ParseError::UnknownFieldType { current: text_of_leaf(l), expected: "string".to_owned() }),
        },
    }
}

fn number_of_leaf(l: &JsonLeaf, max: u64) -> (r: Option<u64>)
    requires
        max <= u32::MAX,
    ensures
        match r {
            Some(v) => leaf_number(l@, max as int) == Some(v as int),
            None => leaf_number(l@, max as int) is None,
        },
{
    match l {
        JsonLeaf::Str(t) => parse_decimal(t, max),
        JsonLeaf::Num(t) => parse_decimal(t, max),
        _ => None,
    }
}

fn port_member(fs: &Vec<(String, JsonLeaf)>) -> (r: Result<u16, ParseError>)
    ensures
        match r {
            Ok(p) => port_field(fields_view(fs@)) == Ok::<u16, ParseErrorView>(p),
            Err(e) => port_field(fields_view(fs@)) == Err::<u16, ParseErrorView>(e@),
        },
{
    match find_field(fs, "port") {
        None => Err(ParseError::missing("port")),
        Some(l) => {
            if let JsonLeaf::Null = l {
                return Err(ParseError::missing("port"));
            }
            match number_of_leaf(l, 65535) {
                Some(p) => if p >= 1 {
                    return Ok(p as u16);
                },
                None => {},
            }
            Err(ParseError::UnknownFieldType { current: text_of_leaf(l), expected: "port".to_owned() })
        },
    }
}

fn aid_member(fs: &Vec<(String, JsonLeaf)>) -> (r: Result<u32, ParseError>)
    ensures
        match r {
            Ok(a) => aid_field(fields_view(fs@)) == Ok::<u32, ParseErrorView>(a),
            Err(e) => aid_field(fields_view(fs@)) == Err::<u32, ParseErrorView>(e@),
        },
{
    match find_field(fs, "aid") {
        None => Ok(0),
        Some(l) => {
            match l {
                JsonLeaf::Null => return Ok(0),
                JsonLeaf::Str(s) => if s.as_str().is_empty() {
                    assert(s@ =~= Seq::<char>::empty());
                    return Ok(0);
                },
                _ => {},
            }
            match number_of_leaf(l, 0xffff_ffff) {
                Some(a) => Ok(a as u32),
                None => Err(ParseError::UnknownFieldType { current: text_of_leaf(l), expected: "alter id".to_owned() }),
            }
        },
    }
}

fn opt_member(fs: &Vec<(String, JsonLeaf)>, key: &str) -> (r: Option<String>)
    ensures
        opt_view(r) == opt_field(fields_view(fs@), key@),
{
    match find_field(fs, key) {
        None => None,
        Some(l) => if let JsonLeaf::Null = l {
            None
        } else {
            Some(text_of_leaf(l))
        },
    }
}

fn tls_member(fs: &Vec<(String, JsonLeaf)>) -> (r: bool)
    ensures
        r == tls_field(fields_view(fs@)),
{
    match find_field(fs, "tls") {
        Some(JsonLeaf::Str(s)) => same(s, "tls"),
        Some(JsonLeaf::Bool(b)) => *b,
        _ => false,
    }
}

impl Vmess {
    /// Parses a `vmess://` link: base64 of a JSON object after the prefix.
    pub fn parse(line: &str) -> (r: Result<Vmess, ParseError>)
        ensures
            rv(r) == vmess_spec(line@),
    {
        let fs = match load_vmess_fields(line) {
            Ok(fs) => fs,
            Err(e) => return Err(e),
        };
        let address = match string_member(&fs, "add", "address") {
            Ok(a) => a,
            Err(e) => return Err(e),
        };
        let port = match port_member(&fs) {
            Ok(p) => p,
            Err(e) => return Err(e),
        };
        let id = match string_member(&fs, "id", "id") {
            Ok(a) => a,
            Err(e) => return Err(e),
        };
        let network = match string_member(&fs, "net", "network") {
            Ok(a) => a,
            Err(e) => return Err(e),
        };
        let aid = match aid_member(&fs) {
            Ok(a) => a,
            Err(e) => return Err(e),
        };
        Ok(Vmess {
            id,
            address,
            port,
            aid,
            network,
            type_field: opt_member(&fs, "type"),
            host: opt_member(&fs, "host"),
            path: opt_member(&fs, "path"),
            tls: tls_member(&fs),
            name: opt_member(&fs, "ps"),
            extras: extras_from(&text_pairs(&fs), &vmess_keys()),
        })
    }
}

} // verus!
