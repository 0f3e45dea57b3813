use crate::pairs::extras_ok;
use vstd::prelude::*;

verus! {

/// Per-line parse failure.
#[derive(Debug, Clone, PartialEq, Eq)]
pub enum ParseError {
    /// The line is not a well-formed URI; carries the raw line.
    MalformedUri(String),
    /// The scheme has no parser in the dispatch table.
    UnsupportedScheme(String),
    /// A required field is absent; carries the field name.
    FieldMissing(String),
    /// A field is present but has the wrong shape.
    UnknownFieldType { current: String, expected: String },
}

pub enum ParseErrorView {
    MalformedUri(Seq<char>),
    UnsupportedScheme(Seq<char>),
    FieldMissing(Seq<char>),
    UnknownFieldType { current: Seq<char>, expected: Seq<char> },
}

impl View for ParseError {
    type V = ParseErrorView;

    open spec fn view(&self) -> ParseErrorView {
        match self {
            ParseError::MalformedUri(s) => ParseErrorView::MalformedUri(s@),
            ParseError::UnsupportedScheme(s) => ParseErrorView::UnsupportedScheme(s@),
            ParseError::FieldMissing(s) => ParseErrorView::FieldMissing(s@),
            ParseError::UnknownFieldType { current, expected } => ParseErrorView::UnknownFieldType {
                current: current@,
                expected: expected@,
            },
        }
    }
}

pub open spec fn opt_view(o: Option<String>) -> Option<Seq<char>> {
    match o {
        Some(s) => Some(s@),
        None => None,
    }
}

pub open spec fn pairs_view(v: Seq<(String, String)>) -> Seq<(Seq<char>, Seq<char>)> {
    v.map_values(|p: (String, String)| (p.0@, p.1@))
}

impl ParseErrorView {
    /// The diagnostic text of the error.
    pub open spec fn message(self) -> Seq<char> {
        match self {
            ParseErrorView::MalformedUri(line) => "malformed URI: "@ + line,
            ParseErrorView::UnsupportedScheme(s) => "unknown url scheme: \""@ + s + "\""@,
            ParseErrorView::FieldMissing(f) => "Missing field: "@ + f,
            ParseErrorView::UnknownFieldType { current, expected } => "Unknown field type: "@
                + current + " (expected: "@ + expected + ")"@,
        }
    }
}

impl ParseError {
    /// The diagnostic text of the error.
    pub fn message(&self) -> (r: String)
        ensures
            r@ == self@.message(),
    {
        match self {
            ParseError::MalformedUri(line) => "malformed URI: ".to_owned().concat(line.as_str()),
            ParseError::UnsupportedScheme(s) => "unknown url scheme: \"".to_owned().concat(
                s.as_str(),
            ).concat("\""),
            ParseError::FieldMissing(f) => "Missing field: ".to_owned().concat(f.as_str()),
            ParseError::UnknownFieldType { current, expected } => "Unknown field type: ".to_owned().concat(
                current.as_str(),
            ).concat(" (expected: ").concat(expected.as_str()).concat(")"),
        }
    }
    /// `FieldMissing(name)`.
    pub fn missing(name: &str) -> (r: ParseError)
        ensures
            r@ == ParseErrorView::FieldMissing(name@),
    {
        ParseError::FieldMissing(name.to_owned())
    }

    /// `UnknownFieldType { current, expected }`.
    pub fn wrong_type(current: &str, expected: &str) -> (r: ParseError)
        ensures
            r@ == (ParseErrorView::UnknownFieldType { current: current@, expected: expected@ }),
    {
        ParseError::UnknownFieldType { current: current.to_owned(), expected: expected.to_owned() }
    }
}

/// A VLESS server.
#[derive(Debug, Clone, PartialEq, Eq)]
pub struct Vless {
    pub id: String,
    pub address: String,
    pub port: u16,
    pub security: Option<String>,
    pub encryption: Option<String>,
    pub network: String,
    pub path: Option<String>,
    pub host: Option<String>,
    pub tls: bool,
    pub name: Option<String>,
    pub extras: Vec<(String, String)>,
}

/// A VMess server.
#[derive(Debug, Clone, PartialEq, Eq)]
pub struct Vmess {
    pub id: String,
    pub address: String,
    pub port: u16,
    pub aid: u32,
    pub network: String,
    pub type_field: Option<String>,
    pub host: Option<String>,
    pub path: Option<String>,
    pub tls: bool,
    pub name: Option<String>,
    pub extras: Vec<(String, String)>,
}

/// A Shadowsocks server.
#[derive(Debug, Clone, PartialEq, Eq)]
pub struct Shadowsocks {
    pub method: String,
    pub password: String,
    pub address: String,
    pub port: u16,
    pub name: Option<String>,
    pub extras: Vec<(String, String)>,
}

/// A Trojan server.
#[derive(Debug, Clone, PartialEq, Eq)]
pub struct Trojan {
    pub password: String,
    pub address: String,
    pub port: u16,
    pub sni: Option<String>,
    pub ws_path: Option<String>,
    pub host: Option<String>,
    pub allow_insecure: bool,
    pub name: Option<String>,
    pub extras: Vec<(String, String)>,
}

/// One parsed proxy link.
#[derive(Debug, Clone, PartialEq, Eq)]
pub enum ProxyConfig {
    Vmess(Vmess),
    Vless(Vless),
    Shadowsocks(Shadowsocks),
    Trojan(Trojan),
}

pub struct VlessView {
    pub id: Seq<char>,
    pub address: Seq<char>,
    pub port: u16,
    pub security: Option<Seq<char>>,
    pub encryption: Option<Seq<char>>,
    pub network: Seq<char>,
    pub path: Option<Seq<char>>,
    pub host: Option<Seq<char>>,
    pub tls: bool,
    pub name: Option<Seq<char>>,
    pub extras: Seq<(Seq<char>, Seq<char>)>,
}

pub struct VmessView {
    pub id: Seq<char>,
    pub address: Seq<char>,
    pub port: u16,
    pub aid: u32,
    pub network: Seq<char>,
    pub type_field: Option<Seq<char>>,
    pub host: Option<Seq<char>>,
    pub path: Option<Seq<char>>,
    pub tls: bool,
    pub name: Option<Seq<char>>,
    pub extras: Seq<(Seq<char>, Seq<char>)>,
}

pub struct ShadowsocksView {
    pub method: Seq<char>,
    pub password: Seq<char>,
    pub address: Seq<char>,
    pub port: u16,
    pub name: Option<Seq<char>>,
    pub extras: Seq<(Seq<char>, Seq<char>)>,
}

pub struct TrojanView {
    pub password: Seq<char>,
    pub address: Seq<char>,
    pub port: u16,
    pub sni: Option<Seq<char>>,
    pub ws_path: Option<Seq<char>>,
    pub host: Option<Seq<char>>,
    pub allow_insecure: bool,
    pub name: Option<Seq<char>>,
    pub extras: Seq<(Seq<char>, Seq<char>)>,
}

pub enum ProxyConfigView {
    Vmess(VmessView),
    Vless(VlessView),
    Shadowsocks(ShadowsocksView),
    Trojan(TrojanView),
}

impl View for Vless {
    type V = VlessView;

    open spec fn view(&self) -> VlessView {
        VlessView {
            id: self.id@,
            address: self.address@,
            port: self.port,
            security: opt_view(self.security),
            encryption: opt_view(self.encryption),
            network: self.network@,
            path: opt_view(self.path),
            host: opt_view(self.host),
            tls: self.tls,
            name: opt_view(self.name),
            extras: pairs_view(self.extras@),
        }
    }
}

impl View for Vmess {
    type V = VmessView;

    open spec fn view(&self) -> VmessView {
        VmessView {
            id: self.id@,
            address: self.address@,
            port: self.port,
            aid: self.aid,
            network: self.network@,
            type_field: opt_view(self.type_field),
            host: opt_view(self.host),
            path: opt_view(self.path),
            tls: self.tls,
            name: opt_view(self.name),
            extras: pairs_view(self.extras@),
        }
    }
}

impl View for Shadowsocks {
    type V = ShadowsocksView;

    open spec fn view(&self) -> ShadowsocksView {
        ShadowsocksView {
            method: self.method@,
            password: self.password@,
            address: self.address@,
            port: self.port,
            name: opt_view(self.name),
            extras: pairs_view(self.extras@),
        }
    }
}

impl View for Trojan {
    type V = TrojanView;

    open spec fn view(&self) -> TrojanView {
        TrojanView {
            password: self.password@,
            address: self.address@,
            port: self.port,
            sni: opt_view(self.sni),
            ws_path: opt_view(self.ws_path),
            host: opt_view(self.host),
            allow_insecure: self.allow_insecure,
            name: opt_view(self.name),
            extras: pairs_view(self.extras@),
        }
    }
}

impl View for ProxyConfig {
    type V = ProxyConfigView;

    open spec fn view(&self) -> ProxyConfigView {
        match self {
            ProxyConfig::Vmess(c) => ProxyConfigView::Vmess(c@),
            ProxyConfig::Vless(c) => ProxyConfigView::Vless(c@),
            ProxyConfig::Shadowsocks(c) => ProxyConfigView::Shadowsocks(c@),
            ProxyConfig::Trojan(c) => ProxyConfigView::Trojan(c@),
        }
    }
}


pub open spec fn vless_promoted() -> Seq<Seq<char>> {
    seq!["type"@, "security"@, "encryption"@, "path"@, "host"@]
}

pub open spec fn trojan_promoted() -> Seq<Seq<char>> {
    seq!["sni"@, "path"@, "host"@, "allowInsecure"@]
}

pub open spec fn vmess_promoted() -> Seq<Seq<char>> {
    seq!["add"@, "port"@, "id"@, "aid"@, "net"@, "type"@, "host"@, "path"@, "tls"@, "ps"@]
}

pub open spec fn valid_port(p: u16) -> bool {
    1 <= p
}

impl ProxyConfigView {
    pub open spec fn address(self) -> Seq<char> {
        match self {
            ProxyConfigView::Vmess(c) => c.address,
            ProxyConfigView::Vless(c) => c.address,
            ProxyConfigView::Shadowsocks(c) => c.address,
            ProxyConfigView::Trojan(c) => c.address,
        }
    }

    pub open spec fn port(self) -> u16 {
        match self {
            ProxyConfigView::Vmess(c) => c.port,
            ProxyConfigView::Vless(c) => c.port,
            ProxyConfigView::Shadowsocks(c) => c.port,
            ProxyConfigView::Trojan(c) => c.port,
        }
    }

    pub open spec fn id(self) -> Option<Seq<char>> {
        match self {
            ProxyConfigView::Vmess(c) => Some(c.id),
            ProxyConfigView::Vless(c) => Some(c.id),
            ProxyConfigView::Shadowsocks(_) => None,
            ProxyConfigView::Trojan(c) => Some(c.password),
        }
    }

    pub open spec fn name(self) -> Option<Seq<char>> {
        match self {
            ProxyConfigView::Vmess(c) => c.name,
            ProxyConfigView::Vless(c) => c.name,
            ProxyConfigView::Shadowsocks(c) => c.name,
            ProxyConfigView::Trojan(c) => c.name,
        }
    }

    /// The invariant of every successfully parsed configuration.
    pub open spec fn wf(self) -> bool {
        &&& self.address().len() > 0
        &&& valid_port(self.port())
        &&& match self {
            ProxyConfigView::Vmess(c) => c.id.len() > 0 && extras_ok(c.extras, vmess_promoted()),
            ProxyConfigView::Vless(c) => {
                &&& c.id.len() > 0
                &&& extras_ok(c.extras, vless_promoted())
                &&& c.tls == (c.security == Some("tls"@))
            },
            ProxyConfigView::Shadowsocks(c) => {
                c.method.len() > 0 && c.password.len() > 0 && extras_ok(c.extras, seq![])
            },
            ProxyConfigView::Trojan(c) => {
                c.password.len() > 0 && extras_ok(c.extras, trojan_promoted())
            },
        }
    }
}

impl ProxyConfig {
    /// The connection id or password; `None` for Shadowsocks.
    pub fn id(&self) -> (r: Option<&str>)
        ensures
            match r {
                Some(s) => self@.id() == Some(s@),
                None => self@.id() is None,
            },
    {
        match self {
            ProxyConfig::Vless(value) => Some(value.id.as_str()),
            ProxyConfig::Vmess(value) => Some(value.id.as_str()),
            ProxyConfig::Trojan(value) => Some(value.password.as_str()),
            ProxyConfig::Shadowsocks(_) => None,
        }
    }

    /// The server address.
    pub fn address(&self) -> (r: &str)
        ensures
            r@ == self@.address(),
    {
        match self {
            ProxyConfig::Vless(value) => value.address.as_str(),
            ProxyConfig::Vmess(value) => value.address.as_str(),
            ProxyConfig::Trojan(value) => value.address.as_str(),
            ProxyConfig::Shadowsocks(value) => value.address.as_str(),
        }
    }

    /// The server port.
    pub fn port(&self) -> (r: u16)
        ensures
            r == self@.port(),
    {
        match self {
            ProxyConfig::Vless(value) => value.port,
            ProxyConfig::Vmess(value) => value.port,
            ProxyConfig::Trojan(value) => value.port,
            ProxyConfig::Shadowsocks(value) => value.port,
        }
    }

    /// The display name, if the link carried one.
    pub fn display_name(&self) -> (r: Option<&str>)
        ensures
            match r {
                Some(s) => self@.name() == Some(s@),
                None => self@.name() is None,
            },
    {
        let name = match self {
            ProxyConfig::Vless(value) => &value.name,
            ProxyConfig::Vmess(value) => &value.name,
            ProxyConfig::Trojan(value) => &value.name,
            ProxyConfig::Shadowsocks(value) => &value.name,
        };
        match name {
            Some(s) => Some(s.as_str()),
            None => None,
        }
    }
}

} // verus!
