//! The generic URI parser: a line broken into the components that the
//! protocol parsers read.
use crate::config::{opt_view, pairs_view};
use crate::pairs::Pairs;
use vstd::prelude::*;

verus! {

/// The components of a parsed URI, as plain values.
#[derive(Debug, Clone, PartialEq, Eq)]
pub struct UriParts {
    /// Lower-case scheme, without `://`.
    pub scheme: String,
    /// User name of the userinfo (empty when absent), as written.
    pub username: String,
    /// Password of the userinfo, as written.
    pub password: Option<String>,
    /// Host, when the URI has one.
    pub host: Option<String>,
    /// Explicit port.
    pub port: Option<u16>,
    /// Query parameters, percent-decoded, in order of appearance.
    pub query: Vec<(String, String)>,
    /// Fragment, without `#`.
    pub fragment: Option<String>,
}

pub struct UriView {
    pub scheme: Seq<char>,
    pub username: Seq<char>,
    pub password: Option<Seq<char>>,
    pub host: Option<Seq<char>>,
    pub port: Option<u16>,
    pub query: Pairs,
    pub fragment: Option<Seq<char>>,
}

impl View for UriParts {
    type V = UriView;

    open spec fn view(&self) -> UriView {
        UriView {
            scheme: self.scheme@,
            username: self.username@,
            password: opt_view(self.password),
            host: opt_view(self.host),
            port: self.port,
            query: pairs_view(self.query@),
            fragment: opt_view(self.fragment),
        }
    }
}

/// What the WHATWG URL parser of the `url` crate makes of `line`; `None`
/// where it rejects the line.
pub uninterp spec fn url_parse(line: Seq<char>) -> Option<UriView>;

/// Relies on `url::Url::parse` and its component getters (`scheme`,
/// `username`, `password`, `host_str`, `port`, `query_pairs`, `fragment`):
/// the result depends on the line alone.
#[verifier::external_body]
pub(crate) fn parse_uri(line: &str) -> (r: Option<UriParts>)
    ensures
        match r {
            Some(u) => url_parse(line@) == Some(u@),
            None => url_parse(line@) is None,
        },
{
    let u = url::Url::parse(line).ok()?;
    Some(UriParts {
        scheme: u.scheme().to_owned(),
        username: u.username().to_owned(),
        password: u.password().map(str::to_owned),
        host: u.host_str().map(str::to_owned),
        port: u.port(),
        query: u.query_pairs().into_owned().collect(),
        fragment: u.fragment().map(str::to_owned),
    })
}

} // verus!
