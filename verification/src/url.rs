use crate::strings::{owned, str_eq};
use vstd::prelude::*;

verus! {

/// The host of a URL: a domain name or an IP address literal.
#[derive(Debug)]
pub enum UrlHost {
    Domain(String),
    Ipv4([u8; 4]),
    Ipv6([u16; 8]),
}

/// What a URL host is, as a value.
pub enum UrlHostView {
    Domain(Seq<char>),
    Ipv4(Seq<u8>),
    Ipv6(Seq<u16>),
}

impl View for UrlHost {
    type V = UrlHostView;

    open spec fn view(&self) -> UrlHostView {
        match self {
            UrlHost::Domain(d) => UrlHostView::Domain(d@),
            UrlHost::Ipv4(o) => UrlHostView::Ipv4(o@),
            UrlHost::Ipv6(s) => UrlHostView::Ipv6(s@),
        }
    }
}

/// An absolute URL, parsed: its serialization and the parts of it that the
/// service reads.
#[derive(Debug)]
pub struct Url {
    /// The whole URL, serialized.
    pub serialization: String,
    /// The scheme, lower-cased, without the `:`.
    pub scheme: String,
    /// The host, where the URL has one.
    pub host: Option<UrlHost>,
    /// The host as the URL writes it, IPv6 addresses in brackets.
    pub host_str: Option<String>,
    /// The port, where one is given that is not the scheme's default.
    pub port: Option<u16>,
}

/// What a URL is, as a value.
pub struct UrlView {
    pub serialization: Seq<char>,
    pub scheme: Seq<char>,
    pub host: Option<UrlHostView>,
    pub host_str: Option<Seq<char>>,
    pub port: Option<u16>,
}

/// The text of an optional string.
pub open spec fn opt_text(s: Option<String>) -> Option<Seq<char>> {
    match s {
        Some(s) => Some(s@),
        None => None,
    }
}

pub open spec fn host_view(h: Option<UrlHost>) -> Option<UrlHostView> {
    match h {
        Some(h) => Some(h@),
        None => None,
    }
}

impl View for Url {
    type V = UrlView;

    open spec fn view(&self) -> UrlView {
        UrlView {
            serialization: self.serialization@,
            scheme: self.scheme@,
            host: host_view(self.host),
            host_str: opt_text(self.host_str),
            port: self.port,
        }
    }
}

/// What the `url` crate's parser makes of a string: the URL it reads, or
/// nothing where the string is not an absolute URL.
pub uninterp spec fn spec_parse_url(s: Seq<char>) -> Option<UrlView>;

/// Parses an absolute URL with `url::Url::parse`, and reads from the result
/// its serialization (`as_str`), `scheme`, `host`, `host_str` and `port`. The contract
/// claims only that the outcome is a function of the input string, named
/// `spec_parse_url`.
#[verifier::external_body]
fn parse_url(s: &str) -> (r: Option<Url>)
    ensures
        match r {
            Some(u) => spec_parse_url(s@) == Some(u@),
            None => spec_parse_url(s@) is None,
        },
{
    let u = ::url::Url::parse(s).ok()?;
    let host = match u.host() {
        Some(::url::Host::Domain(d)) => Some(UrlHost::Domain(d.to_string())),
        Some(::url::Host::Ipv4(ip)) => Some(UrlHost::Ipv4(ip.octets())),
        Some(::url::Host::Ipv6(ip)) => Some(UrlHost::Ipv6(ip.segments())),
        None => None,
    };
    let host_str = u.host_str().map(String::from);
    let serialization = u.as_str().to_string();
    Some(Url { serialization, scheme: u.scheme().to_string(), host, host_str, port: u.port() })
}

impl UrlHost {
    /// A copy of the host.
    pub fn duplicate(&self) -> (r: UrlHost)
        ensures
            r@ == self@,
    {
        match self {
            UrlHost::Domain(d) => UrlHost::Domain(owned(d.as_str())),
            UrlHost::Ipv4(o) => UrlHost::Ipv4(*o),
            UrlHost::Ipv6(s) => UrlHost::Ipv6(*s),
        }
    }
}

impl Url {
    /// Parses an absolute URL; `None` where the string is not one.
    pub fn parse(s: &str) -> (r: Option<Url>)
        ensures
            match r {
                Some(u) => spec_parse_url(s@) == Some(u@),
                None => spec_parse_url(s@) is None,
            },
    {
        parse_url(s)
    }

    /// The URL, serialized.
    pub fn as_str(&self) -> (r: &str)
        ensures
            r@ == self.serialization@,
    {
        self.serialization.as_str()
    }

    /// A copy of the URL.
    pub fn duplicate(&self) -> (r: Url)
        ensures
            r@ == self@,
    {
        let host = match &self.host {
            Some(h) => Some(h.duplicate()),
            None => None,
        };
        let host_str = match &self.host_str {
            Some(h) => Some(owned(h.as_str())),
            None => None,
        };
        Url {
            serialization: owned(self.serialization.as_str()),
            scheme: owned(self.scheme.as_str()),
            host,
            host_str,
            port: self.port,
        }
    }

    /// Whether two URLs serialize the same.
    pub fn same_as(&self, other: &Url) -> (r: bool)
        ensures
            r == (self.serialization@ == other.serialization@),
    {
        str_eq(self.serialization.as_str(), other.serialization.as_str())
    }
}

} // verus!
