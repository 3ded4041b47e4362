//! Parsed URLs, held as their serialization and the kind of their host.

use vstd::prelude::*;

verus! {

/// The kind of host a URL names.
#[derive(Clone, Copy, Debug, PartialEq, Eq, Structural)]
pub enum HostKind {
    /// The URL has no host.
    NoHost,
    /// A domain name.
    Domain,
    /// An IPv4 address.
    Ipv4,
    /// An IPv6 address.
    Ipv6,
}

/// Why a text is not a URL (the variants of `url::ParseError`).
#[derive(Clone, Copy, Debug, PartialEq, Eq, Structural)]
pub enum UrlParseError {
    EmptyHost,
    IdnaError,
    InvalidPort,
    InvalidIpv4Address,
    InvalidIpv6Address,
    InvalidDomainCharacter,
    RelativeUrlWithoutBase,
    RelativeUrlWithCannotBeABaseBase,
    SetHostOnCannotBeABaseUrl,
    Overflow,
    /// A variant that a later version of `url` may add.
    Other,
}

/// A parsed URL: its serialization and the kind of its host.
#[derive(Debug)]
pub struct Url {
    serialization: String,
    host: HostKind,
}

impl View for Url {
    type V = (Seq<char>, HostKind);

    closed spec fn view(&self) -> (Seq<char>, HostKind) {
        (self.serialization@, self.host)
    }
}

/// What `url::Url::parse` gives for a text: the serialization of the parsed
/// URL and the kind of its host, or the parse error.
pub uninterp spec fn spec_parse_url(text: Seq<char>) -> Result<(Seq<char>, HostKind), UrlParseError>;

/// `url::ParseError`, the error of `url::Url::parse`.
#[verifier::external_type_specification]
#[verifier::external_body]
pub struct ExParseError(url::ParseError);

/// `url::ParseError` told apart variant by variant. Nothing is claimed.
#[verifier::external_body]
fn url_error_kind(e: url::ParseError) -> UrlParseError {
    match e {
        url::ParseError::EmptyHost => UrlParseError::EmptyHost,
        url::ParseError::IdnaError => UrlParseError::IdnaError,
        url::ParseError::InvalidPort => UrlParseError::InvalidPort,
        url::ParseError::InvalidIpv4Address => UrlParseError::InvalidIpv4Address,
        url::ParseError::InvalidIpv6Address => UrlParseError::InvalidIpv6Address,
        url::ParseError::InvalidDomainCharacter => UrlParseError::InvalidDomainCharacter,
        url::ParseError::RelativeUrlWithoutBase => UrlParseError::RelativeUrlWithoutBase,
        url::ParseError::RelativeUrlWithCannotBeABaseBase => UrlParseError::RelativeUrlWithCannotBeABaseBase,
        url::ParseError::SetHostOnCannotBeABaseUrl => UrlParseError::SetHostOnCannotBeABaseUrl,
        url::ParseError::Overflow => UrlParseError::Overflow,
        _ => UrlParseError::Other,
    }
}

/// `url::Url::parse`, with `Url::as_str` and `Url::host` read off the result.
/// The outcome is named (`spec_parse_url`). One fact is stated: the default
/// application host `https://aedius.fr` parses, as the WHATWG rules that `url`
/// follows require, to `https://aedius.fr/` with a domain host.
#[verifier::external_body]
fn url_parse(text: &str) -> (r: Result<Url, UrlParseError>)
    ensures
        r is Ok ==> spec_parse_url(text@) == Ok::<(Seq<char>, HostKind), UrlParseError>(r->Ok_0@),
        r is Err ==> spec_parse_url(text@) == Err::<(Seq<char>, HostKind), UrlParseError>(r->Err_0),
        text@ == "https://aedius.fr"@ ==> r is Ok && r->Ok_0@ == ("https://aedius.fr/"@, HostKind::Domain),
{
    match url::Url::parse(text) {
        Ok(u) => {
            let host = match u.host() {
                None => HostKind::NoHost,
                Some(url::Host::Domain(_)) => HostKind::Domain,
                Some(url::Host::Ipv4(_)) => HostKind::Ipv4,
                Some(url::Host::Ipv6(_)) => HostKind::Ipv6,
            };
            Ok(Url { serialization: u.as_str().to_string(), host })
        },
        Err(e) => Err(url_error_kind(e)),
    }
}

impl Url {
    /// Parses `text` as an absolute URL.
    pub fn parse(text: &str) -> (r: Result<Url, UrlParseError>)
        ensures
            match r {
                Ok(u) => spec_parse_url(text@) == Ok::<(Seq<char>, HostKind), UrlParseError>(u@),
                Err(e) => spec_parse_url(text@) == Err::<(Seq<char>, HostKind), UrlParseError>(e),
            },
            text@ == "https://aedius.fr"@ ==> (r matches Ok(u) && u@ == ("https://aedius.fr/"@, HostKind::Domain)),
    {
        url_parse(text)
    }

    /// The serialization of the URL.
    pub fn as_str(&self) -> (r: &str)
        ensures
            r@ == self@.0,
    {
        self.serialization.as_str()
    }

    /// The kind of the URL's host.
    pub fn host_kind(&self) -> (r: HostKind)
        ensures
            r == self@.1,
    {
        self.host
    }

    /// A copy of this URL.
    pub fn duplicate(&self) -> (r: Url)
        ensures
            r@ == self@,
    {
        Url { serialization: self.serialization.clone(), host: self.host }
    }

    /// Whether both URLs have the same serialization (how `url` compares them).
    pub fn same(&self, other: &Url) -> (r: bool)
        ensures
            r == (self@.0 == other@.0),
    {
        self.serialization == other.serialization
    }
}

} // verus!
