//! The `redirect` parameter of the authorization request: a URL whose host
//! must be a domain name.

use vstd::prelude::*;
use crate::text::joined;
use crate::url::{spec_parse_url, HostKind, Url, UrlParseError};

verus! {

/// The message `url` gives for a parse error (its source writes these texts),
/// and a message of this library for an error `url` does not name.
pub open spec fn parse_error_message(e: UrlParseError) -> Seq<char> {
    match e {
        UrlParseError::EmptyHost => "empty host"@,
        UrlParseError::IdnaError => "invalid international domain name"@,
        UrlParseError::InvalidPort => "invalid port number"@,
        UrlParseError::InvalidIpv4Address => "invalid IPv4 address"@,
        UrlParseError::InvalidIpv6Address => "invalid IPv6 address"@,
        UrlParseError::InvalidDomainCharacter => "invalid domain character"@,
        UrlParseError::RelativeUrlWithoutBase => "relative URL without a base"@,
        UrlParseError::RelativeUrlWithCannotBeABaseBase => "relative URL with a cannot-be-a-base base"@,
        UrlParseError::SetHostOnCannotBeABaseUrl => "a cannot-be-a-base URL doesn’t have a host to set"@,
        UrlParseError::Overflow => "URLs more than 4 GB are not supported"@,
        UrlParseError::Other => "unknown URL error"@,
    }
}

/// `Display` of `url::ParseError`, for the variant that `e` stands for; `None`
/// for `Other`, which stands for no variant of `url`. The texts are those that
/// `url`'s source writes for each variant.
#[verifier::external_body]
fn url_error_text(e: UrlParseError) -> (r: Option<String>)
    ensures
        r is None <==> e == UrlParseError::Other,
        r matches Some(t) ==> t@ == parse_error_message(e),
{
    let outside = match e {
        UrlParseError::EmptyHost => url::ParseError::EmptyHost,
        UrlParseError::IdnaError => url::ParseError::IdnaError,
        UrlParseError::InvalidPort => url::ParseError::InvalidPort,
        UrlParseError::InvalidIpv4Address => url::ParseError::InvalidIpv4Address,
        UrlParseError::InvalidIpv6Address => url::ParseError::InvalidIpv6Address,
        UrlParseError::InvalidDomainCharacter => url::ParseError::InvalidDomainCharacter,
        UrlParseError::RelativeUrlWithoutBase => url::ParseError::RelativeUrlWithoutBase,
        UrlParseError::RelativeUrlWithCannotBeABaseBase => url::ParseError::RelativeUrlWithCannotBeABaseBase,
        UrlParseError::SetHostOnCannotBeABaseUrl => url::ParseError::SetHostOnCannotBeABaseUrl,
        UrlParseError::Overflow => url::ParseError::Overflow,
        UrlParseError::Other => return None,
    };
    Some(outside.to_string())
}

impl UrlParseError {
    /// The message of the error, as `url` displays it.
    pub fn message(&self) -> (r: String)
        ensures
            r@ == parse_error_message(*self),
    {
        match url_error_text(*self) {
            Some(t) => t,
            None => {
                proof {
                    reveal_strlit("unknown URL error");
                }
                String::from_str("unknown URL error")
            },
        }
    }
}

/// Why a submitted redirection is refused.
#[derive(Clone, Copy, Debug, PartialEq, Eq, Structural)]
pub enum RedirectError {
    /// The value is not a URL.
    InvalidUrl(UrlParseError),
    /// The URL has no host.
    NoHost,
    /// The host is an IPv4 address.
    Ipv4Host,
    /// The host is an IPv6 address.
    Ipv6Host,
}

/// The message shown for a refused redirection.
pub open spec fn redirect_error_message(e: RedirectError) -> Seq<char> {
    match e {
        RedirectError::InvalidUrl(p) => "invalid url "@ + parse_error_message(p),
        RedirectError::NoHost => "no host"@,
        RedirectError::Ipv4Host => "domain cannot be an ip v4"@,
        RedirectError::Ipv6Host => "domain cannot be an ip v6"@,
    }
}

impl RedirectError {
    /// The message shown for the error.
    pub fn message(&self) -> (r: String)
        ensures
            r@ == redirect_error_message(*self),
    {
        match self {
            RedirectError::InvalidUrl(p) => joined("invalid url ", p.message().as_str()),
            RedirectError::NoHost => String::from_str("no host"),
            RedirectError::Ipv4Host => String::from_str("domain cannot be an ip v4"),
            RedirectError::Ipv6Host => String::from_str("domain cannot be an ip v6"),
        }
    }
}

/// The abstract redirection: the URL, or the error its text gave.
pub struct RedirectView {
    pub url: Option<(Seq<char>, HostKind)>,
    pub error: Option<UrlParseError>,
}

/// A redirection URL, or why its text was not one.
#[derive(Debug)]
pub struct RedirectUrl {
    url: Option<Url>,
    error: Option<UrlParseError>,
}

impl View for RedirectUrl {
    type V = RedirectView;

    closed spec fn view(&self) -> RedirectView {
        RedirectView {
            url: match self.url {
                Some(u) => Some(u@),
                None => None,
            },
            error: self.error,
        }
    }
}

/// The URL a redirection gives: its URL, or its error (an empty host when it
/// holds neither).
pub open spec fn redirect_outcome(r: RedirectView) -> Result<(Seq<char>, HostKind), UrlParseError> {
    match r.url {
        Some(u) => Ok(u),
        None => match r.error {
            None => Err(UrlParseError::EmptyHost),
            Some(e) => Err(e),
        },
    }
}

/// The redirection built from the outcome of parsing its text.
pub open spec fn redirect_from_parse(p: Result<(Seq<char>, HostKind), UrlParseError>) -> RedirectView {
    match p {
        Ok(u) => RedirectView { url: Some(u), error: None },
        Err(e) => RedirectView { url: None, error: Some(e) },
    }
}

/// What validating a submitted value decides.
pub open spec fn redirect_validation(text: Seq<char>) -> Result<(Seq<char>, HostKind), RedirectError> {
    match spec_parse_url(text) {
        Err(e) => Err(RedirectError::InvalidUrl(e)),
        Ok(u) => match u.1 {
            HostKind::NoHost => Err(RedirectError::NoHost),
            HostKind::Domain => Ok(u),
            HostKind::Ipv4 => Err(RedirectError::Ipv4Host),
            HostKind::Ipv6 => Err(RedirectError::Ipv6Host),
        },
    }
}

/// Reading a redirection back gives exactly what parsing its text gave.
pub proof fn law_redirect_round_trip(p: Result<(Seq<char>, HostKind), UrlParseError>)
    ensures
        redirect_outcome(redirect_from_parse(p)) == p,
{
}

impl RedirectUrl {
    /// The URL, or why there is none.
    pub fn url(&self) -> (r: Result<Url, UrlParseError>)
        ensures
            match r {
                Ok(u) => redirect_outcome(self@) == Ok::<(Seq<char>, HostKind), UrlParseError>(u@),
                Err(e) => redirect_outcome(self@) == Err::<(Seq<char>, HostKind), UrlParseError>(e),
            },
    {
        match &self.url {
            Some(url) => Ok(url.duplicate()),
            None => match self.error {
                None => Err(UrlParseError::EmptyHost),
                Some(e) => Err(e),
            },
        }
    }

    /// Validates a submitted value: it must be a URL whose host is a domain
    /// name.
    pub fn from_value(value: &str) -> (r: Result<RedirectUrl, RedirectError>)
        ensures
            match r {
                Ok(rd) => redirect_validation(value@) == Ok::<(Seq<char>, HostKind), RedirectError>(rd@.url.unwrap())
                    && rd@.error is None && rd@.url is Some,
                Err(e) => redirect_validation(value@) == Err::<(Seq<char>, HostKind), RedirectError>(e),
            },
    {
        let url = match Url::parse(value) {
            Ok(u) => u,
            Err(e) => {
                return Err(RedirectError::InvalidUrl(e));
            },
        };
        match url.host_kind() {
            HostKind::NoHost => Err(RedirectError::NoHost),
            HostKind::Domain => Ok(RedirectUrl { url: Some(url), error: None }),
            HostKind::Ipv4 => Err(RedirectError::Ipv4Host),
            HostKind::Ipv6 => Err(RedirectError::Ipv6Host),
        }
    }

    /// The redirection a query parameter stands for: its URL, or the error
    /// its text gave.
    pub fn from_uri_param(s: String) -> (r: RedirectUrl)
        ensures
            r@ == redirect_from_parse(spec_parse_url(s@)),
    {
        match Url::parse(s.as_str()) {
            Ok(url) => RedirectUrl { url: Some(url), error: None },
            Err(error) => RedirectUrl { url: None, error: Some(error) },
        }
    }
}

} // verus!
