use hfb_auth::redirect::{RedirectError, RedirectUrl};
use hfb_auth::url::{HostKind, Url, UrlParseError};

#[test]
fn domain_redirections_are_accepted() {
    let r = RedirectUrl::from_value("https://game.example.com/cb?x=1").unwrap();
    assert_eq!(r.url().unwrap().as_str(), "https://game.example.com/cb?x=1");
}

#[test]
fn ip_and_hostless_redirections_are_refused() {
    assert_eq!(RedirectUrl::from_value("http://127.0.0.1/").unwrap_err(), RedirectError::Ipv4Host);
    assert_eq!(RedirectUrl::from_value("http://[::1]/").unwrap_err(), RedirectError::Ipv6Host);
    assert_eq!(RedirectUrl::from_value("mailto:bob@example.com").unwrap_err(), RedirectError::NoHost);
    assert_eq!(
        RedirectUrl::from_value("/relative").unwrap_err(),
        RedirectError::InvalidUrl(UrlParseError::RelativeUrlWithoutBase)
    );
}

#[test]
fn refusal_messages() {
    assert_eq!(RedirectError::Ipv4Host.message(), "domain cannot be an ip v4".to_string());
    assert_eq!(RedirectError::Ipv6Host.message(), "domain cannot be an ip v6".to_string());
    assert_eq!(RedirectError::NoHost.message(), "no host".to_string());
    assert_eq!(
        RedirectError::InvalidUrl(UrlParseError::RelativeUrlWithoutBase).message(),
        format!("invalid url {}", url::ParseError::RelativeUrlWithoutBase)
    );
    assert_eq!(UrlParseError::EmptyHost.message(), url::ParseError::EmptyHost.to_string());
    assert_eq!(UrlParseError::Overflow.message(), url::ParseError::Overflow.to_string());
    assert_eq!(
        UrlParseError::SetHostOnCannotBeABaseUrl.message(),
        url::ParseError::SetHostOnCannotBeABaseUrl.to_string()
    );
}

#[test]
fn query_parameter_round_trip() {
    let r = RedirectUrl::from_uri_param("https://game.example.com/x".to_string());
    assert_eq!(r.url().unwrap().as_str(), "https://game.example.com/x");
    let bad = RedirectUrl::from_uri_param("http://".to_string());
    assert_eq!(bad.url().unwrap_err(), UrlParseError::EmptyHost);
    let bad = RedirectUrl::from_uri_param("nothing".to_string());
    assert_eq!(bad.url().unwrap_err(), UrlParseError::RelativeUrlWithoutBase);
}

#[test]
fn url_parsing_reads_host_kinds() {
    assert_eq!(Url::parse("https://a.b/").unwrap().host_kind(), HostKind::Domain);
    assert_eq!(Url::parse("http://10.0.0.1").unwrap().host_kind(), HostKind::Ipv4);
    assert_eq!(Url::parse("http://10.0.0.1").unwrap().as_str(), "http://10.0.0.1/");
    assert_eq!(Url::parse("data:text/plain,x").unwrap().host_kind(), HostKind::NoHost);
    assert_eq!(Url::parse("http://a:99999/").unwrap_err(), UrlParseError::InvalidPort);
    let a = Url::parse("https://a.b").unwrap();
    assert!(a.same(&Url::parse("https://a.b/").unwrap()));
    assert!(a.same(&a.duplicate()));
}

#[test]
fn parse_error_messages_come_from_url() {
    assert_eq!(UrlParseError::InvalidPort.message(), url::ParseError::InvalidPort.to_string());
    assert_eq!(UrlParseError::Other.message(), "unknown URL error");
}
