use hfb_auth::datetime::UtcDateTime;
use hfb_auth::model_key::ModelKey;
use hfb_auth::session::{Csrf, CsrfError, LoggedInUser, SessionData};
use hfb_auth::url::{Url, UrlParseError};

fn at(secs: i64, nanos: u32) -> UtcDateTime {
    UtcDateTime { secs, nanos }
}

#[test]
fn fresh_session_points_home() {
    let s = SessionData::new("http://localhost:8000").unwrap();
    assert_eq!(s.redirect_url().as_str(), "http://localhost:8000/");
    assert!(s.user().is_none());
    assert!(s.application().is_none());
    assert!(s.csrf().is_none());
    assert_eq!(SessionData::new("not a url").unwrap_err(), UrlParseError::RelativeUrlWithoutBase);
}

#[test]
fn setters_change_one_field() {
    let mut s = SessionData::new("http://localhost:8000").unwrap();
    s.set_application(Some(ModelKey::new("apps_stream", 3)));
    s.set_user(Some(LoggedInUser { user_id: ModelKey::new("user_stream", 4), pseudo: "bob".to_string(), is_admin: true }));
    s.set_redirect_url(Url::parse("https://game.example.com/back").unwrap());
    assert_eq!(s.application().as_ref().unwrap().stream_id(), 3);
    assert_eq!(s.user().as_ref().unwrap().pseudo, "bob");
    assert_eq!(s.redirect_url().as_str(), "https://game.example.com/back");
    s.set_user(None);
    assert!(s.user().is_none());
}

#[test]
fn csrf_expires_ten_minutes_later() {
    let c = Csrf::new_at("FORM", "VALUE".to_string(), at(1000, 7));
    assert_eq!(c.expire(), at(1600, 7));
    assert!(c.check_at("FORM", "VALUE", at(1000, 7)));
    assert!(c.check_at("FORM", "VALUE", at(1600, 7)));
    assert!(!c.check_at("FORM", "VALUE", at(1600, 8)));
    assert!(!c.check_at("OTHER", "VALUE", at(1001, 0)));
    assert!(!c.check_at("FORM", "WRONG", at(1001, 0)));
}

#[test]
fn fresh_csrf_guard() {
    let c = Csrf::new("FORM");
    assert_eq!(c.form(), "FORM");
    assert_eq!(c.value().len(), 40);
    assert!(c.value().chars().all(|ch| ch.is_ascii_alphanumeric()));
    let value = c.value().to_string();
    assert!(c.check("FORM", &value));
    let now = system_now();
    assert!(c.expire().secs >= now.secs + 599);
    assert!(c.expire().secs <= now.secs + 600);
}

#[test]
fn session_csrf_check() {
    let mut s = SessionData::new("http://localhost:8000").unwrap();
    assert_eq!(s.check_csrf("FORM", "x"), Err(CsrfError::NoCsrf));
    s.set_csrf(Some(Csrf::new_at("FORM", "VALUE".to_string(), at(10, 0))));
    assert_eq!(s.check_csrf_at("FORM", "VALUE", at(20, 0)), Ok(()));
    assert_eq!(s.check_csrf_at("FORM", "nope", at(20, 0)), Err(CsrfError::WrongCsrf));
    assert_eq!(s.check_csrf_at("FORM", "VALUE", at(700, 0)), Err(CsrfError::WrongCsrf));
    assert_eq!(s.check_csrf("FORM", "VALUE"), Err(CsrfError::WrongCsrf));
}

fn system_now() -> UtcDateTime {
    let d = std::time::SystemTime::now().duration_since(std::time::UNIX_EPOCH).unwrap();
    UtcDateTime { secs: d.as_secs() as i64, nanos: d.subsec_nanos() }
}

#[test]
fn clock_is_after_the_epoch() {
    let now = system_now();
    let issued = Csrf::new("FORM").expire().secs - 600;
    assert!(issued > 1_600_000_000);
    assert!(issued <= system_now().secs);
    assert!(now.secs > 1_600_000_000);
    assert!(now.nanos < 1_000_000_000);
    assert!(now.after(&UtcDateTime::epoch()));
    assert!(!UtcDateTime::epoch().after(&now));
    assert_eq!(at(5, 1).plus_seconds(10), at(15, 1));
}

#[test]
fn csrf_error_messages() {
    assert_eq!(CsrfError::NoCsrf.message(), "no csrf");
    assert_eq!(CsrfError::WrongCsrf.message(), "wrong csrf");
}

#[test]
fn csrf_window_ends_ten_minutes_after() {
    let made = at(5000, 250);
    let mut s = SessionData::new("https://auth.example.com").unwrap();
    assert_eq!(s.check_csrf_at("FORM", "V", made), Err(CsrfError::NoCsrf));
    s.set_csrf(Some(Csrf::new_at("FORM", "V".to_string(), made)));
    assert_eq!(s.check_csrf_at("FORM", "V", made), Ok(()));
    assert_eq!(s.check_csrf_at("FORM", "V", at(5600, 250)), Ok(()));
    assert_eq!(s.check_csrf_at("FORM", "V", at(5600, 251)), Err(CsrfError::WrongCsrf));
    assert_eq!(s.check_csrf_at("OTHER", "V", made), Err(CsrfError::WrongCsrf));
    assert_eq!(s.check_csrf_at("FORM", "W", made), Err(CsrfError::WrongCsrf));
}
