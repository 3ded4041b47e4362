use hfb_auth::connexion::{
    check_login, complete_login, registration_command, user_key, Admin, Login, LoginError, Register, RegisterError, User,
};
use hfb_auth::datetime::UtcDateTime;
use hfb_auth::model_key::ModelKey;
use hfb_auth::password::{hash_password, verify_password, PasswordError};
use hfb_auth::session::{LoggedInUser, SessionData};
use hfb_auth::user::{UserCommand, UserRole, UserState};

#[test]
fn hashed_password_verifies() {
    let h = hash_password("secret").unwrap();
    assert!(h.starts_with("$argon2"));
    assert_eq!(verify_password("secret", &h), Ok(true));
    assert_eq!(verify_password("other", &h), Ok(false));
    assert_eq!(verify_password("secret", "not a hash"), Err(PasswordError::InvalidHash));
    assert_ne!(hash_password("secret").unwrap(), h);
}

fn register_form(pseudo: &str, password: &str, password_check: &str) -> Register {
    Register {
        email: "bob@example.com".to_string(),
        pseudo: pseudo.to_string(),
        password: password.to_string(),
        password_check: password_check.to_string(),
    }
}

fn login_form(password: &str) -> Login {
    Login { identity: "bob@example.com".to_string(), password: password.to_string() }
}

fn registered(password: &str) -> UserState {
    let (key, cmd) = registration_command(&register_form("bob", password, password)).unwrap();
    assert!(key.same(&user_key("bob@example.com")));
    let mut s = UserState::default();
    let evs = s.try_command_at(cmd, UtcDateTime { secs: 1, nanos: 0 }).unwrap();
    s.play_events(&evs);
    s
}

#[test]
fn register_then_login() {
    let s = registered("pw");
    assert_eq!(s.pseudo(), "bob");
    assert_eq!(check_login(&s, &login_form("pw")), Ok(()));
    assert_eq!(check_login(&s, &login_form("bad")), Err(LoginError::WrongPassword));
}

#[test]
fn login_refusals() {
    assert_eq!(check_login(&UserState::default(), &login_form("pw")), Err(LoginError::LoginFailed));
    let mut s = UserState::default();
    let evs = s.try_command_at(UserCommand::Login, UtcDateTime { secs: 2, nanos: 0 }).unwrap();
    s.play_events(&evs);
    assert_eq!(check_login(&s, &login_form("pw")), Err(LoginError::PasswordCorrupted));
    let mut s = UserState::default();
    let evs = s
        .try_command_at(UserCommand::ChangePassword { password_hash: "garbage".to_string() }, UtcDateTime { secs: 3, nanos: 0 })
        .unwrap();
    s.play_events(&evs);
    assert_eq!(check_login(&s, &login_form("pw")), Err(LoginError::PasswordHashingFailed));
    assert_eq!(LoginError::LoginFailed.message(), "Login failed");
    assert_eq!(LoginError::PasswordCorrupted.message(), "Database password corrupted");
}

#[test]
fn registration_needs_matching_passwords() {
    assert!(matches!(registration_command(&register_form("bob", "a", "b")), Err(RegisterError::PasswordMismatch)));
    match registration_command(&register_form("bob", "a", "a")) {
        Ok((key, UserCommand::Create { pseudo, password_hash })) => {
            assert_eq!(key.to_string(), user_key("bob@example.com").to_string());
            assert_eq!(pseudo, "bob");
            assert_eq!(verify_password("a", &password_hash), Ok(true));
        }
        _ => panic!("expected a creation"),
    }
}

#[test]
fn user_keys_derive_from_identity() {
    let a = user_key("bob@example.com");
    let b = user_key("bob@example.com");
    let c = user_key("eve@example.com");
    assert!(a.same(&b));
    assert!(!a.same(&c));
    assert_eq!(a.stream_name(), "user_stream");
    let theirs = horfimbor_eventsource::model_key::ModelKey::new_uuid_v8("user_stream", hfb_auth::AUTH_USER_UUID, "bob@example.com");
    assert_eq!(a.to_string(), theirs.to_string());
}

#[test]
fn login_fills_the_session() {
    let mut s = registered("pw");
    let evs = s.try_command_at(UserCommand::ChangeRole(Some(UserRole::Admin)), UtcDateTime { secs: 5, nanos: 0 }).unwrap();
    s.play_events(&evs);
    let mut session = SessionData::new("https://auth.example.com/back").unwrap();
    let target = complete_login(&mut session, ModelKey::new("user_stream", 9), &s);
    assert_eq!(target, "https://auth.example.com/back".to_string());
    let u = session.user().as_ref().unwrap();
    assert_eq!(u.pseudo, "bob");
    assert!(u.is_admin);
    assert_eq!(u.user_id.stream_id(), 9);
}

#[test]
fn page_guards() {
    let mut session = SessionData::new("https://auth.example.com").unwrap();
    assert!(User::from_session(&session).is_none());
    assert!(Admin::from_session(&session).is_none());
    session.set_user(Some(LoggedInUser { user_id: ModelKey::new("user_stream", 1), pseudo: "p".to_string(), is_admin: false }));
    assert_eq!(User::from_session(&session).unwrap().data().pseudo, "p");
    assert!(Admin::from_session(&session).is_none());
    session.set_user(Some(LoggedInUser { user_id: ModelKey::new("user_stream", 1), pseudo: "a".to_string(), is_admin: true }));
    assert!(Admin::from_session(&session).unwrap().data().is_admin);
}

#[test]
fn login_then_guards() {
    let user = registered("pw");
    let mut session = SessionData::new("https://auth.example.com").unwrap();
    session.set_user(Some(LoggedInUser { user_id: ModelKey::new("user_stream", 4), pseudo: "old".to_string(), is_admin: true }));
    complete_login(&mut session, ModelKey::new("user_stream", 7), &user);
    let guard = User::from_session(&session).unwrap();
    assert_eq!(guard.data().pseudo, "bob");
    assert_eq!(guard.data().user_id.stream_id(), 7);
    assert!(!guard.data().is_admin);
    assert!(Admin::from_session(&session).is_none());
}
