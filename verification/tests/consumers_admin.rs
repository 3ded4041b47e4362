use hfb_auth::account::{AccountEvent, PrvAccountEvent};
use hfb_auth::admin::{create_application_at, new_form_guard, update_target_at, AdminError, Application as ApplicationForm, APPLICATION_CSRF};
use hfb_auth::application::{ApplicationCommand, ApplicationEvent, ApplicationList, PrivateApplicationEvent};
use hfb_auth::consumer::{account_created_command, record_application};
use hfb_auth::datetime::UtcDateTime;
use hfb_auth::error::{some_error_func, ErrorApi};
use hfb_auth::events::PubAccountEvent;
use hfb_auth::model::{Account, Application, OneTimeToken};
use hfb_auth::model_key::{ModelKey, ModelKeyError};
use hfb_auth::session::{Csrf, CsrfError, SessionData};
use hfb_auth::url::{Url, UrlParseError};
use hfb_auth::user::UserCommand;

#[test]
fn application_list_follows_creations() {
    let mut list: Vec<ApplicationList> = Vec::new();
    let created = ApplicationEvent::Private(PrivateApplicationEvent::Created {
        name: "game".to_string(),
        host: Url::parse("https://game.example.com").unwrap(),
        key: "K".to_string(),
    });
    assert!(record_application(&mut list, "ev-1".to_string(), created));
    let changed = ApplicationEvent::Private(PrivateApplicationEvent::KeyChanged { key: "K2".to_string() });
    assert!(!record_application(&mut list, "ev-2".to_string(), changed));
    assert_eq!(list.len(), 1);
    assert_eq!(list[0].id, "ev-1");
    assert_eq!(list[0].name, "game");
    assert_eq!(list[0].host.as_str(), "https://game.example.com/");
}

#[test]
fn account_creation_links_the_account() {
    let stream = "account_stream-00000000-0000-0000-0000-000000000042";
    let ev = AccountEvent::Public(PubAccountEvent::AccountCreated {
        user_id: ModelKey::new("user_stream", 1),
        app_id: ModelKey::new("apps_stream", 2),
        name: "main".to_string(),
    });
    let (user, cmd) = account_created_command(stream, &ev).unwrap().unwrap();
    assert_eq!(user.stream_id(), 1);
    match cmd {
        UserCommand::AddAccount { application, account, label } => {
            assert_eq!(application.stream_id(), 2);
            assert_eq!(account.stream_id(), 0x42);
            assert_eq!(label, "main");
        }
        _ => panic!("expected an account link"),
    }
    assert_eq!(account_created_command("bad", &ev).err().unwrap(), ModelKeyError::UuidError);
    let other = AccountEvent::Public(PubAccountEvent::AccountSuspended);
    assert!(account_created_command(stream, &other).unwrap().is_none());
    let private = AccountEvent::Private(PrvAccountEvent::OneTimeTokenRemoved);
    assert!(account_created_command(stream, &private).unwrap().is_none());
}

fn guarded_session() -> SessionData {
    let mut s = SessionData::new("https://auth.example.com").unwrap();
    s.set_csrf(Some(Csrf::new_at(APPLICATION_CSRF, "GOOD".to_string(), UtcDateTime { secs: 0, nanos: 0 })));
    s
}

#[test]
fn form_guard_is_stored() {
    let mut s = SessionData::new("https://auth.example.com").unwrap();
    let value = new_form_guard(&mut s);
    assert_eq!(value.len(), 40);
    assert_eq!(s.csrf().as_ref().unwrap().value(), value);
    assert_eq!(s.check_csrf(APPLICATION_CSRF, &value), Ok(()));
}

fn app_form(name: &str, host: &str, csrf: &str) -> ApplicationForm {
    ApplicationForm { name: name.to_string(), host: host.to_string(), csrf: csrf.to_string() }
}

#[test]
fn update_form() {
    let s = guarded_session();
    let now = UtcDateTime { secs: 10, nanos: 0 };
    let k = update_target_at(&s, &app_form("", "", "GOOD"), "00000000-0000-0000-0000-000000000009", now).unwrap();
    assert_eq!(k.stream_id(), 9);
    assert_eq!(k.stream_name(), "apps_stream");
    assert_eq!(update_target_at(&s, &app_form("", "", "BAD"), "x", now).err().unwrap(), AdminError::Csrf(CsrfError::WrongCsrf));
    assert_eq!(update_target_at(&s, &app_form("", "", "GOOD"), "x", now).err().unwrap(), AdminError::InvalidId);
}

#[test]
fn create_form() {
    let s = guarded_session();
    let now = UtcDateTime { secs: 10, nanos: 0 };
    let (key, cmd) = create_application_at(&s, &app_form("game", "https://game.example.com", "GOOD"), now).ok().unwrap();
    let theirs = horfimbor_eventsource::model_key::ModelKey::new_uuid_v8("apps_stream", hfb_auth::AUTH_APPLICATION_UUID, "https://game.example.com");
    assert_eq!(key.to_string(), theirs.to_string());
    assert!(matches!(cmd, ApplicationCommand::Create { ref name, ref host } if name == "game" && host.as_str() == "https://game.example.com/"));
    assert_eq!(
        create_application_at(&s, &app_form("game", "nope", "GOOD"), now).err().unwrap(),
        AdminError::InvalidHost(UrlParseError::RelativeUrlWithoutBase)
    );
    let empty = SessionData::new("https://auth.example.com").unwrap();
    assert_eq!(
        create_application_at(&empty, &app_form("g", "https://g.com", "GOOD"), now).err().unwrap(),
        AdminError::Csrf(CsrfError::NoCsrf)
    );
}

#[test]
fn error_reports() {
    assert_eq!(ErrorApi::new("boom", "src/web/error.rs", 42).error(), "src/web/error.rs:42 : boom");
    assert_eq!(some_error_func(), Err("something wrong".to_string()));
}

#[test]
fn database_records() {
    let a = Account::new("01797a2e-19de-467c-bda2-eddc2a2cbf8c".to_string(), "bob".to_string(), None);
    assert_eq!(a.uuid(), 0x01797a2e_19de_467c_bda2_eddc2a2cbf8c);
    assert_eq!(a.pseudo(), "bob");
    assert_eq!(Account::new("bad".to_string(), "x".to_string(), Some("admin".to_string())).try_uuid(), None);
    let app = Application::new("u".to_string(), "n".to_string(), "h".to_string(), "k".to_string());
    assert_eq!((app.uuid(), app.name(), app.host(), app.app_key()), ("u", "n", "h", "k"));
    let t = OneTimeToken::new("app".to_string(), "acc".to_string(), "tok".to_string());
    assert_eq!((t.application_id(), t.account_id()), ("app", "acc"));
}
