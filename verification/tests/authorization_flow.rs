use hfb_auth::account::{AccountCommand, AccountError, AccountState};
use hfb_auth::application::{ApplicationCommand, ApplicationState};
use hfb_auth::authorization::{
    application_key, authorize_choice, authorize_page, authorize_redirect, authorize_target, check_app_key,
    check_one_time_token, claims, claims_at, guest_redirect, new_account_commands, new_account_key,
    token_account_key, Authorize, AuthorizeChoice, AuthorizeError, SingleUseToken,
};
use hfb_auth::datetime::UtcDateTime;
use hfb_auth::model_key::{ModelKey, ModelKeyError};
use hfb_auth::redirect::RedirectUrl;
use hfb_auth::session::SessionData;
use hfb_auth::url::{Url, UrlParseError};
use hfb_auth::user::{UserCommand, UserState};

fn app_state(name: &str, host: &str, key: &str) -> ApplicationState {
    let mut s = ApplicationState::default();
    let evs = s
        .try_command_with_key(
            ApplicationCommand::Create { name: name.to_string(), host: Url::parse(host).unwrap() },
            key.to_string(),
        )
        .unwrap();
    s.play_events(&evs);
    s
}

fn user_with(app: &ModelKey, account: &ModelKey, label: &str) -> UserState {
    let mut s = UserState::default();
    let evs = s
        .try_command_at(
            UserCommand::AddAccount { application: app.duplicate(), account: account.duplicate(), label: label.to_string() },
            UtcDateTime { secs: 1, nanos: 0 },
        )
        .unwrap();
    s.play_events(&evs);
    s
}

#[test]
fn target_of_an_authorization() {
    let r = RedirectUrl::from_uri_param("https://game.example.com".to_string());
    let (url, key) = authorize_target(&r).unwrap();
    assert_eq!(url.as_str(), "https://game.example.com/");
    assert!(key.same(&application_key(&url)));
    assert_eq!(key.stream_name(), "apps_stream");
    let bad = RedirectUrl::from_uri_param("nope".to_string());
    assert_eq!(
        authorize_target(&bad).err().unwrap(),
        AuthorizeError::InvalidRedirect(UrlParseError::RelativeUrlWithoutBase)
    );
}

#[test]
fn authorization_page_lists_accounts() {
    let url = Url::parse("https://game.example.com").unwrap();
    let app_key = application_key(&url);
    let account = ModelKey::new("account.stream", 5);
    let user = user_with(&app_key, &account, "main");
    let mut session = SessionData::new("https://auth.example.com").unwrap();
    let page = authorize_page(&mut session, url.duplicate(), app_key.duplicate(), &app_state("game", "https://game.example.com", "K"), &user)
        .ok()
        .unwrap();
    assert_eq!(page.application_name, "game");
    assert_eq!(
        page.accounts,
        vec![("account_stream-00000000-0000-0000-0000-000000000005".to_string(), "main".to_string())]
    );
    assert_eq!(session.redirect_url().as_str(), "https://game.example.com/");
    assert!(session.application().as_ref().unwrap().same(&app_key));
}

#[test]
fn unknown_application_is_refused() {
    let url = Url::parse("https://game.example.com").unwrap();
    let mut session = SessionData::new("https://auth.example.com").unwrap();
    let r = authorize_page(&mut session, url.duplicate(), application_key(&url), &ApplicationState::default(), &UserState::default());
    assert_eq!(r.err().unwrap(), AuthorizeError::ApplicationNotFound);
    assert_eq!(session.redirect_url().as_str(), "https://auth.example.com/");
    assert!(session.application().is_none());
}

#[test]
fn guests_go_back_after_login() {
    let mut session = SessionData::new("https://auth.example.com").unwrap();
    guest_redirect(&mut session, "https://auth.example.com", "/auth/authorize?redirect=x").unwrap();
    assert_eq!(session.redirect_url().as_str(), "https://auth.example.com/auth/authorize?redirect=x");
    assert_eq!(guest_redirect(&mut session, "", "/x"), Err(UrlParseError::RelativeUrlWithoutBase));
}

fn form(account: &str, new_account: &str) -> Authorize {
    Authorize { account: account.to_string(), new_account: new_account.to_string() }
}

fn single_use(token: &str, app_key: &str) -> SingleUseToken {
    SingleUseToken { token: token.to_string(), app_key: app_key.to_string() }
}

#[test]
fn choosing_an_account() {
    let app = ModelKey::new("apps_stream", 1);
    let account = ModelKey::new("account_stream", 2);
    let user = user_with(&app, &account, "main");
    match authorize_choice(&form("", "new"), &user, &app) {
        Ok(AuthorizeChoice::NewAccount { name }) => assert_eq!(name, "new"),
        _ => panic!("expected a new account"),
    }
    assert_eq!(authorize_choice(&form("", ""), &user, &app).err().unwrap(), AuthorizeError::NothingChosen);
    match authorize_choice(&form(&account.to_string(), "ignored"), &user, &app) {
        Ok(AuthorizeChoice::Existing { account: a }) => assert!(a.same(&account)),
        _ => panic!("expected the existing account"),
    }
    let other = ModelKey::new("account_stream", 3);
    assert_eq!(authorize_choice(&form(&other.to_string(), ""), &user, &app).err().unwrap(), AuthorizeError::AccountNotLinked);
    assert_eq!(
        authorize_choice(&form("garbage", ""), &user, &app).err().unwrap(),
        AuthorizeError::InvalidAccount(ModelKeyError::UuidError)
    );
}

#[test]
fn new_account_commands_link_the_account() {
    let user = ModelKey::new("user_stream", 1);
    let app = ModelKey::new("apps_stream", 2);
    let key = new_account_key();
    assert_eq!(key.stream_name(), "account_stream");
    let (a, u) = new_account_commands(&user, &app, &key, "main");
    assert!(matches!(a, AccountCommand::Create { ref name, .. } if name == "main"));
    assert!(matches!(u, UserCommand::AddAccount { ref label, ref account, .. } if label == "main" && account.same(&key)));
}

#[test]
fn redirect_to_the_application() {
    let host = Url::parse("https://game.example.com").unwrap();
    assert_eq!(authorize_redirect(&host, "abc"), "https://game.example.com//auth?token=abc".to_string());
}

#[test]
fn single_use_token_checks() {
    let key = ModelKey::new("account_stream", 7);
    let mut account = AccountState::default();
    let evs = account
        .try_command_with_token(
            AccountCommand::Create { user_id: ModelKey::new("user_stream", 1), app_id: ModelKey::new("apps_stream", 2), name: "n".to_string() },
            "CODE".to_string(),
        )
        .unwrap();
    account.play_events(&evs);
    let token = account.one_time_token(&key).unwrap();
    assert!(token_account_key(&token).unwrap().same(&key));
    assert_eq!(check_one_time_token(&account, &key, &single_use(&token, "SECRET")), Ok(()));
    assert_eq!(check_one_time_token(&account, &key, &single_use("x|y", "SECRET")), Err(AuthorizeError::WrongOneTimeToken));
    assert_eq!(
        check_one_time_token(&AccountState::default(), &key, &single_use(&token, "SECRET")),
        Err(AuthorizeError::OneTimeCode(AccountError::NoOneTimeCode))
    );
    assert_eq!(token_account_key("nothing").err().unwrap(), ModelKeyError::UuidError);
    let app = app_state("game", "https://game.example.com", "SECRET");
    assert_eq!(check_app_key(&app, &single_use("", "SECRET")), Ok(()));
    assert_eq!(check_app_key(&app, &single_use("", "WRONG")), Err(AuthorizeError::WrongAppKey));
}

#[test]
fn claims_of_the_token() {
    let key = ModelKey::new("account_stream", 7);
    let app = app_state("game", "https://game.example.com", "SECRET");
    let c = claims_at(&app, &key, 1000);
    assert_eq!(c.aud, "game");
    assert_eq!(c.iat, 1000);
    assert_eq!(c.exp, 4600);
    assert_eq!(c.iss, "login");
    assert_eq!(c.sub, "user");
    assert_eq!(c.id, "account_stream-00000000-0000-0000-0000-000000000007");
    let c = claims(&app, &key);
    assert_eq!(c.exp, c.iat + 3600);
}

#[test]
fn one_time_token_serves_once() {
    let key = ModelKey::new("account_stream", 8);
    let mut account = AccountState::default();
    let evs = account
        .try_command_with_token(
            AccountCommand::Create { user_id: ModelKey::new("user_stream", 1), app_id: ModelKey::new("apps_stream", 2), name: "n".to_string() },
            "CODE".to_string(),
        )
        .unwrap();
    account.play_events(&evs);
    let token = account.one_time_token(&key).unwrap();
    assert_eq!(check_one_time_token(&account, &key, &single_use(&token, "SECRET")), Ok(()));
    let evs = account.try_command(AccountCommand::Validate).unwrap();
    account.play_events(&evs);
    assert_eq!(
        check_one_time_token(&account, &key, &single_use(&token, "SECRET")),
        Err(AuthorizeError::OneTimeCode(AccountError::NoOneTimeCode))
    );
}
