use hfb_auth::account::{AccountCommand, AccountError, AccountEvent, AccountState, PrvAccountEvent};
use hfb_auth::events::PubAccountEvent;
use hfb_auth::model_key::ModelKey;

fn key(stream: &str, n: u128) -> ModelKey {
    ModelKey::new(stream, n)
}

fn created() -> AccountState {
    let mut s = AccountState::default();
    let evs = s
        .try_command_with_token(
            AccountCommand::Create { user_id: key("user_stream", 1), app_id: key("apps_stream", 2), name: "main".to_string() },
            "CODE".to_string(),
        )
        .unwrap();
    s.play_events(&evs);
    s
}

#[test]
fn create_sets_the_account_up_suspended() {
    let s = created();
    assert_eq!(s.user_id().stream_id(), 1);
    assert_eq!(s.app_id().stream_id(), 2);
    assert_eq!(s.name(), "main");
    assert!(s.is_suspended());
    assert_eq!(s.one_time_code(), &Some("CODE".to_string()));
}

#[test]
fn create_draws_a_twenty_character_code() {
    let s = AccountState::default();
    let evs = s
        .try_command(AccountCommand::Create { user_id: key("u", 1), app_id: key("a", 2), name: "n".to_string() })
        .unwrap();
    assert_eq!(evs.len(), 2);
    match &evs[1] {
        AccountEvent::Private(PrvAccountEvent::OneTimeTokenAdded { token }) => {
            assert_eq!(token.chars().count(), 20);
            assert!(token.chars().all(|c| c.is_ascii_alphanumeric()));
        }
        _ => panic!("expected a one-time code"),
    }
}

#[test]
fn one_time_token_joins_key_and_code() {
    let s = created();
    let k = key("account_stream", 0xabc);
    assert_eq!(
        s.one_time_token(&k).unwrap(),
        "account_stream-00000000-0000-0000-0000-000000000abc|CODE".to_string()
    );
    assert_eq!(AccountState::default().one_time_token(&k).unwrap_err(), AccountError::NoOneTimeCode);
}

#[test]
fn validate_resumes_and_spends_the_code() {
    let mut s = created();
    let evs = s.try_command(AccountCommand::Validate).unwrap();
    assert_eq!(evs.len(), 3);
    assert!(matches!(&evs[0], AccountEvent::Public(PubAccountEvent::AccountCreated { name, .. }) if name == "main"));
    s.play_events(&evs);
    assert!(!s.is_suspended());
    assert_eq!(s.one_time_token(&key("x", 1)).unwrap_err(), AccountError::NoOneTimeCode);
    assert_eq!(s.name(), "main");
}

#[test]
fn suspend_and_resume() {
    let mut s = AccountState::default();
    assert_eq!(s.try_command(AccountCommand::Resume).unwrap_err(), AccountError::NotSuspended);
    let evs = s.try_command(AccountCommand::Suspend).unwrap();
    s.play_events(&evs);
    assert!(s.is_suspended());
    assert_eq!(s.try_command(AccountCommand::Suspend).unwrap_err(), AccountError::AlreadySuspended);
    let evs = s.try_command(AccountCommand::Resume).unwrap();
    s.play_events(&evs);
    assert!(!s.is_suspended());
}

#[test]
fn new_one_time_token_replaces_the_code() {
    let mut s = created();
    let evs = s.try_command_with_token(AccountCommand::NewOneTimeToken, "NEW".to_string()).unwrap();
    s.play_events(&evs);
    assert_eq!(s.one_time_code(), &Some("NEW".to_string()));
    let evs = s.try_command(AccountCommand::NewOneTimeToken).unwrap();
    s.play_events(&evs);
    assert_eq!(s.one_time_code().as_ref().unwrap().len(), 20);
}
