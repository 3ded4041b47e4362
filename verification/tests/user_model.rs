use hfb_auth::datetime::UtcDateTime;
use hfb_auth::events::PubUserEvent;
use hfb_auth::model_key::ModelKey;
use hfb_auth::user::{PrvUserEvent, UserCommand, UserError, UserEvent, UserRole, UserState};

fn at(secs: i64) -> UtcDateTime {
    UtcDateTime { secs, nanos: 5 }
}

fn app(n: u128) -> ModelKey {
    ModelKey::new("apps_stream", n)
}

fn account(n: u128) -> ModelKey {
    ModelKey::new("account_stream", n)
}

fn created_user() -> UserState {
    let mut s = UserState::default();
    let evs = s
        .try_command_at(
            UserCommand::Create { pseudo: "bob".to_string(), password_hash: "hash".to_string() },
            at(100),
        )
        .unwrap();
    s.play_events(&evs);
    s
}

#[test]
fn create_produces_three_events() {
    let s = UserState::default();
    let evs = s
        .try_command_at(
            UserCommand::Create { pseudo: "bob".to_string(), password_hash: "hash".to_string() },
            at(100),
        )
        .unwrap();
    assert_eq!(evs.len(), 3);
    assert!(matches!(&evs[0], UserEvent::Public(PubUserEvent::UserCreated { pseudo }) if pseudo == "bob"));
    assert!(matches!(&evs[1], UserEvent::Private(PrvUserEvent::Created { date }) if *date == at(100)));
    assert!(matches!(&evs[2], UserEvent::Private(PrvUserEvent::PasswordChanged { password_hash, date }) if password_hash == "hash" && *date == at(100)));
}

#[test]
fn created_user_state() {
    let s = created_user();
    assert_eq!(s.pseudo(), "bob");
    assert_eq!(s.password_hash(), &Some("hash".to_string()));
    assert_eq!(s.created_at(), at(100));
    assert_eq!(s.password_change(), at(100));
    assert_eq!(s.last_login(), None);
    assert!(!s.is_admin());
    assert!(!s.is_default());
    assert!(UserState::default().is_default());
}

#[test]
fn second_creation_is_refused() {
    let s = created_user();
    let r = s.try_command_at(
        UserCommand::Create { pseudo: "eve".to_string(), password_hash: "h2".to_string() },
        at(200),
    );
    assert_eq!(r.unwrap_err(), UserError::AlreadyExists);
}

#[test]
fn create_with_the_clock() {
    let s = UserState::default();
    let evs = s
        .try_command(UserCommand::Create { pseudo: "bob".to_string(), password_hash: "h".to_string() })
        .unwrap();
    assert_eq!(evs.len(), 3);
}

#[test]
fn login_and_password_change() {
    let mut s = created_user();
    let evs = s.try_command_at(UserCommand::Login, at(300)).unwrap();
    s.play_events(&evs);
    assert_eq!(s.last_login(), Some(at(300)));
    let evs = s
        .try_command_at(UserCommand::ChangePassword { password_hash: "new".to_string() }, at(400))
        .unwrap();
    s.play_events(&evs);
    assert_eq!(s.password_hash(), &Some("new".to_string()));
    assert_eq!(s.password_change(), at(400));
}

#[test]
fn role_change_and_same_role() {
    let mut s = created_user();
    let evs = s.try_command_at(UserCommand::ChangeRole(Some(UserRole::Admin)), at(1)).unwrap();
    s.play_events(&evs);
    assert!(s.is_admin());
    assert_eq!(s.role(), Some(UserRole::Admin));
    let again = s.try_command_at(UserCommand::ChangeRole(Some(UserRole::Admin)), at(2));
    assert_eq!(again.unwrap_err(), UserError::SameRole);
    let evs = s.try_command_at(UserCommand::ChangeRole(Some(UserRole::NoRole)), at(3)).unwrap();
    s.play_events(&evs);
    assert!(!s.is_admin());
    let none = UserState::default().try_command_at(UserCommand::ChangeRole(None), at(4));
    assert_eq!(none.unwrap_err(), UserError::SameRole);
}

#[test]
fn role_from_name() {
    assert_eq!(UserRole::from("Admin".to_string()), UserRole::Admin);
    assert_eq!(UserRole::from("admin".to_string()), UserRole::NoRole);
    assert_eq!(UserRole::from("".to_string()), UserRole::NoRole);
    assert_eq!(UserRole::from("Admins".to_string()), UserRole::NoRole);
}

fn add(s: &mut UserState, a: u128, b: u128, label: &str) -> Result<(), UserError> {
    let evs = s.try_command_at(
        UserCommand::AddAccount { application: app(a), account: account(b), label: label.to_string() },
        at(10),
    )?;
    s.play_events(&evs);
    Ok(())
}

fn remove(s: &mut UserState, a: u128, b: u128) -> Result<(), UserError> {
    let evs = s.try_command_at(UserCommand::RemoveAccount { application: app(a), account: account(b) }, at(11))?;
    s.play_events(&evs);
    Ok(())
}

fn labels(s: &UserState, a: u128) -> Vec<(u128, String)> {
    s.accounts(&app(a)).iter().map(|(k, l)| (k.stream_id(), l.clone())).collect()
}

#[test]
fn accounts_are_listed_in_order() {
    let mut s = created_user();
    add(&mut s, 1, 10, "main").unwrap();
    add(&mut s, 1, 11, "alt").unwrap();
    add(&mut s, 2, 12, "main").unwrap();
    assert_eq!(labels(&s, 1), vec![(10, "main".to_string()), (11, "alt".to_string())]);
    assert_eq!(labels(&s, 2), vec![(12, "main".to_string())]);
    assert_eq!(labels(&s, 3), vec![]);
    assert!(s.has_account(&app(1), &account(11)));
    assert!(!s.has_account(&app(2), &account(11)));
}

#[test]
fn duplicate_account_or_label_is_refused() {
    let mut s = created_user();
    add(&mut s, 1, 10, "main").unwrap();
    assert_eq!(add(&mut s, 1, 10, "other"), Err(UserError::AccountAlreadyLinked));
    assert_eq!(add(&mut s, 1, 99, "main"), Err(UserError::AccountAlreadyLinked));
    assert_eq!(add(&mut s, 2, 10, "main"), Ok(()));
}

#[test]
fn removing_accounts() {
    let mut s = created_user();
    assert_eq!(remove(&mut s, 1, 10), Err(UserError::AccountAlreadyRemoved));
    add(&mut s, 1, 10, "main").unwrap();
    add(&mut s, 1, 11, "alt").unwrap();
    assert_eq!(remove(&mut s, 1, 12), Err(UserError::AccountAlreadyRemoved));
    remove(&mut s, 1, 10).unwrap();
    assert_eq!(labels(&s, 1), vec![(11, "alt".to_string())]);
    assert_eq!(remove(&mut s, 1, 10), Err(UserError::AccountAlreadyRemoved));
    remove(&mut s, 1, 11).unwrap();
    assert_eq!(labels(&s, 1), vec![]);
    assert!(s.account_entries().is_empty());
}

#[test]
fn remove_undoes_add() {
    let mut s = created_user();
    add(&mut s, 1, 10, "main").unwrap();
    let before: Vec<(u128, Vec<(u128, String)>)> = s
        .account_entries()
        .iter()
        .map(|(k, v)| (k.stream_id(), v.iter().map(|(a, l)| (a.stream_id(), l.clone())).collect()))
        .collect();
    add(&mut s, 1, 20, "new").unwrap();
    add(&mut s, 5, 20, "new").unwrap();
    remove(&mut s, 5, 20).unwrap();
    remove(&mut s, 1, 20).unwrap();
    let after: Vec<(u128, Vec<(u128, String)>)> = s
        .account_entries()
        .iter()
        .map(|(k, v)| (k.stream_id(), v.iter().map(|(a, l)| (a.stream_id(), l.clone())).collect()))
        .collect();
    assert_eq!(before, after);
}

#[test]
fn removed_event_on_unknown_application_changes_nothing() {
    let mut s = created_user();
    s.play_event(&UserEvent::Private(PrvUserEvent::AccountRemoved { application: app(9), account: account(9) }));
    assert!(s.account_entries().is_empty());
}

#[test]
fn state_from_parts() {
    let entries = vec![(app(1), vec![(account(10), "a".to_string()), (account(11), "b".to_string())])];
    let s = UserState::from_parts(
        "p".to_string(),
        None,
        at(1),
        at(2),
        Some(at(3)),
        Some(UserRole::Admin),
        &entries,
    );
    assert_eq!(s.pseudo(), "p");
    assert!(s.is_admin());
    assert_eq!(s.last_login(), Some(at(3)));
    assert_eq!(labels(&s, 1), vec![(10, "a".to_string()), (11, "b".to_string())]);
}

#[test]
fn accounts_stay_distinct_over_a_history() {
    let mut s = created_user();
    let steps: Vec<(u128, u128, &str, bool)> = vec![
        (1, 1, "main", true),
        (1, 2, "alt", true),
        (1, 2, "other", false),
        (1, 3, "main", false),
        (2, 1, "main", true),
        (1, 3, "third", true),
    ];
    for (a, b, label, accepted) in steps {
        assert_eq!(add(&mut s, a, b, label).is_ok(), accepted);
    }
    assert_eq!(remove(&mut s, 1, 2), Ok(()));
    assert_eq!(add(&mut s, 1, 4, "alt"), Ok(()));
    for a in [1u128, 2] {
        let l = labels(&s, a);
        for i in 0..l.len() {
            for j in 0..l.len() {
                if i != j {
                    assert_ne!(l[i].0, l[j].0);
                    assert_ne!(l[i].1, l[j].1);
                }
            }
        }
    }
    assert_eq!(labels(&s, 1).len(), 3);
}
