use hfb_auth::application::{ApplicationCommand, ApplicationEvent, ApplicationState, PrivateApplicationEvent};
use hfb_auth::url::{HostKind, Url};

#[test]
fn default_application() {
    let s = ApplicationState::default();
    assert_eq!(s.name(), "");
    assert_eq!(s.key(), "");
    assert_eq!(s.host().as_str(), "https://aedius.fr/");
    assert_eq!(s.host().host_kind(), HostKind::Domain);
    assert!(s.is_default());
}

#[test]
fn create_and_regenerate() {
    let mut s = ApplicationState::default();
    let host = Url::parse("https://game.example.com").unwrap();
    let evs = s.try_command(ApplicationCommand::Create { name: "game".to_string(), host }).unwrap();
    let key = match &evs[0] {
        ApplicationEvent::Private(PrivateApplicationEvent::Created { key, .. }) => key.clone(),
        _ => panic!("expected a creation"),
    };
    assert_eq!(key.chars().count(), 40);
    assert!(key.chars().all(|c| c.is_ascii_alphanumeric()));
    s.play_events(&evs);
    assert_eq!(s.name(), "game");
    assert_eq!(s.host().as_str(), "https://game.example.com/");
    assert_eq!(s.key(), key);
    assert!(!s.is_default());
    let evs = s.try_command_with_key(ApplicationCommand::RegenerateKey, "K2".to_string()).unwrap();
    s.play_events(&evs);
    assert_eq!(s.key(), "K2");
    assert_eq!(s.name(), "game");
    assert_eq!(s.host().as_str(), "https://game.example.com/");
}

#[test]
fn generated_keys_are_forty_characters() {
    let k = ApplicationState::generate_key();
    assert_eq!(k.len(), 40);
}
