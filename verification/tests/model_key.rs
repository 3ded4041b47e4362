use hfb_auth::model_key::{uuid_from_str, uuid_to_string, ModelKey, ModelKeyError};

const UUID_TEXT: &str = "01797a2e-19de-467c-bda2-eddc2a2cbf8c";

fn sample_id() -> u128 {
    uuid_from_str(UUID_TEXT).unwrap()
}

#[test]
fn uuid_text_is_hyphenated_lowercase() {
    assert_eq!(uuid_to_string(sample_id()), UUID_TEXT.to_string());
    assert_eq!(uuid_to_string(0), "00000000-0000-0000-0000-000000000000".to_string());
    assert_eq!(uuid_to_string(u128::MAX), "ffffffff-ffff-ffff-ffff-ffffffffffff".to_string());
}

#[test]
fn uuid_parse_accepts_other_forms() {
    assert_eq!(uuid_from_str("01797A2E19DE467CBDA2EDDC2A2CBF8C"), Some(sample_id()));
    assert_eq!(uuid_from_str("not a uuid"), None);
    assert_eq!(uuid_from_str(""), None);
}

#[test]
fn test_format() {
    let m = ModelKey::new("mpzNpYJ", sample_id());
    assert_eq!(m.format(), "mpzNpYJ-01797a2e-19de-467c-bda2-eddc2a2cbf8c".to_string());
}

#[test]
fn test_from() {
    let m = ModelKey::new("mpzNpYJ", sample_id());
    let f = ModelKey::try_from_str("mpzNpYJ-01797a2e-19de-467c-bda2-eddc2a2cbf8c").unwrap();
    assert!(f.same(&m));
}

#[test]
fn new_turns_dashes_into_underscores() {
    let m = ModelKey::new("my-stream-name", 7);
    assert_eq!(m.stream_name(), "my_stream_name");
    assert_eq!(m.stream_id(), 7);
}

#[test]
fn format_turns_dots_into_underscores() {
    let m = ModelKey::new("a.b", sample_id());
    assert_eq!(m.format(), format!("a_b-{UUID_TEXT}"));
    assert_eq!(m.to_string(), format!("a.b-{UUID_TEXT}"));
}

#[test]
fn display_reads_back() {
    let m = ModelKey::new("account_stream", 0x1234_5678_9abc_def0_1234_5678_9abc_def0);
    let back = ModelKey::try_from_str(&m.to_string()).unwrap();
    assert!(back.same(&m));
}

#[test]
fn reading_a_key_without_uuid_fails() {
    assert_eq!(ModelKey::try_from_str("nodash").unwrap_err(), ModelKeyError::UuidError);
    assert_eq!(ModelKey::try_from_str("stream-notauuid").unwrap_err(), ModelKeyError::UuidError);
    assert_eq!(ModelKey::try_from_str("").unwrap_err(), ModelKeyError::UuidError);
}

#[test]
fn uuid_v8_key_matches_horfimbor() {
    let ours = ModelKey::new_uuid_v8("apps-stream", "KIND", "https://example.com/");
    let theirs = horfimbor_eventsource::model_key::ModelKey::new_uuid_v8("apps-stream", "KIND", "https://example.com/");
    assert_eq!(ours.to_string(), theirs.to_string());
    assert_eq!(ours.format(), theirs.format());
    assert_eq!(ours.stream_name(), "apps_stream");
    let again = ModelKey::new_uuid_v8("apps-stream", "KIND", "https://example.com/");
    assert!(again.same(&ours));
    let other = ModelKey::new_uuid_v8("apps-stream", "KIND", "https://other.com/");
    assert!(!other.same(&ours));
}

#[test]
fn random_keys_differ() {
    let a = ModelKey::new_uuid_v4("account-stream");
    let b = ModelKey::new_uuid_v4("account-stream");
    assert_eq!(a.stream_name(), "account_stream");
    assert!(!a.same(&b));
}

#[test]
fn empty_key() {
    let e = ModelKey::empty();
    assert_eq!(e.stream_name(), "");
    assert_eq!(e.stream_id(), 0);
    assert!(e.same(&e.duplicate()));
}
