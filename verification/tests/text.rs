use hfb_auth::random::random_token;
use hfb_auth::text::{joined, decimal_text, has_char, replaced, split_first, str_eq};

#[test]
fn decimal_text_writes_digits() {
    assert_eq!(decimal_text(0), "0".to_string());
    assert_eq!(decimal_text(9), "9".to_string());
    assert_eq!(decimal_text(10), "10".to_string());
    assert_eq!(decimal_text(4_294_967_295), "4294967295".to_string());
    assert_eq!(decimal_text(u64::MAX), u64::MAX.to_string());
}

#[test]
fn split_first_splits_at_the_first_separator() {
    assert_eq!(split_first("a|b|c", '|'), ("a", Some("b|c")));
    assert_eq!(split_first("abc", '|'), ("abc", None));
    assert_eq!(split_first("|x", '|'), ("", Some("x")));
    assert_eq!(split_first("x|", '|'), ("x", Some("")));
}

#[test]
fn string_helpers() {
    assert_eq!(replaced("a-b-c", '-', "_"), "a_b_c".to_string());
    assert!(has_char("a.b", '.'));
    assert!(!has_char("ab", '.'));
    assert_eq!(joined("ab", "cd"), "abcd".to_string());
    assert!(str_eq("héllo", "héllo"));
    assert!(!str_eq("hello", "hell"));
}

#[test]
fn random_tokens_are_alphanumeric() {
    let t = random_token(40);
    assert_eq!(t.chars().count(), 40);
    assert!(t.chars().all(|c| c.is_ascii_alphanumeric()));
    assert_eq!(random_token(0), "".to_string());
    assert_ne!(random_token(40), random_token(40));
}

#[test]
fn draws_spell_tokens() {
    assert_eq!(hfb_auth::random::token_from_draws(&vec![0, 25, 26, 35, 36, 61]), "AZ09az");
    assert_eq!(hfb_auth::random::token_from_draws(&vec![]), "");
}
