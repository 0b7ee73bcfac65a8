use kukuri::guide::{greet, guide_status_for_new_identity, guide_status_for_runtime, GuideStatus};
use kukuri::sync_state::subscription_keys_with_prefix;
use kukuri::text::{text_eq, text_has_prefix, text_has_suffix, text_lex_lt};

#[test]
fn greeting() {
    assert_eq!(greet("Home".to_string()), "Hello, Home!");
    assert_eq!(greet(String::new()), "Hello, !");
}

#[test]
fn guide_status_reflects_the_runtime() {
    assert_eq!(
        guide_status_for_runtime(Some("pk".to_string())),
        GuideStatus { ready: true, pubkey_hex: Some("pk".to_string()), secret_nsec: None }
    );
    assert_eq!(
        guide_status_for_runtime(None),
        GuideStatus { ready: false, pubkey_hex: None, secret_nsec: None }
    );
    assert_eq!(
        guide_status_for_new_identity("pk".to_string(), "nsec1x".to_string()),
        GuideStatus {
            ready: false,
            pubkey_hex: Some("pk".to_string()),
            secret_nsec: Some("nsec1x".to_string())
        }
    );
}

#[test]
fn text_comparisons() {
    assert!(text_eq("a", "a"));
    assert!(!text_eq("a", "b"));
    assert!(text_has_prefix("objects/x", "objects/"));
    assert!(!text_has_prefix("obj", "objects/"));
    assert!(text_has_suffix("a/state", "/state"));
    assert!(!text_has_suffix("a/stat", "/state"));
    assert!(text_lex_lt("abc", "abd"));
    assert!(text_lex_lt("ab", "abc"));
    assert!(!text_lex_lt("abc", "ab"));
    assert!(!text_lex_lt("abc", "abc"));
    assert!(text_lex_lt("Z", "a"));
    assert!(text_lex_lt("é", "日"));
}

#[test]
fn subscription_keys_of_a_channel() {
    let keys = vec![
        "t::chan-1::r1".to_string(),
        "t::chan-2::r1".to_string(),
        "t::chan-1::r2".to_string(),
    ];
    assert_eq!(
        subscription_keys_with_prefix(&keys, "t::chan-1::"),
        vec!["t::chan-1::r1".to_string(), "t::chan-1::r2".to_string()]
    );
}
