use blog_core::credentials::{email_is_valid, password_is_strong};
use regex::Regex;

const EMAIL_PATTERN: &str = r"(^[a-zA-Z0-9_.+-]+@[a-zA-Z0-9-]+\.[a-zA-Z0-9-.]+$)";
const PASSWORD_PATTERN: &str = r"(^[a-zA-Z0-9]{8,}$)";

const SAMPLES: &[&str] = &[
    "",
    "a",
    "@",
    "a@b.c",
    "alice@example.com",
    "first.last+tag@sub.example.co.uk",
    "under_score-dash@my-host.io",
    "@example.com",
    "alice@.com",
    "alice@example.",
    "alice@example",
    "alice@@example.com",
    "alice@exa_mple.com",
    "alice@example.c_m",
    "ali ce@example.com",
    "alice@example.com ",
    "alice@example..com",
    "alice@example.com.",
    "alice@example.-",
    "a.b@c.d.e.f",
    "élise@example.com",
    "alice@exämple.com",
    "a@b..",
    "a@b.c@d",
    "password123",
    "Password",
    "12345678",
    "abcdefg",
    "abcdefgh",
    "abcd efgh",
    "abcdefgh!",
    "ABCDEFGHIJKLMNOPQRSTUVWXYZ0123456789",
    "pässwörd123",
];

#[test]
fn email_rule_matches_the_pattern() {
    let re = Regex::new(EMAIL_PATTERN).unwrap();
    for s in SAMPLES {
        assert_eq!(email_is_valid(s), re.is_match(s), "{s:?}");
    }
}

#[test]
fn password_rule_matches_the_pattern() {
    let re = Regex::new(PASSWORD_PATTERN).unwrap();
    for s in SAMPLES {
        assert_eq!(password_is_strong(s), re.is_match(s), "{s:?}");
    }
}

#[test]
fn email_examples() {
    assert!(email_is_valid("alice@example.com"));
    assert!(email_is_valid("a@b.c"));
    assert!(!email_is_valid(""));
    assert!(!email_is_valid("alice"));
    assert!(!email_is_valid("alice@example"));
    assert!(!email_is_valid("alice@.com"));
    assert!(!email_is_valid("alice@example.com!"));
}

#[test]
fn password_examples() {
    assert!(password_is_strong("password123"));
    assert!(password_is_strong("abcdefgh"));
    assert!(!password_is_strong("abcdefg"));
    assert!(!password_is_strong(""));
    assert!(!password_is_strong("password 123"));
    assert!(!password_is_strong("!!!!!!!!"));
}
