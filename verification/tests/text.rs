use sm_pkg::text::{chars_of, contains_text, decimal, list_contains, same_text, starts_with_text};

#[test]
fn decimal_renders_like_the_standard_formatter() {
    assert_eq!(decimal(0), "0");
    assert_eq!(decimal(7), "7");
    assert_eq!(decimal(10), "10");
    assert_eq!(decimal(1729), "1729");
    assert_eq!(decimal(1_700_000_000), "1700000000");
    assert_eq!(decimal(u64::MAX), format!("{}", u64::MAX));
    for n in 0..300u64 {
        assert_eq!(decimal(n), format!("{}", n));
    }
}

#[test]
fn chars_of_keeps_every_character() {
    assert_eq!(chars_of("héllo"), vec!['h', 'é', 'l', 'l', 'o']);
    assert_eq!(chars_of(""), Vec::<char>::new());
}

#[test]
fn contains_text_finds_runs_of_characters() {
    assert!(contains_text("sourcemod-misc", "mod"));
    assert!(contains_text("sourcemod-misc", "sourcemod-misc"));
    assert!(contains_text("sourcemod-misc", ""));
    assert!(contains_text("", ""));
    assert!(contains_text("abc", "c"));
    assert!(!contains_text("abc", "cb"));
    assert!(!contains_text("abc", "abcd"));
    assert!(!contains_text("", "a"));
}

#[test]
fn contains_text_agrees_with_the_standard_library() {
    let hays = ["", "a", "ab", "aab", "abab", "connect", "naïve café"];
    let needles = ["", "a", "b", "ab", "ba", "aab", "é", "ï", "nn", "x"];
    for hay in hays {
        for needle in needles {
            assert_eq!(contains_text(hay, needle), hay.contains(needle), "{:?} in {:?}", needle, hay);
        }
    }
}

#[test]
fn starts_with_text_tests_a_prefix() {
    assert!(starts_with_text("sourcemod-1.12", "sourcemod-"));
    assert!(starts_with_text("sourcemod-", "sourcemod-"));
    assert!(starts_with_text("anything", ""));
    assert!(!starts_with_text("sourcemod", "sourcemod-"));
    assert!(!starts_with_text("metamod-1.12", "sourcemod-"));
}

#[test]
fn same_text_compares_characters() {
    assert!(same_text("connect", "connect"));
    assert!(same_text("", ""));
    assert!(!same_text("connect", "Connect"));
    assert!(!same_text("connect", "connect "));
}

#[test]
fn list_contains_looks_for_an_equal_entry() {
    let list = vec!["connect".to_string(), "sourcemod-misc".to_string()];
    assert!(list_contains(&list, "connect"));
    assert!(list_contains(&list, "sourcemod-misc"));
    assert!(!list_contains(&list, "Connect"));
    assert!(!list_contains(&Vec::new(), "connect"));
}
