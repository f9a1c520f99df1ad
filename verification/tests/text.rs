use protocol_executor::text::{
    bool_text, eq_ascii_lowercase, find_char, i64_text, join, starts_with, text_eq, u64_text,
};

#[test]
fn decimal_of_unsigned_numbers() {
    assert_eq!(u64_text(0), "0");
    assert_eq!(u64_text(7), "7");
    assert_eq!(u64_text(1234), "1234");
    assert_eq!(u64_text(u64::MAX), u64::MAX.to_string());
}

#[test]
fn decimal_of_signed_numbers() {
    assert_eq!(i64_text(-42), "-42");
    assert_eq!(i64_text(0), "0");
    assert_eq!(i64_text(i64::MIN), i64::MIN.to_string());
    assert_eq!(i64_text(i64::MAX), i64::MAX.to_string());
}

#[test]
fn booleans_as_words() {
    assert_eq!(bool_text(true), "true");
    assert_eq!(bool_text(false), "false");
}

#[test]
fn prefixes_and_equality() {
    assert!(starts_with("https://x", "http"));
    assert!(!starts_with("htt", "http"));
    assert!(starts_with("ws", ""));
    assert!(text_eq("héllo", "héllo"));
    assert!(!text_eq("abc", "abd"));
    assert!(!text_eq("abc", "ab"));
}

#[test]
fn first_occurrence_of_a_character() {
    assert_eq!(find_char("a=b=c", '='), Some(1));
    assert_eq!(find_char("été=x", '='), Some(3));
    assert_eq!(find_char("abc", '='), None);
}

#[test]
fn joining_and_case() {
    assert_eq!(join("ab", "cd"), "abcd");
    assert!(eq_ascii_lowercase("ExE", "exe"));
    assert!(!eq_ascii_lowercase("exe", "bat"));
    assert!(!eq_ascii_lowercase("ex", "exe"));
}
