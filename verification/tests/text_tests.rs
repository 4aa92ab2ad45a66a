use npack::text::{
    chars_of, contains, copy_list, copy_opt, copy_pairs, count_char, decimal, ends_with, join2, join3,
    signed_decimal, starts_with, str_eq,
};

#[test]
fn str_eq_compares_characters() {
    assert!(str_eq("linux", "linux"));
    assert!(!str_eq("linux", "linus"));
    assert!(!str_eq("linux", "linu"));
    assert!(str_eq("", ""));
}

#[test]
fn starts_with_checks_the_beginning() {
    assert!(starts_with("win-x64", "win"));
    assert!(!starts_with("darwin-x64", "win"));
    assert!(starts_with("abc", ""));
    assert!(!starts_with("ab", "abc"));
}

#[test]
fn ends_with_checks_the_end() {
    assert!(ends_with("pkg/bin/node", "/bin/node"));
    assert!(!ends_with("pkg/bin/node.exe", "/bin/node"));
    assert!(!ends_with("node", "/bin/node"));
}

#[test]
fn contains_finds_a_substring_anywhere() {
    assert!(contains("PACKAGES_STORAGE_S3_SECRET", "SECRET"));
    assert!(contains("SECRET_KEY", "SECRET"));
    assert!(!contains("PACKAGES_STORAGE_S3_KEY", "SECRET"));
    assert!(contains("abc", ""));
    assert!(!contains("", "a"));
}

#[test]
fn count_char_counts_every_occurrence() {
    assert_eq!(count_char("20.19.6", '.'), 2);
    assert_eq!(count_char("20", '.'), 0);
    assert_eq!(count_char("...", '.'), 3);
}

#[test]
fn join_concatenates_in_order() {
    assert_eq!(join2("a", "b"), "ab");
    assert_eq!(join3("x", "/", "y"), "x/y");
}

#[test]
fn chars_of_lists_every_character() {
    assert_eq!(chars_of("n\u{f6}de"), vec!['n', '\u{f6}', 'd', 'e']);
    assert_eq!(chars_of(""), Vec::<char>::new());
}

#[test]
fn decimal_writes_without_leading_zeros() {
    assert_eq!(decimal(0), "0");
    assert_eq!(decimal(7), "7");
    assert_eq!(decimal(404), "404");
    assert_eq!(decimal(1234567890), "1234567890");
    assert_eq!(decimal(u128::MAX), u128::MAX.to_string());
}

#[test]
fn signed_decimal_writes_the_sign() {
    assert_eq!(signed_decimal(0), "0");
    assert_eq!(signed_decimal(-1), "-1");
    assert_eq!(signed_decimal(127), "127");
    assert_eq!(signed_decimal(i32::MIN), "-2147483648");
    assert_eq!(signed_decimal(i32::MAX), "2147483647");
}

#[test]
fn copies_hold_the_same_texts() {
    assert_eq!(copy_opt(&Some("a".to_string())), Some("a".to_string()));
    assert_eq!(copy_opt(&None), None);
    let list = vec!["x".to_string(), "y".to_string()];
    assert_eq!(copy_list(&list), list);
    let pairs = vec![("k".to_string(), "v".to_string())];
    assert_eq!(copy_pairs(&pairs), pairs);
}
