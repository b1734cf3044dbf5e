use my_prs::text::{contains_str, decimal_string, ends_with, starts_with, str_eq};

#[test]
fn decimal_notation() {
    assert_eq!(decimal_string(0), "0");
    assert_eq!(decimal_string(9), "9");
    assert_eq!(decimal_string(10), "10");
    assert_eq!(decimal_string(u64::MAX), u64::MAX.to_string());
}

#[test]
fn substring_search() {
    assert!(contains_str("integration tests", "tests"));
    assert!(contains_str("abc", ""));
    assert!(!contains_str("ab", "abc"));
    assert!(starts_with("~/x", "~/"));
    assert!(ends_with("repo.git", ".git"));
    assert!(!ends_with("git", ".git"));
    assert!(str_eq("é", "é"));
    assert!(!str_eq("a", "b"));
}
