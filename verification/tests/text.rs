use cb_signer::text::{
    chars_of, concat2, concat3, concat4, join, rsplit_once, same_text, split_once, starts_with,
    with_slash,
};

#[test]
fn split_once_cuts_at_the_first_separator() {
    assert_eq!(
        split_once("wallet/account/sub", '/'),
        Some(("wallet".to_string(), "account/sub".to_string()))
    );
    assert_eq!(split_once("wallet/", '/'), Some(("wallet".to_string(), String::new())));
    assert_eq!(split_once("/account", '/'), Some((String::new(), "account".to_string())));
    assert_eq!(split_once("/", '/'), Some((String::new(), String::new())));
}

#[test]
fn split_once_finds_nothing_without_a_separator() {
    assert_eq!(split_once("wallet", '/'), None);
    assert_eq!(split_once("", '/'), None);
}

#[test]
fn rsplit_once_cuts_at_the_last_separator() {
    assert_eq!(
        rsplit_once("wallet/account/sub", '/'),
        Some(("wallet/account".to_string(), "sub".to_string()))
    );
    assert_eq!(rsplit_once("a/", '/'), Some(("a".to_string(), String::new())));
    assert_eq!(rsplit_once("/a", '/'), Some((String::new(), "a".to_string())));
    assert_eq!(rsplit_once("wallet", '/'), None);
    assert_eq!(rsplit_once("", '/'), None);
}

#[test]
fn splitting_counts_characters_not_bytes() {
    assert_eq!(
        split_once("wället/äccount", '/'),
        Some(("wället".to_string(), "äccount".to_string()))
    );
    assert_eq!(
        rsplit_once("日本/語/テスト", '/'),
        Some(("日本/語".to_string(), "テスト".to_string()))
    );
}

#[test]
fn starts_with_tests_prefixes() {
    assert!(starts_with("wallet/account/mod/1", "wallet/account/"));
    assert!(starts_with("abc", ""));
    assert!(starts_with("abc", "abc"));
    assert!(!starts_with("abc", "abcd"));
    assert!(!starts_with("abc", "b"));
    assert!(!starts_with("", "a"));
    assert!(starts_with("", ""));
}

#[test]
fn same_text_compares_contents() {
    assert!(same_text("abc", "abc"));
    assert!(same_text("", ""));
    assert!(!same_text("abc", "abd"));
    assert!(!same_text("abc", "ab"));
    assert!(!same_text("", "a"));
}

#[test]
fn joins_and_concatenations() {
    assert_eq!(join("wallet", "account"), "wallet/account");
    assert_eq!(join("", ""), "/");
    assert_eq!(with_slash("wallet"), "wallet/");
    assert_eq!(concat2("ab", "cd"), "abcd");
    assert_eq!(concat3("a", "b", "c"), "abc");
    assert_eq!(concat4("a", "b", "c", "d"), "abcd");
    assert_eq!(chars_of("aß"), vec!['a', 'ß']);
}

#[test]
fn split_of_a_join_gives_the_parts_back() {
    let joined = join("wallet", "account/7");
    assert_eq!(
        split_once(&joined, '/'),
        Some(("wallet".to_string(), "account/7".to_string()))
    );
    let joined = join("wallet/account", "7");
    assert_eq!(
        rsplit_once(&joined, '/'),
        Some(("wallet/account".to_string(), "7".to_string()))
    );
}
