use hello_server::text::{contains_char, str_eq, strip_prefix};

#[test]
fn contains_char_finds_a_character() {
    assert!(contains_char("a/b", '/'));
    assert!(contains_char("/", '/'));
    assert!(contains_char("abc/", '/'));
    assert!(contains_char("好é/", 'é'));
}

#[test]
fn contains_char_misses_an_absent_character() {
    assert!(!contains_char("", '/'));
    assert!(!contains_char("abc", '/'));
    assert!(!contains_char("a\\b", '/'));
}

#[test]
fn strip_prefix_returns_what_follows() {
    assert_eq!(strip_prefix("/api/hello", "/api"), Some("/hello"));
    assert_eq!(strip_prefix("/api", "/api"), Some(""));
    assert_eq!(strip_prefix("anything", ""), Some("anything"));
    assert_eq!(strip_prefix("", ""), Some(""));
    assert_eq!(strip_prefix("é好x", "é好"), Some("x"));
}

#[test]
fn strip_prefix_refuses_another_beginning() {
    assert_eq!(strip_prefix("/ap", "/api"), None);
    assert_eq!(strip_prefix("", "/api"), None);
    assert_eq!(strip_prefix("/apx/hello", "/api"), None);
    assert_eq!(strip_prefix("x/api", "/api"), None);
    assert_eq!(strip_prefix("e好", "é"), None);
}

#[test]
fn str_eq_compares_whole_strings() {
    assert!(str_eq("", ""));
    assert!(str_eq("/hello", "/hello"));
    assert!(str_eq("好é", "好é"));
    assert!(!str_eq("/hello", "/hello/"));
    assert!(!str_eq("/hello/", "/hello"));
    assert!(!str_eq("/hello", "/hellp"));
    assert!(!str_eq("", "a"));
    assert!(!str_eq("a", ""));
}
