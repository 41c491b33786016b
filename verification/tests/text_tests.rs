use aios_surreal::queries::{BasicQueryService, QueryService, TimelineQueryService};
use aios_surreal::text::{
    chars_of, decimal_string, join_strings, parse_u64, split_chars, str_contains, str_replace,
    str_starts_with, trim_chars,
};

#[test]
fn text_primitives() {
    assert!(str_contains("hello world", "lo w"));
    assert!(str_contains("abc", ""));
    assert!(!str_contains("ab", "abc"));
    assert!(str_starts_with("USE NS x", "USE NS"));
    assert!(!str_starts_with("US", "USE"));
    assert_eq!(str_replace("a'b''c", "'", "''"), "a''b''''c");
    assert_eq!(str_replace("aaa", "aa", "b"), "ba");
    assert_eq!(decimal_string(0), "0");
    assert_eq!(decimal_string(18446744073709551615), "18446744073709551615");
    assert_eq!(parse_u64(&chars_of("007")), Some(7));
    assert_eq!(parse_u64(&chars_of("")), None);
    assert_eq!(parse_u64(&chars_of("+")), None);
    assert_eq!(trim_chars(&chars_of("\t a b \n\u{3000}")), chars_of("a b"));
    assert_eq!(
        join_strings(&vec!["a".to_string(), "b".to_string(), "c".to_string()], ", "),
        "a, b, c"
    );
    let parts = split_chars(&chars_of("/a//b"), '/');
    assert_eq!(parts, vec![chars_of(""), chars_of("a"), chars_of(""), chars_of("b")]);
    assert_eq!(split_chars(&chars_of(""), '/'), vec![chars_of("")]);
}

#[test]
fn services_are_handed_out() {
    assert_eq!(QueryService::basic(), BasicQueryService);
    assert_eq!(QueryService::timeline(), TimelineQueryService);
}

#[test]
fn joining_split_parts_gives_the_text_back() {
    for text in ["", "/", "a/b", "//x//", "no separator"] {
        let parts: Vec<String> = split_chars(&chars_of(text), '/')
            .iter()
            .map(|p| p.iter().collect::<String>())
            .collect();
        assert_eq!(join_strings(&parts, "/"), text);
    }
}
