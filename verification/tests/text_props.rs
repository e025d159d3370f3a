use windscribe_ephemeral_port::text::{
    base_url, contains_bytes, find_first, join_texts, parse_trimmed_u64, replace_str,
    str_to_bytes, trim_string, u64_to_string,
};

#[test]
fn find_first_reports_the_earliest_occurrence() {
    let hay = str_to_bytes("abcabc");
    let needle = str_to_bytes("bc");
    assert_eq!(find_first(&hay, &needle), Some(1));
    let missing = str_to_bytes("xyz");
    assert_eq!(find_first(&hay, &missing), None);
    assert!(contains_bytes(&hay, &needle));
    assert!(!contains_bytes(&hay, &missing));
}

#[test]
fn trimmed_numbers_parse_exactly() {
    assert_eq!(parse_trimmed_u64(&str_to_bytes(" 6543 ")), Some(6543));
    assert_eq!(parse_trimmed_u64(&str_to_bytes("6543")), Some(6543));
    assert_eq!(parse_trimmed_u64(&str_to_bytes("0")), Some(0));
    assert_eq!(parse_trimmed_u64(&str_to_bytes("")), None);
    assert_eq!(parse_trimmed_u64(&str_to_bytes("  ")), None);
    assert_eq!(parse_trimmed_u64(&str_to_bytes("12 3")), None);
    assert_eq!(parse_trimmed_u64(&str_to_bytes("12a")), None);
    assert_eq!(
        parse_trimmed_u64(&str_to_bytes("18446744073709551615")),
        Some(u64::MAX)
    );
    assert_eq!(parse_trimmed_u64(&str_to_bytes("18446744073709551616")), None);
}

#[test]
fn numbers_print_in_decimal() {
    assert_eq!(u64_to_string(0), "0");
    assert_eq!(u64_to_string(7), "7");
    assert_eq!(u64_to_string(65535), "65535");
    assert_eq!(u64_to_string(u64::MAX), "18446744073709551615");
}

#[test]
fn replacement_covers_every_occurrence() {
    assert_eq!(replace_str("--port={}", "{}", "6543"), "--port=6543");
    assert_eq!(replace_str("{}{}", "{}", "x"), "xx");
    assert_eq!(replace_str("none here", "{}", "x"), "none here");
    assert_eq!(replace_str("a{b}c", "{}", "x"), "a{b}c");
}

#[test]
fn trimming_strips_ascii_whitespace_at_both_ends() {
    assert_eq!(trim_string("  padded \r\n"), "padded");
    assert_eq!(trim_string("untouched"), "untouched");
    assert_eq!(trim_string(" \t "), "");
    assert_eq!(trim_string("inner space stays"), "inner space stays");
}

#[test]
fn joining_concatenates_in_order() {
    let texts = vec!["a".to_string(), "".to_string(), "bc".to_string()];
    assert_eq!(join_texts(&texts), "abc");
}

#[test]
fn urls_are_anchored_at_their_endpoint_path() {
    assert_eq!(base_url("http://h", "json"), "http://h/json");
    assert_eq!(base_url("http://h/", "json"), "http://h/json");
    assert_eq!(base_url("http://h/json", "json"), "http://h/json");
}
