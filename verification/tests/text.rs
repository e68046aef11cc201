use control_plane::text::{
    clone_names, decimal_text, is_blank, join, join_strings, parse_unsigned, same_text,
    signed_decimal_text, starts_with, strip_prefix, trim_end,
};

#[test]
fn numbers_are_written_in_decimal() {
    assert_eq!(decimal_text(0), "0");
    assert_eq!(decimal_text(7), "7");
    assert_eq!(decimal_text(10), "10");
    assert_eq!(decimal_text(1024), "1024");
    assert_eq!(decimal_text(9_876_543_210), "9876543210");
    assert_eq!(decimal_text(u64::MAX), "18446744073709551615");
    assert_eq!(signed_decimal_text(0), "0");
    assert_eq!(signed_decimal_text(42), "42");
    assert_eq!(signed_decimal_text(-1), "-1");
    assert_eq!(signed_decimal_text(-1024), "-1024");
    assert_eq!(signed_decimal_text(i64::MAX), "9223372036854775807");
    assert_eq!(signed_decimal_text(i64::MIN), "-9223372036854775808");
}

#[test]
fn numbers_are_read_from_decimal() {
    assert_eq!(parse_unsigned("0", u64::MAX), Some(0));
    assert_eq!(parse_unsigned("30", u64::MAX), Some(30));
    assert_eq!(parse_unsigned("+30", u64::MAX), Some(30));
    assert_eq!(parse_unsigned("0030", u64::MAX), Some(30));
    assert_eq!(parse_unsigned("+0", 0), Some(0));
    assert_eq!(parse_unsigned("18446744073709551615", u64::MAX), Some(u64::MAX));
    assert_eq!(parse_unsigned("18446744073709551616", u64::MAX), None);
    assert_eq!(parse_unsigned("99999999999999999999999", u64::MAX), None);
    assert_eq!(parse_unsigned("255", 255), Some(255));
    assert_eq!(parse_unsigned("256", 255), None);
    assert_eq!(parse_unsigned("000000000000000000000000255", 255), Some(255));
    assert_eq!(parse_unsigned("1", 0), None);
    for text in ["", "+", "++1", "-1", "-0", "1 ", " 1", "1a", "a1", "1.0", "0x10", "1_000", "one", "１"] {
        assert_eq!(parse_unsigned(text, u64::MAX), None, "{:?}", text);
    }
}

#[test]
fn strings_are_compared_and_joined() {
    assert!(same_text("", ""));
    assert!(same_text("nvmf", "nvmf"));
    assert!(!same_text("nvmf", "NVMF"));
    assert!(!same_text("nvmf", "nvm"));
    assert!(is_blank(""));
    assert!(!is_blank(" "));
    assert_eq!(join(&[], "/"), "");
    assert_eq!(join(&["a"], "/"), "a");
    assert_eq!(join(&["a", "b", "c"], "/"), "a/b/c");
    assert_eq!(join(&["", "", ""], ", "), ", , ");
    assert_eq!(join(&["a", "b"], ""), "ab");
    assert_eq!(join_strings(&vec![], "/"), "");
    assert_eq!(join_strings(&vec![String::from("a"), String::from("é")], "/"), "a/é");
    assert_eq!(clone_names(&[String::from("a"), String::new()]), vec![String::from("a"), String::new()]);
}

#[test]
fn strings_are_cut_at_either_end() {
    assert!(starts_with("mayastor://n", "mayastor://"));
    assert!(starts_with("abc", ""));
    assert!(starts_with("", ""));
    assert!(starts_with("abc", "abc"));
    assert!(!starts_with("ab", "abc"));
    assert!(!starts_with("abd", "abc"));
    assert!(!starts_with("", "a"));
    assert_eq!(strip_prefix("éa-b", "éa"), Some("-b"));
    assert_eq!(strip_prefix("abc", "abc"), Some(""));
    assert_eq!(strip_prefix("abc", ""), Some("abc"));
    assert_eq!(strip_prefix("abc", "b"), None);
    assert_eq!(trim_end("http://a/", '/'), "http://a");
    assert_eq!(trim_end("http://a///", '/'), "http://a");
    assert_eq!(trim_end("http://a", '/'), "http://a");
    assert_eq!(trim_end("/a/b", '/'), "/a/b");
    assert_eq!(trim_end("///", '/'), "");
    assert_eq!(trim_end("", '/'), "");
    assert_eq!(trim_end("één", 'n'), "éé");
}
