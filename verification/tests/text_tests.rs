use github_updater::text::{contains_str, find_first, parse_u64, replace_all, trim_spaces, u64_to_dec};

#[test]
fn contains_finds_substrings() {
    assert!(contains_str("tool-2.3.0-x86_64-linux", "2.3.0"));
    assert!(contains_str("abc", ""));
    assert!(contains_str("abc", "abc"));
    assert!(!contains_str("abc", "abcd"));
    assert!(!contains_str("tool-2.3.0", "2.4"));
}

#[test]
fn find_first_returns_first_occurrence() {
    assert_eq!(find_first("banana", "an"), Some(1));
    assert_eq!(find_first("banana", "na"), Some(2));
    assert_eq!(find_first("banana", "x"), None);
    assert_eq!(find_first("", ""), Some(0));
}

#[test]
fn replace_all_substitutes_every_occurrence() {
    assert_eq!(replace_all("{a}-{a}", "{a}", "x"), "x-x");
    assert_eq!(
        replace_all("{app_name}-{app_version}", "{app_version}", "2.3.0"),
        "{app_name}-2.3.0"
    );
    assert_eq!(replace_all("aaa", "aa", "b"), "ba");
    assert_eq!(replace_all("hello", "x", "y"), "hello");
    assert_eq!(replace_all("hello", "", "y"), "hello");
}

#[test]
fn trim_spaces_removes_surrounding_whitespace() {
    assert_eq!(trim_spaces("  4.5.6\n"), "4.5.6");
    assert_eq!(trim_spaces("\t1.0.0\r\n"), "1.0.0");
    assert_eq!(trim_spaces("1.0.0"), "1.0.0");
    assert_eq!(trim_spaces("   "), "");
    assert_eq!(trim_spaces(""), "");
    assert_eq!(trim_spaces("a b"), "a b");
}

#[test]
fn parse_u64_reads_decimal_digit_strings() {
    assert_eq!(parse_u64("0"), Some(0));
    assert_eq!(parse_u64("1048576"), Some(1048576));
    assert_eq!(parse_u64("18446744073709551615"), Some(u64::MAX));
    assert_eq!(parse_u64("18446744073709551616"), None);
    assert_eq!(parse_u64(""), None);
    assert_eq!(parse_u64("12a"), None);
    assert_eq!(parse_u64("-1"), None);
    assert_eq!(parse_u64(" 1"), None);
}

#[test]
fn u64_to_dec_renders_decimal() {
    assert_eq!(u64_to_dec(0), "0");
    assert_eq!(u64_to_dec(404), "404");
    assert_eq!(u64_to_dec(u64::MAX), "18446744073709551615");
}

#[test]
fn parse_and_render_round_trip() {
    for n in [0u64, 1, 9, 10, 99, 100, 65535, u64::MAX] {
        assert_eq!(parse_u64(&u64_to_dec(n)), Some(n));
    }
}
