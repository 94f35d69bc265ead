use digest_server::numeral::{push_decimal, push_decimal_nat};
use digest_server::text::{
    chars_of, find_first, join, replace_first_in, starts_with, str_eq, strip_leading_of,
};

fn chars(s: &str) -> Vec<char> {
    s.chars().collect()
}

fn dec(n: i128) -> String {
    let mut out = String::from("n=");
    push_decimal(&mut out, n);
    out
}

#[test]
fn strings_give_their_characters() {
    assert_eq!(chars_of(""), Vec::<char>::new());
    assert_eq!(chars_of("a-b"), vec!['a', '-', 'b']);
    assert_eq!(chars_of("h\u{e9}\u{1f600}"), vec!['h', '\u{e9}', '\u{1f600}']);
}

#[test]
fn equal_strings_are_told_from_others() {
    assert!(str_eq("", ""));
    assert!(str_eq("must_know", "must_know"));
    assert!(!str_eq("must_know", "must_knox"));
    assert!(!str_eq("must_know", "must_kno"));
    assert!(!str_eq("a", ""));
    assert!(str_eq("h\u{e9}", "h\u{e9}"));
    assert!(!str_eq("h\u{e9}", "he"));
}

#[test]
fn numbers_are_written_in_decimal() {
    assert_eq!(dec(0), "n=0");
    assert_eq!(dec(7), "n=7");
    assert_eq!(dec(10), "n=10");
    assert_eq!(dec(31), "n=31");
    assert_eq!(dec(-1), "n=-1");
    assert_eq!(dec(-120), "n=-120");
    assert_eq!(dec(i64::MAX as i128), format!("n={}", i64::MAX));
    assert_eq!(dec(i64::MIN as i128), format!("n={}", i64::MIN));
    assert_eq!(dec(i128::MAX), format!("n={}", i128::MAX));
    assert_eq!(dec(i128::MIN), format!("n={}", i128::MIN));
    let mut out = String::new();
    push_decimal_nat(&mut out, u128::MAX);
    assert_eq!(out, format!("{}", u128::MAX));
}

#[test]
fn leftmost_occurrence_is_found() {
    assert_eq!(find_first(&chars("abcabc"), &chars("bc")), Some(1));
    assert_eq!(find_first(&chars("abcabc"), &chars("abc")), Some(0));
    assert_eq!(find_first(&chars("abcabc"), &chars("cab")), Some(2));
    assert_eq!(find_first(&chars("abcabc"), &chars("abcabc")), Some(0));
    assert_eq!(find_first(&chars("abcabc"), &chars("abcabcd")), None);
    assert_eq!(find_first(&chars("abcabc"), &chars("x")), None);
    assert_eq!(find_first(&chars("aaab"), &chars("aab")), Some(1));
    assert_eq!(find_first(&chars("abc"), &chars("")), Some(0));
    assert_eq!(find_first(&chars(""), &chars("")), Some(0));
    assert_eq!(find_first(&chars(""), &chars("a")), None);
    assert_eq!(find_first(&chars("ab"), &chars("b")), Some(1));
}

#[test]
fn only_the_leftmost_occurrence_is_replaced() {
    assert_eq!(replace_first_in("a-b-c", "-", "+"), "a+b-c");
    assert_eq!(replace_first_in("a-b-c", "x", "+"), "a-b-c");
    assert_eq!(replace_first_in("a-b-c", "a-b-c", ""), "");
    assert_eq!(replace_first_in("abc", "c", "cd"), "abcd");
    assert_eq!(replace_first_in("abc", "", ">"), ">abc");
    assert_eq!(replace_first_in("", "", ">"), ">");
    assert_eq!(replace_first_in("", "a", ">"), "");
    assert_eq!(replace_first_in("\u{e9}t\u{e9}", "t", "T"), "\u{e9}T\u{e9}");
    assert_eq!(replace_first_in("xx", "x", "xx"), "xxx");
}

#[test]
fn prefixes_are_recognised() {
    assert!(starts_with(&chars("/data/x"), &chars("/data/")));
    assert!(starts_with(&chars("/data/"), &chars("/data/")));
    assert!(!starts_with(&chars("/data"), &chars("/data/")));
    assert!(starts_with(&chars("abc"), &chars("")));
    assert!(starts_with(&chars(""), &chars("")));
    assert!(!starts_with(&chars(""), &chars("a")));
}

#[test]
fn repeated_prefixes_are_stripped() {
    assert_eq!(strip_leading_of("https://example.org", "https://"), "example.org");
    assert_eq!(strip_leading_of("https://https://example.org", "https://"), "example.org");
    assert_eq!(strip_leading_of("http://example.org", "https://"), "http://example.org");
    assert_eq!(strip_leading_of("example.org", "https://"), "example.org");
    assert_eq!(strip_leading_of("aaa", "a"), "");
    assert_eq!(strip_leading_of("aaa", "aa"), "a");
    assert_eq!(strip_leading_of("abc", ""), "abc");
    assert_eq!(strip_leading_of("", "a"), "");
    assert_eq!(strip_leading_of("\u{e9}\u{e9}x", "\u{e9}"), "x");
}

#[test]
fn items_are_joined_with_the_separator_between() {
    let items = vec![String::from("a"), String::from("b"), String::from("c")];
    assert_eq!(join(&items, ", "), "a, b, c");
    assert_eq!(join(&items, ""), "abc");
    assert_eq!(join(&vec![String::from("a")], ", "), "a");
    assert_eq!(join(&Vec::new(), ", "), "");
    assert_eq!(join(&vec![String::new(), String::new()], "-"), "-");
}
