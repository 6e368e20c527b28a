use jwst_cosmos::text::{
    chars_of, decimal_string, find_from, join, matches_at, parse_number, replace, split_char,
    starts_with, str_contains, str_eq, strip_prefixes, trim, trim_class, trim_end_class, CharClass,
};

#[test]
fn chars_of_keeps_every_character() {
    assert_eq!(chars_of("a\u{e9}\u{1F600}"), vec!['a', '\u{e9}', '\u{1F600}']);
    assert_eq!(chars_of(""), Vec::<char>::new());
}

#[test]
fn matches_at_checks_position_and_bounds() {
    let s = chars_of("hello");
    assert!(matches_at(&s, &chars_of("ell"), 1));
    assert!(!matches_at(&s, &chars_of("ell"), 0));
    assert!(!matches_at(&s, &chars_of("lo!"), 3));
    assert!(matches_at(&s, &chars_of(""), 5));
    assert!(!matches_at(&s, &chars_of(""), 6));
}

#[test]
fn find_from_gives_the_first_occurrence() {
    let s = chars_of("abcabc");
    assert_eq!(find_from(&s, &chars_of("bc"), 0), Some(1));
    assert_eq!(find_from(&s, &chars_of("bc"), 2), Some(4));
    assert_eq!(find_from(&s, &chars_of("bc"), 5), None);
    assert_eq!(find_from(&s, &chars_of("x"), 0), None);
    assert_eq!(find_from(&s, &chars_of(""), 6), Some(6));
    assert_eq!(find_from(&s, &chars_of(""), 7), None);
}

#[test]
fn str_eq_and_prefix_and_contains() {
    assert!(str_eq("abc", "abc"));
    assert!(!str_eq("abc", "abd"));
    assert!(!str_eq("abc", "ab"));
    assert!(starts_with("~/x", "~/"));
    assert!(!starts_with("~", "~/"));
    assert!(str_contains("my-llava-model", "llava"));
    assert!(!str_contains("lava", "llava"));
    assert!(str_contains("anything", ""));
}

#[test]
fn replace_agrees_with_std() {
    let cases = [
        ("a{{x}}b{{x}}", "{{x}}", "1"),
        ("aaaa", "aa", "b"),
        ("aaa", "aa", "b"),
        ("abc", "x", "y"),
        ("", "x", "y"),
        ("xyz", "xyz", ""),
        ("&amp;amp;", "&amp;", "&"),
        ("\u{e9}t\u{e9}", "\u{e9}", "e"),
    ];
    for (s, from, to) in cases {
        assert_eq!(replace(s, from, to), s.replace(from, to), "{s:?} {from:?} {to:?}");
    }
}

#[test]
fn trim_agrees_with_std() {
    let cases = ["  a b \t", "", "   ", "x", "\u{a0}x\u{3000}", "\r\nline\r\n", "\u{200b}x"];
    for s in cases {
        assert_eq!(trim(s), s.trim(), "{s:?}");
    }
}

#[test]
fn trim_class_cuts_quotes_and_slashes() {
    assert_eq!(trim_class("'\"#fff\"'", CharClass::Quote), "#fff");
    assert_eq!(trim_class("''", CharClass::Quote), "");
    assert_eq!(trim_class("a'b", CharClass::Quote), "a'b");
    assert_eq!(trim_end_class("https://x/y///", CharClass::Slash), "https://x/y");
    assert_eq!(trim_end_class("///", CharClass::Slash), "");
    assert_eq!(trim_end_class("/a", CharClass::Slash), "/a");
}

#[test]
fn strip_prefixes_removes_every_copy() {
    assert_eq!(strip_prefixes("export export x", "export "), "x");
    assert_eq!(strip_prefixes("wallust_color1", "wallust_"), "color1");
    assert_eq!(strip_prefixes("color1", "wallust_"), "color1");
    assert_eq!(strip_prefixes("aaa", "a"), "");
    assert_eq!(strip_prefixes("abc", ""), "abc");
    assert_eq!(
        strip_prefixes("export export x", "export "),
        "export export x".trim_start_matches("export ")
    );
}

#[test]
fn split_char_agrees_with_std() {
    let cases = ["1920x1080", "x", "", "abc", "axbxc", "xx", "5120X2160"];
    for s in cases {
        let expected: Vec<&str> = s.split('x').collect();
        assert_eq!(split_char(s, 'x'), expected, "{s:?}");
    }
}

#[test]
fn decimal_string_writes_numbers() {
    assert_eq!(decimal_string(0), "0");
    assert_eq!(decimal_string(7), "7");
    assert_eq!(decimal_string(10), "10");
    assert_eq!(decimal_string(19000), "19000");
    assert_eq!(decimal_string(u64::MAX), "18446744073709551615");
}

#[test]
fn parse_number_agrees_with_std() {
    let cases = [
        "0", "7", "007", "+5", "+", "", "-1", "12a", " 1", "4294967295", "4294967296",
        "99999999999999999999999", "1_0", "\u{661}",
    ];
    for s in cases {
        assert_eq!(
            parse_number(s, u32::MAX as u64),
            s.parse::<u32>().ok().map(|v| v as u64),
            "{s:?}"
        );
    }
    assert_eq!(parse_number("15", 15), Some(15));
    assert_eq!(parse_number("16", 15), None);
    assert_eq!(parse_number("18446744073709551615", u64::MAX), Some(u64::MAX));
    assert_eq!(parse_number("18446744073709551616", u64::MAX), None);
    assert_eq!(parse_number("5", 0), None);
    assert_eq!(parse_number("0", 0), Some(0));
}

#[test]
fn join_puts_the_separator_between() {
    let parts = vec!["NIRCam".to_string(), "MIRI".to_string(), "NIRSpec".to_string()];
    assert_eq!(join(&parts, ", "), "NIRCam, MIRI, NIRSpec");
    assert_eq!(join(&vec!["one".to_string()], ", "), "one");
    assert_eq!(join(&Vec::new(), ", "), "");
    assert_eq!(join(&vec![String::new(), String::new()], "-"), "-");
}
