use sherlock::text::{
    char_is_whitespace, chars_eq, expand_keyword, is_blank_str, join, push_chars, push_str,
    replace_chars, str_eq, string_from_chars, to_chars, trim, trim_bounds,
};

fn chars(s: &str) -> Vec<char> {
    s.chars().collect()
}

#[test]
fn whitespace_agrees_with_std_on_every_char() {
    let mut n: u32 = 0;
    while n <= 0x10ffff {
        if let Some(c) = char::from_u32(n) {
            assert_eq!(char_is_whitespace(c), c.is_whitespace(), "U+{:04X}", n);
        }
        n += 1;
    }
}

#[test]
fn trim_agrees_with_std() {
    let cases = [
        "",
        " ",
        "   ",
        "a",
        " a",
        "a ",
        "  a b  ",
        "\t\nweb \r\n",
        "\u{a0}x\u{3000}",
        "\u{2003}\u{2003}",
        "x\u{200b}",
        "  émile  ",
    ];
    for case in cases {
        assert_eq!(trim(case), case.trim(), "{:?}", case);
    }
}

#[test]
fn trim_bounds_name_the_kept_range() {
    assert_eq!(trim_bounds(&chars("  ab ")), (2, 4));
    assert_eq!(trim_bounds(&chars("ab")), (0, 2));
    let (i, j) = trim_bounds(&chars("   "));
    assert_eq!(i, j);
    assert_eq!(trim_bounds(&chars("")), (0, 0));
}

#[test]
fn blank_texts_are_those_that_trim_to_nothing() {
    assert!(is_blank_str(""));
    assert!(is_blank_str(" \t\n"));
    assert!(is_blank_str("\u{2028}"));
    assert!(!is_blank_str(" a "));
    assert!(!is_blank_str("\u{200b}"));
}

#[test]
fn to_chars_and_back() {
    let v = to_chars("héllo");
    assert_eq!(v, vec!['h', 'é', 'l', 'l', 'o']);
    assert_eq!(string_from_chars(&v, 0, 5), "héllo");
    assert_eq!(string_from_chars(&v, 1, 3), "él");
    assert_eq!(string_from_chars(&v, 2, 2), "");
}

#[test]
fn strings_compare_by_their_characters() {
    assert!(str_eq("", ""));
    assert!(str_eq("web", "web"));
    assert!(!str_eq("web", "web "));
    assert!(!str_eq("Web", "web"));
    assert!(chars_eq(&chars("ab"), &chars("ab")));
    assert!(!chars_eq(&chars("ab"), &chars("ba")));
    assert!(!chars_eq(&chars("ab"), &chars("abc")));
}

#[test]
fn pushing_appends() {
    let mut s = String::from("ab");
    push_chars(&mut s, &chars("cd"));
    assert_eq!(s, "abcd");
    push_str(&mut s, "é!");
    assert_eq!(s, "abcdé!");
    push_str(&mut s, "");
    assert_eq!(s, "abcdé!");
}

#[test]
fn replace_agrees_with_std() {
    let cases = [
        ("", "ab", "x"),
        ("ab", "ab", "x"),
        ("abab", "ab", "x"),
        ("aab", "ab", "x"),
        ("aaa", "aa", "b"),
        ("aaaa", "aa", "b"),
        ("abcabc", "bc", ""),
        ("abc", "d", "x"),
        ("abc", "abcd", "x"),
        ("a{keyword}b{keyword}", "{keyword}", "rust"),
        ("ééé", "é", "ee"),
    ];
    for (s, pat, with) in cases {
        assert_eq!(
            replace_chars(&chars(s), &chars(pat), &chars(with)),
            s.replace(pat, with),
            "{:?} {:?} {:?}",
            s,
            pat,
            with
        );
    }
}

#[test]
fn keyword_is_filled_into_templates() {
    assert_eq!(expand_keyword("Search for {keyword}", "verus"), "Search for verus");
    assert_eq!(expand_keyword("{keyword}{keyword}", "ab"), "abab");
    assert_eq!(expand_keyword("no marker", "ab"), "no marker");
    assert_eq!(expand_keyword("{keyword}", ""), "");
    assert_eq!(expand_keyword("{keyword", "x"), "{keyword");
    assert_eq!(expand_keyword("{{keyword}}", "x"), "{x}");
    // What is filled in is not looked through again.
    assert_eq!(expand_keyword("{keyword}", "{keyword}"), "{keyword}");
}

#[test]
fn join_puts_the_separator_between() {
    let none: Vec<String> = Vec::new();
    assert_eq!(join(&none, ", "), "");
    assert_eq!(join(&vec![String::from("a")], ", "), "a");
    assert_eq!(join(&vec![String::from("a"), String::from("b")], ", "), "a, b");
    assert_eq!(
        join(&vec![String::from("a"), String::new(), String::from("c")], "-"),
        "a--c"
    );
}
