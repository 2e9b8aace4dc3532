use http_server::text::chars::{chars_of, same_text, substring};
use http_server::text::decimal::decimal_string;
use http_server::text::search::{find, occurs_at};
use http_server::text::trim::{is_whitespace, trim_bounds};

fn chars(s: &str) -> Vec<char> {
    s.chars().collect()
}

#[test]
fn decimal_numerals() {
    assert_eq!(decimal_string(0), "0");
    assert_eq!(decimal_string(7), "7");
    assert_eq!(decimal_string(9), "9");
    assert_eq!(decimal_string(10), "10");
    assert_eq!(decimal_string(404), "404");
    assert_eq!(decimal_string(1024), "1024");
    assert_eq!(decimal_string(1234567890), "1234567890");
    assert_eq!(decimal_string(usize::MAX), usize::MAX.to_string());
    for n in 0usize..3000 {
        assert_eq!(decimal_string(n), n.to_string());
    }
}

#[test]
fn white_space_is_what_the_standard_library_says() {
    let mut count: u32 = 0;
    for u in 0u32..=0x10FFFF {
        if let Some(c) = char::from_u32(u) {
            assert_eq!(is_whitespace(c), c.is_whitespace());
            if is_whitespace(c) {
                count += 1;
            }
        }
    }
    assert_eq!(count, 25);
}

#[test]
fn trimming_is_what_the_standard_library_does() {
    for s in [
        "",
        " ",
        "a",
        " a",
        "a ",
        "  a b  ",
        "\t\r\n x \u{a0}\u{3000}",
        "\u{2003}\u{2028}",
        "x\u{200b}",
        "\u{200b} x",
        " \u{feff}x",
    ] {
        let v = chars(s);
        let (a, b) = trim_bounds(&v);
        let got: String = v[a..b].iter().collect();
        assert_eq!(got, s.trim());
    }
}

#[test]
fn trim_bounds_of_blank_text() {
    let v = chars(" \t ");
    let (a, b) = trim_bounds(&v);
    assert_eq!(a, b);
    assert_eq!(trim_bounds(&[]), (0, 0));
    assert_eq!(trim_bounds(&chars("  ab c ")), (2, 6));
}

#[test]
fn find_gives_the_leftmost_occurrence() {
    assert_eq!(find(&chars("abcabc"), &chars("bc")), Some(1));
    assert_eq!(find(&chars("abcabc"), &chars("abc")), Some(0));
    assert_eq!(find(&chars("abcabc"), &chars("cab")), Some(2));
    assert_eq!(find(&chars("abcabc"), &chars("abcabc")), Some(0));
    assert_eq!(find(&chars("aaab"), &chars("aab")), Some(1));
    assert_eq!(find(&chars("a\r\n\r\n\r\n"), &chars("\r\n\r\n")), Some(1));
    assert_eq!(find(&chars("abc"), &chars("c")), Some(2));
}

#[test]
fn find_without_occurrence() {
    assert_eq!(find(&chars("abcabc"), &chars("cb")), None);
    assert_eq!(find(&chars("ab"), &chars("abc")), None);
    assert_eq!(find(&chars(""), &chars("a")), None);
    assert_eq!(find(&chars("\r\n\r"), &chars("\r\n\r\n")), None);
}

#[test]
fn empty_pattern_occurs_at_the_start() {
    assert_eq!(find(&chars("abc"), &[]), Some(0));
    assert_eq!(find(&[], &[]), Some(0));
}

#[test]
fn occurs_at_an_index() {
    let s = chars("hello");
    assert!(occurs_at(&s, &chars("ell"), 1));
    assert!(!occurs_at(&s, &chars("ell"), 0));
    assert!(occurs_at(&s, &chars("lo"), 3));
    assert!(!occurs_at(&s, &chars("lo"), 4));
    assert!(!occurs_at(&s, &chars("lo"), 9));
    assert!(occurs_at(&s, &[], 5));
    assert!(!occurs_at(&s, &[], 6));
    assert!(!occurs_at(&s, &chars("o"), usize::MAX));
}

#[test]
fn characters_and_substrings() {
    assert_eq!(chars_of("a\u{e9}\u{4e16}\u{1f600}"), vec!['a', '\u{e9}', '\u{4e16}', '\u{1f600}']);
    assert_eq!(chars_of(""), Vec::<char>::new());
    let s = "a\u{e9}\u{4e16}\u{1f600}z";
    assert_eq!(substring(s, 0, 5), s);
    assert_eq!(substring(s, 1, 3), "\u{e9}\u{4e16}");
    assert_eq!(substring(s, 3, 4), "\u{1f600}");
    assert_eq!(substring(s, 5, 5), "");
    assert_eq!(substring(s, 0, 0), "");
}

#[test]
fn same_text_compares_characters() {
    assert!(same_text("abc", "abc"));
    assert!(!same_text("abc", "abd"));
    assert!(!same_text("abc", "ab"));
    assert!(same_text("", ""));
}
