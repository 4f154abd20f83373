use http_server::text::{
    byte_length, chars_of, decimal, digit, find, is_whitespace, line_at, matches_at, push_decimal,
    rest, same_chars, skip_to, starts_with, str_eq, str_starts_with, strip_prefix, word_at,
    CharClass,
};

fn chars(s: &str) -> Vec<char> {
    s.chars().collect()
}

#[test]
fn whitespace_agrees_with_the_standard_library() {
    let mut n: u32 = 0;
    while n <= 0x10ffff {
        if let Some(c) = char::from_u32(n) {
            assert_eq!(is_whitespace(c), c.is_whitespace());
        }
        n += 1;
    }
}

#[test]
fn whitespace_knows_the_usual_characters() {
    assert!(is_whitespace(' '));
    assert!(is_whitespace('\t'));
    assert!(is_whitespace('\r'));
    assert!(is_whitespace('\n'));
    assert!(is_whitespace('\u{3000}'));
    assert!(!is_whitespace('a'));
    assert!(!is_whitespace('/'));
    assert!(!is_whitespace('\u{200b}'));
}

#[test]
fn classes_hold_their_characters() {
    assert!(CharClass::LineFeed.contains('\n'));
    assert!(!CharClass::LineFeed.contains('\r'));
    assert!(CharClass::Space.contains(' '));
    assert!(!CharClass::Space.contains('x'));
    assert!(CharClass::Word.contains('x'));
    assert!(!CharClass::Word.contains(' '));
}

#[test]
fn skip_to_stops_at_the_first_character_of_the_class() {
    let s = chars("ab cd\nef");
    assert_eq!(skip_to(&s, 0, CharClass::Space), 2);
    assert_eq!(skip_to(&s, 2, CharClass::Space), 2);
    assert_eq!(skip_to(&s, 2, CharClass::Word), 3);
    assert_eq!(skip_to(&s, 0, CharClass::LineFeed), 5);
    assert_eq!(skip_to(&s, 6, CharClass::LineFeed), 8);
    assert_eq!(skip_to(&s, 8, CharClass::Word), 8);
}

#[test]
fn matches_at_compares_in_place() {
    let s = chars("hello");
    assert!(matches_at(&s, &chars("ell"), 1));
    assert!(!matches_at(&s, &chars("ell"), 0));
    assert!(!matches_at(&s, &chars("lo!"), 3));
    assert!(matches_at(&s, &chars(""), 5));
    assert!(!matches_at(&s, &chars(""), 6));
}

#[test]
fn find_gives_the_first_occurrence() {
    assert_eq!(find(&chars("a: b: c"), &chars(": ")), Some(1));
    assert_eq!(find(&chars("abcabc"), &chars("bc")), Some(1));
    assert_eq!(find(&chars("abc"), &chars("abc")), Some(0));
    assert_eq!(find(&chars("abc"), &chars("abcd")), None);
    assert_eq!(find(&chars("abc"), &chars("x")), None);
    assert_eq!(find(&chars("abc"), &chars("")), Some(0));
    assert_eq!(find(&chars(""), &chars("")), Some(0));
    assert_eq!(find(&chars("a\r\n\r\nb"), &chars("\r\n\r\n")), Some(1));
}

#[test]
fn starts_with_is_not_aware_of_segments() {
    assert!(starts_with(&chars("/filesx"), &chars("/files")));
    assert!(starts_with(&chars("/files"), &chars("/files")));
    assert!(!starts_with(&chars("/file"), &chars("/files")));
    assert!(starts_with(&chars("abc"), &chars("")));
    assert!(str_starts_with("/echo/abc", "/echo"));
    assert!(!str_starts_with("/ech", "/echo"));
    assert!(!str_starts_with("/Echo", "/echo"));
}

#[test]
fn same_chars_and_str_eq_compare_whole_texts() {
    assert!(same_chars(&chars("GET"), &chars("GET")));
    assert!(!same_chars(&chars("GET"), &chars("GETS")));
    assert!(!same_chars(&chars("GETS"), &chars("GET")));
    assert!(!same_chars(&chars("GET"), &chars("get")));
    assert!(str_eq("/", "/"));
    assert!(!str_eq("/", "//"));
    assert!(str_eq("", ""));
}

#[test]
fn chars_of_lists_the_characters() {
    assert_eq!(chars_of("a\u{e9}\u{1f600}"), vec!['a', '\u{e9}', '\u{1f600}']);
    assert_eq!(chars_of(""), Vec::<char>::new());
}

#[test]
fn word_at_finds_the_next_word() {
    let s = chars("  GET   /x  ");
    assert_eq!(word_at(&s, 0), (2, 5));
    assert_eq!(word_at(&s, 5), (8, 10));
    assert_eq!(word_at(&s, 10), (12, 12));
    assert_eq!(word_at(&chars(""), 0), (0, 0));
}

#[test]
fn line_at_strips_the_terminator() {
    let s = chars("ab\r\ncd\n\r\nef");
    assert_eq!(line_at(&s, 0), (2, 4));
    assert_eq!(line_at(&s, 4), (6, 7));
    assert_eq!(line_at(&s, 7), (7, 9));
    assert_eq!(line_at(&s, 9), (11, 11));
    assert_eq!(line_at(&s, 11), (11, 11));
}

#[test]
fn line_at_keeps_a_carriage_return_that_no_line_feed_follows() {
    let s = chars("ab\rcd\r");
    assert_eq!(line_at(&s, 0), (6, 6));
    let t = chars("\r\n");
    assert_eq!(line_at(&t, 0), (0, 2));
    let u = chars("\n");
    assert_eq!(line_at(&u, 0), (0, 1));
}

#[test]
fn digit_writes_one_character() {
    assert_eq!(digit(0), "0");
    assert_eq!(digit(5), "5");
    assert_eq!(digit(9), "9");
}

#[test]
fn decimal_writes_digits() {
    assert_eq!(decimal(0), "0");
    assert_eq!(decimal(9), "9");
    assert_eq!(decimal(10), "10");
    assert_eq!(decimal(404), "404");
    assert_eq!(decimal(4096), "4096");
    assert_eq!(decimal(18446744073709551615), "18446744073709551615");
}

#[test]
fn push_decimal_appends() {
    let mut out = String::from("n=");
    push_decimal(&mut out, 201);
    assert_eq!(out, "n=201");
}

#[test]
fn strip_prefix_gives_what_follows() {
    assert_eq!(strip_prefix("/echo/abc", "/echo/"), Some("abc"));
    assert_eq!(strip_prefix("/echo/", "/echo/"), Some(""));
    assert_eq!(strip_prefix("/echo", "/echo/"), None);
    assert_eq!(strip_prefix("/\u{e9}t\u{e9}", "/\u{e9}"), Some("t\u{e9}"));
}

#[test]
fn rest_is_empty_without_the_prefix() {
    assert_eq!(rest("/files/a.txt", "/files/"), "a.txt");
    assert_eq!(rest("/filesx", "/files/"), "");
    assert_eq!(rest("/files/a/b", "/files/"), "a/b");
}

#[test]
fn byte_length_counts_bytes_not_characters() {
    assert_eq!(byte_length("abc"), 3);
    assert_eq!(byte_length(""), 0);
    assert_eq!(byte_length("\u{e9}"), 2);
    assert_eq!(byte_length("\u{1f600}"), 4);
}
