use horned_owl::text::read_decimal;
use horned_owl::text::read_language;
use horned_owl::text::read_quoted;
use horned_owl::text::replace_pair_in;
use horned_owl::text::str_eq;
use horned_owl::text::to_chars;

#[test]
fn a_quoted_string_loses_its_quotes() {
    assert_eq!(read_quoted("\"hello\""), Some("hello".to_string()));
    assert_eq!(read_quoted("\"\""), Some(String::new()));
    assert_eq!(read_quoted("\"caf\u{e9} \u{4e16}\u{754c}\""), Some("caf\u{e9} \u{4e16}\u{754c}".to_string()));
}

#[test]
fn a_token_without_room_for_quotes_is_no_quoted_string() {
    assert_eq!(read_quoted(""), None);
    assert_eq!(read_quoted("\""), None);
}

#[test]
fn the_two_escapes_are_resolved() {
    // \\ becomes \
    assert_eq!(read_quoted(r#""a\\b""#), Some(r"a\b".to_string()));
    // \" becomes "
    assert_eq!(read_quoted(r#""say \"hi\"""#), Some(r#"say "hi""#.to_string()));
    // both in one string
    assert_eq!(read_quoted(r#""\\ and \"""#), Some(r#"\ and ""#.to_string()));
}

#[test]
fn other_backslashes_stay() {
    assert_eq!(read_quoted(r#""a\nb""#), Some(r"a\nb".to_string()));
    assert_eq!(read_quoted(r#""tail\""#), Some(r"tail\".to_string()));
}

#[test]
fn the_backslash_pass_runs_before_the_quote_pass() {
    // \\" is first \" and then "
    assert_eq!(read_quoted(r#""x\\"y""#), Some(r#"x"y"#.to_string()));
    // three backslashes: the first two pair up, the third stays
    assert_eq!(read_quoted(r#""\\\""#), Some(r"\\".to_string()));
}

#[test]
fn unescaping_agrees_with_two_replacements() {
    for s in [r"", r"\", r"\\", r"\\\", r"\\\\", r#"\""#, r#"\\""#, r#"a\\\"b\"\\"#, r#"""\"#] {
        let token = format!("\"{}\"", s);
        let expected = s.replace(r"\\", r"\").replace(r#"\""#, r#"""#);
        assert_eq!(read_quoted(&token), Some(expected), "for {:?}", s);
    }
}

#[test]
fn pairs_are_replaced_from_the_left_without_overlap() {
    let v = to_chars("aaa");
    assert_eq!(replace_pair_in(&v, 'a', 'a', 'b'), vec!['b', 'a']);
    let v = to_chars("aaaa");
    assert_eq!(replace_pair_in(&v, 'a', 'a', 'b'), vec!['b', 'b']);
    let v = to_chars("xay");
    assert_eq!(replace_pair_in(&v, 'a', 'a', 'b'), vec!['x', 'a', 'y']);
}

#[test]
fn a_language_tag_loses_its_mark_and_the_space_around() {
    assert_eq!(read_language("@en"), Some("en".to_string()));
    assert_eq!(read_language("@en-GB"), Some("en-GB".to_string()));
    assert_eq!(read_language("@ en \t\n"), Some("en".to_string()));
    assert_eq!(read_language("@\u{a0}fr\u{3000}"), Some("fr".to_string()));
    assert_eq!(read_language("@"), Some(String::new()));
    assert_eq!(read_language("@   "), Some(String::new()));
    assert_eq!(read_language("@a b"), Some("a b".to_string()));
    assert_eq!(read_language(""), None);
}

#[test]
fn trimming_agrees_with_the_standard_library() {
    for s in ["", " ", "x", " x", "x ", "\u{2003}x y\u{2028}", "\u{200b}x", "\u{85}\u{1680}z\u{205f}"] {
        let token = format!("@{}", s);
        assert_eq!(read_language(&token), Some(s.trim().to_string()), "for {:?}", s);
    }
}

#[test]
fn digits_are_read_as_a_number() {
    assert_eq!(read_decimal("0"), Some(0));
    assert_eq!(read_decimal("2"), Some(2));
    assert_eq!(read_decimal("007"), Some(7));
    assert_eq!(read_decimal("1234567890"), Some(1234567890));
    assert_eq!(read_decimal("4294967295"), Some(4294967295));
}

#[test]
fn a_number_that_does_not_fit_is_refused() {
    assert_eq!(read_decimal("4294967296"), None);
    assert_eq!(read_decimal("99999999999999999999999999"), None);
    assert_eq!(read_decimal("00000000004294967296"), None);
    assert_eq!(read_decimal("00000000004294967295"), Some(4294967295));
}

#[test]
fn what_is_not_all_digits_is_no_number() {
    assert_eq!(read_decimal(""), None);
    assert_eq!(read_decimal("12a"), None);
    assert_eq!(read_decimal("+5"), None);
    assert_eq!(read_decimal("-5"), None);
    assert_eq!(read_decimal(" 5"), None);
    assert_eq!(read_decimal("\u{664}"), None);
}

#[test]
fn strings_are_compared_by_their_characters() {
    assert!(str_eq("", ""));
    assert!(str_eq("abc", "abc"));
    assert!(!str_eq("abc", "abd"));
    assert!(!str_eq("abc", "ab"));
    assert!(str_eq("\u{e9}", "\u{e9}"));
    assert!(!str_eq("\u{e9}", "e\u{301}"));
}

#[test]
fn characters_come_out_in_order() {
    assert_eq!(to_chars("a\u{e9}\u{1f600}"), vec!['a', '\u{e9}', '\u{1f600}']);
    assert_eq!(to_chars(""), Vec::<char>::new());
}
