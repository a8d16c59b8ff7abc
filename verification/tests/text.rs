use zendns::text::{chars_of, is_whitespace, parse_entries, starts_with, string_of};

#[test]
fn entries_are_the_trimmed_lines_that_are_neither_blank_nor_comments() {
    let text = "ads.example.com\n\n# a comment\n  tracker.example.net  \n\t\nmalware.example.org";
    assert_eq!(
        parse_entries(text),
        vec!["ads.example.com", "tracker.example.net", "malware.example.org"]
    );
}

#[test]
fn empty_text_has_no_entries() {
    assert_eq!(parse_entries(""), Vec::<String>::new());
    assert_eq!(parse_entries("\n"), Vec::<String>::new());
    assert_eq!(parse_entries("\n\n\n"), Vec::<String>::new());
    assert_eq!(parse_entries("   \n \t "), Vec::<String>::new());
}

#[test]
fn last_line_needs_no_line_feed() {
    assert_eq!(parse_entries("a.example"), vec!["a.example"]);
    assert_eq!(parse_entries("a.example\n"), vec!["a.example"]);
    assert_eq!(parse_entries("a.example\nb.example"), vec!["a.example", "b.example"]);
}

#[test]
fn carriage_returns_are_trimmed_away() {
    assert_eq!(parse_entries("a.example\r\nb.example\r\n"), vec!["a.example", "b.example"]);
    assert_eq!(parse_entries("\r\n\r\n"), Vec::<String>::new());
}

#[test]
fn comment_marker_counts_only_at_the_start_of_the_trimmed_line() {
    assert_eq!(parse_entries("   # indented comment\nname#tail\n#\n# \n"), vec!["name#tail"]);
}

#[test]
fn inner_white_space_is_kept() {
    assert_eq!(parse_entries("  0.0.0.0 ads.example.com  \n"), vec!["0.0.0.0 ads.example.com"]);
}

#[test]
fn duplicate_lines_are_reported_in_order() {
    assert_eq!(parse_entries("b\na\nb\n"), vec!["b", "a", "b"]);
}

#[test]
fn unicode_white_space_is_trimmed() {
    let text = "\u{2003}\u{a0}caf\u{e9}.example\u{3000}\u{85}\n\u{1680}\u{2028}\n";
    assert_eq!(parse_entries(text), vec!["caf\u{e9}.example"]);
}

#[test]
fn entries_agree_with_the_standard_line_splitter() {
    let text = " one \r\n#two\n\nthree\u{a0}\n \t four\n# five\nsix#\n\u{b}\u{c}seven";
    let expected: Vec<String> = text
        .lines()
        .map(|line| line.trim())
        .filter(|line| !line.is_empty() && !line.starts_with('#'))
        .map(|line| line.to_string())
        .collect();
    assert_eq!(parse_entries(text), expected);
    assert_eq!(expected, vec!["one", "three", "four", "six#", "seven"]);
}

#[test]
fn white_space_is_what_the_standard_library_calls_white_space() {
    let mut code: u32 = 0;
    while code <= 0x10ffff {
        if let Some(c) = char::from_u32(code) {
            assert_eq!(is_whitespace(c), c.is_whitespace(), "code point {:#x}", code);
        }
        code += 1;
    }
}

#[test]
fn white_space_examples() {
    assert!(is_whitespace(' '));
    assert!(is_whitespace('\t'));
    assert!(is_whitespace('\n'));
    assert!(is_whitespace('\r'));
    assert!(is_whitespace('\u{a0}'));
    assert!(is_whitespace('\u{3000}'));
    assert!(!is_whitespace('a'));
    assert!(!is_whitespace('#'));
    assert!(!is_whitespace('\u{200b}'));
    assert!(!is_whitespace('\u{8}'));
    assert!(!is_whitespace('\u{e}'));
}

#[test]
fn chars_and_strings_round_trip() {
    let chars = chars_of("h\u{e9}llo");
    assert_eq!(chars, vec!['h', '\u{e9}', 'l', 'l', 'o']);
    assert_eq!(string_of(&chars, 0, 5), "h\u{e9}llo");
    assert_eq!(string_of(&chars, 1, 3), "\u{e9}l");
    assert_eq!(string_of(&chars, 2, 2), "");
    assert_eq!(chars_of(""), Vec::<char>::new());
}

#[test]
fn starts_with_compares_characters() {
    assert!(starts_with("https://x", "https://"));
    assert!(starts_with("abc", ""));
    assert!(starts_with("", ""));
    assert!(starts_with("abc", "abc"));
    assert!(!starts_with("ab", "abc"));
    assert!(!starts_with("abd", "abc"));
    assert!(starts_with("\u{e9}t\u{e9}", "\u{e9}t"));
    assert!(!starts_with("ete", "\u{e9}t"));
}
