use cargo_crusader::text::{
    blank, chars_of, decimal_string, first_lines, owned, pad_center, pad_left, pad_right,
    repeat_char, same_text, space_char, split_all, string_of, string_of_range,
};

#[test]
fn test_chars_and_strings() {
    assert_eq!(chars_of("a📦é"), vec!['a', '📦', 'é']);
    assert_eq!(string_of(&vec!['a', '📦', 'é']), "a📦é");
    assert_eq!(string_of_range(&vec!['a', 'b', 'c', 'd'], 1, 3), "bc");
    assert_eq!(string_of_range(&vec!['a'], 1, 1), "");
    assert_eq!(owned("text"), "text");
    assert!(same_text("abc", "abc"));
    assert!(!same_text("abc", "abd"));
    assert!(!same_text("abc", "ab"));
    assert!(same_text("", ""));
    assert_eq!(repeat_char('=', 3), "===");
    assert_eq!(repeat_char('=', 0), "");
}

#[test]
fn test_decimal() {
    assert_eq!(decimal_string(0), "0");
    assert_eq!(decimal_string(7), "7");
    assert_eq!(decimal_string(10), "10");
    assert_eq!(decimal_string(1234567890), "1234567890");
    assert_eq!(decimal_string(u64::MAX), "18446744073709551615");
}

#[test]
fn test_padding() {
    assert_eq!(pad_left("ab", 5), "   ab");
    assert_eq!(pad_left("abcdef", 5), "abcdef");
    assert_eq!(pad_left("✓✓", 4), format!("{:>4}", "✓✓"));
    assert_eq!(pad_right("ab", '-', 5), "ab---");
    assert_eq!(pad_right("abcdef", '-', 5), "abcdef");
    assert_eq!(pad_center("ab", 5), " ab  ");
    assert_eq!(pad_center("ab", 6), "  ab  ");
    assert_eq!(pad_center("abc", 2), "abc");
    for width in 0..12 {
        assert_eq!(pad_center("Spec", width), format!("{:^width$}", "Spec", width = width));
    }
}

#[test]
fn test_white_space() {
    for c in ['\u{0}', 'a', '\u{200b}', '\u{feff}', '_'] {
        assert!(!space_char(c));
    }
    for code in 0u32..0x11000 {
        if let Some(c) = char::from_u32(code) {
            assert_eq!(space_char(c), c.is_whitespace(), "U+{:04X}", code);
        }
    }
    assert!(blank(""));
    assert!(blank(" \t\r\n\u{3000}"));
    assert!(!blank("  x  "));
}

#[test]
fn test_first_lines() {
    let all = |s: &str| first_lines(s, usize::MAX);
    assert_eq!(all(""), Vec::<String>::new());
    assert_eq!(all("one"), vec!["one"]);
    assert_eq!(all("one\n"), vec!["one"]);
    assert_eq!(all("one\ntwo"), vec!["one", "two"]);
    assert_eq!(all("one\r\ntwo\r\n"), vec!["one", "two"]);
    assert_eq!(all("\n\n"), vec!["", ""]);
    assert_eq!(all("a\rb\n\rc\r"), vec!["a\rb", "\rc\r"]);
    assert_eq!(all("foo\r\nbar\n\nbaz\r"), vec!["foo", "bar", "", "baz\r"]);
    assert_eq!(first_lines("a\nb\nc", 2), vec!["a", "b"]);
    assert_eq!(first_lines("a\nb\nc", 0), Vec::<String>::new());
    assert_eq!(first_lines("a\nb\nc", 3), vec!["a", "b", "c"]);
    for text in ["", "x", "x\n", "\n", "a\r\n\r\nb", "tail\r", "\r\n", "a\n\nb\n\n"] {
        let expected: Vec<String> = text.lines().map(|l| l.to_string()).collect();
        assert_eq!(all(text), expected, "{:?}", text);
    }
}

#[test]
fn test_split_all() {
    let list = |items: &[&str]| items.iter().map(|s| s.to_string()).collect::<Vec<_>>();
    assert_eq!(split_all(&list(&["a b", "", "  c\td\n", "e"])), list(&["a", "b", "c", "d", "e"]));
    assert_eq!(split_all(&vec![]), Vec::<String>::new());
    assert_eq!(split_all(&list(&["   "])), Vec::<String>::new());
    for text in ["", " ", "one", " one", "one ", " one  two\u{2003}three ", "\u{a0}x"] {
        let expected: Vec<String> = text.split_whitespace().map(|w| w.to_string()).collect();
        assert_eq!(split_all(&list(&[text])), expected, "{:?}", text);
    }
}
