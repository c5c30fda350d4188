use cargo_crusader::width::{
    char_columns, display_width, frame_glyph, truncate_str, truncate_with_padding,
};

fn measure_display_width(s: &str) -> usize {
    s.chars()
        .map(|c| match c {
            '📦' | '📁' => 2,
            '─' | '│' | '┌' | '┐' | '└' | '┘' | '├' | '┤' | '┬' | '┴' | '┼' => 1,
            '✓' | '✗' | '⊘' | '⚠' => 1,
            '⚡' => 2,
            c if c.is_ascii() => 1,
            _ => {
                let code = c as u32;
                if (code >= 0x1F300 && code <= 0x1F9FF) || (code >= 0x2600 && code <= 0x26FF) {
                    2
                } else {
                    1
                }
            }
        })
        .sum()
}

#[test]
fn test_table_row_alignment() {
    let test_lines = vec![
        "┌────────────────────┬──────────┬─────────────────┬─────────────────────────┬─────────────────────┐",
        "│      Offered       │   Spec   │    Resolved     │        Dependent        │ Result         Time │",
        "├────────────────────┼──────────┼─────────────────┼─────────────────────────┼─────────────────────┤",
        "│ -                  │ ^0.8.52  │ 0.8.51 📦       │ image 0.25.8            │ PASSED ✓✓✓     2.1s │",
        "│ ✓ =this(0.8.91)    │ ^0.8.52  │ 0.8.91 📁       │ image 0.25.8            │ PASSED ✓✓✓     1.9s │",
        "│                    ├──────────┘                  └─────────────────────────┘                     │",
        "│                    │ cargo check failed on image:0.25.8                                          │",
        "│                    ├──────────┬─────────────────┬─────────────────────────┬─────────────────────┤",
        "└────────────────────┴──────────┴─────────────────┴─────────────────────────┴─────────────────────┘",
    ];

    println!("\nMeasuring display widths of each line:");
    let mut widths = Vec::new();
    for (i, line) in test_lines.iter().enumerate() {
        let width = measure_display_width(line);
        widths.push(width);
        println!("Line {}: {} chars (display width: {})", i, line.chars().count(), width);
        println!("  Content: {}", line);
    }

    let first_width = widths[0];
    let mut all_same = true;
    for (i, &w) in widths.iter().enumerate() {
        if w != first_width {
            println!("ERROR: Line {} has width {} but expected {}", i, w, first_width);
            all_same = false;
        }
    }

    println!("\nByte lengths:");
    for (i, line) in test_lines.iter().enumerate() {
        println!("Line {}: {} bytes, {} chars", i, line.len(), line.chars().count());
    }

    if !all_same {
        println!("\n⚠️  ALIGNMENT ISSUE DETECTED");
    } else {
        println!("\n✓ All lines have consistent width");
    }

    // The library measures these lines as the local measure does.
    for (line, width) in test_lines.iter().zip(widths.iter()) {
        assert_eq!(display_width(line), *width);
    }
    assert_eq!(first_width, 99);
}

#[test]
fn test_unicode_character_widths() {
    let test_chars = vec![
        ('📦', "package emoji"),
        ('📁', "folder emoji"),
        ('✓', "check mark"),
        ('✗', "cross mark"),
        ('⊘', "circled slash"),
        ('⚠', "warning sign"),
        ('⚡', "lightning bolt"),
        ('─', "box drawing horizontal"),
        ('│', "box drawing vertical"),
    ];

    println!("\nUnicode character width analysis:");
    for (ch, name) in test_chars {
        let code = ch as u32;
        let measured = measure_display_width(&ch.to_string());
        println!("  {} (U+{:04X}) {}: measured={} columns", ch, code, name, measured);
        assert_eq!(char_columns(ch), measured, "{}", name);
    }
}

#[test]
fn test_string_with_emojis() {
    let test_strings = vec!["0.8.51 📦", "0.8.91 📁", "✓✓✓", "✗--", "⊘ ↑0.8.48"];

    println!("\nString width measurements:");
    for s in test_strings {
        let char_count = s.chars().count();
        let byte_count = s.len();
        let measured_width = measure_display_width(s);
        println!(
            "  '{}': {} chars, {} bytes, {} display width",
            s, char_count, byte_count, measured_width
        );
        assert_eq!(display_width(s), measured_width);
    }
    assert_eq!(display_width("0.8.51 📦"), 9);
    assert_eq!(display_width("✓✓✓"), 3);
}

#[test]
fn test_frame_glyphs_and_ascii_agree_with_unicode_width() {
    for c in "─│┌┐└┘├┤┬┴┼".chars() {
        assert!(frame_glyph(c));
        assert_eq!(unicode_width::UnicodeWidthChar::width(c), Some(1));
        assert_eq!(char_columns(c), 1);
    }
    for code in 0x20u32..0x7f {
        let c = char::from_u32(code).unwrap();
        assert!(!frame_glyph(c));
        assert_eq!(unicode_width::UnicodeWidthChar::width(c), Some(1));
        assert_eq!(char_columns(c), 1);
    }
}

#[test]
fn test_char_columns_follow_unicode_width() {
    assert_eq!(char_columns('漢'), 2);
    assert_eq!(char_columns('\u{301}'), 0);
    assert_eq!(char_columns('\u{200d}'), 0);
    assert_eq!(char_columns('é'), 1);
    // Control characters have no width of their own and count one column.
    assert_eq!(char_columns('\n'), 1);
    assert_eq!(char_columns('\u{7}'), 1);
    assert_eq!(char_columns('\u{7f}'), 1);
    assert_eq!(char_columns('\u{9b}'), 1);
    for c in ['漢', '\u{301}', 'é', '📦', '⚡', '\u{a0}', '\u{ff21}', '\u{17d8}'] {
        assert_eq!(char_columns(c), unicode_width::UnicodeWidthChar::width(c).unwrap());
    }
}

#[test]
fn test_truncate_str() {
    assert_eq!(truncate_str("hello", 10), "hello");
    assert_eq!(truncate_str("hello", 5), "hello");
    assert_eq!(truncate_str("hello world", 8), "hello...");
    assert_eq!(truncate_str("hello", 3), "...");
    assert_eq!(truncate_str("hello", 2), "he");
    assert_eq!(truncate_str("hello", 0), "");
    assert_eq!(truncate_str("✓✓✓✓✓", 4), "✓...");
    assert_eq!(truncate_str("", 0), "");
}

#[test]
fn test_truncate_with_padding() {
    assert_eq!(truncate_with_padding("abc", 6), "abc   ");
    assert_eq!(truncate_with_padding("abcdef", 6), "abcdef");
    assert_eq!(truncate_with_padding("abcdefg", 6), "abc...");
    assert_eq!(truncate_with_padding("abcdefg", 2), "ab");
    assert_eq!(truncate_with_padding("abcdefg", 0), "");
    assert_eq!(truncate_with_padding("", 3), "   ");
    // A wide character that would straddle the cut is left out.
    assert_eq!(truncate_with_padding("a📦📦📦", 6), "a📦...");
    assert_eq!(truncate_with_padding("📦📦📦📦", 6), "📦... ");
    assert_eq!(truncate_with_padding("📦📦", 1), " ");
    assert_eq!(truncate_with_padding("📦📦", 2), "📦");
    assert_eq!(truncate_with_padding("📦", 2), "📦");
}

#[test]
fn test_truncation_always_meets_the_width() {
    let texts = [
        "",
        "plain",
        "e\u{301}e\u{301}e\u{301}e\u{301}e\u{301}",
        "\u{301}\u{301}\u{301}",
        "📦📁🔀⚡",
        "👨‍👩‍👧‍👦👨‍👩‍👧‍👦",
        "漢字かな交じり文",
        "a\tb\nc\u{0}d",
        "🇩🇪🇫🇷",
    ];
    for text in texts {
        for width in 0..24 {
            let fitted = truncate_with_padding(text, width);
            assert_eq!(display_width(&fitted), width, "{:?} to {}", text, width);
        }
    }
}

#[test]
fn test_display_width_is_the_sum_over_characters() {
    let text = "a📦e\u{301}│";
    let sum: usize = text.chars().map(char_columns).sum();
    assert_eq!(display_width(text), sum);
    assert_eq!(sum, 1 + 2 + 1 + 0 + 1);
    assert_eq!(display_width(""), 0);
}
