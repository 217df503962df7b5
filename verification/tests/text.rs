use codex_tui::text::{
    decimal_text, is_white_space, lines, parse_natural, same_text, split, strip_prefix, trim,
    trim_line_end,
};

fn samples() -> Vec<&'static str> {
    vec![
        "",
        "a",
        " ",
        "\n",
        "\r\n",
        "\r",
        "a\n",
        "a\r\n",
        "a\r",
        "a\n\nb",
        "a\r\nb\r\n",
        "a\rb",
        "a\r\r\nb",
        "\n\n",
        " a b ",
        "\t\u{a0}x\u{3000}\n",
        "\u{200b}x\u{200b}",
        "ä\u{1F600}\nß",
        "1.2.3",
        ".",
        "..",
        "a.",
        ".a",
    ]
}

#[test]
fn white_space_is_what_unicode_says() {
    for code in 0..=0x10FFFFu32 {
        if let Some(c) = char::from_u32(code) {
            assert_eq!(is_white_space(c), c.is_whitespace(), "{code:x}");
        }
    }
}

#[test]
fn trimming_agrees_with_the_standard_library() {
    for s in samples() {
        assert_eq!(trim(s), s.trim());
        assert_eq!(trim_line_end(s), s.trim_end_matches(['\n', '\r']));
    }
    assert_eq!(trim("  a b\t"), "a b");
    assert_eq!(trim_line_end("x \r\n\n"), "x ");
}

#[test]
fn splitting_agrees_with_the_standard_library() {
    for s in samples() {
        for sep in ['.', '\n', 'a'] {
            let expected: Vec<String> = s.split(sep).map(|p| p.to_string()).collect();
            assert_eq!(split(s, sep), expected);
        }
    }
    assert_eq!(split("1..2", '.'), vec!["1", "", "2"]);
}

#[test]
fn parts_and_separators_make_up_the_text() {
    for s in samples() {
        let parts = split(s, '.');
        assert_eq!(parts.join("."), s);
        for part in parts {
            assert!(!part.contains('.'));
        }
    }
}

#[test]
fn lines_agree_with_the_standard_library() {
    for s in samples() {
        let expected: Vec<String> = s.lines().map(|l| l.to_string()).collect();
        assert_eq!(lines(s), expected, "{s:?}");
        for line in lines(s) {
            assert!(!line.contains('\n'));
        }
    }
    assert_eq!(lines("a\r\nb\n\nc"), vec!["a", "b", "", "c"]);
}

#[test]
fn prefixes_are_stripped_where_they_stand() {
    for s in samples() {
        for prefix in ["", "a", "a\n", "ä", "1.2.3.4"] {
            assert_eq!(
                strip_prefix(s, prefix),
                s.strip_prefix(prefix).map(|r| r.to_string())
            );
        }
    }
    assert_eq!(strip_prefix("name@1", "name@"), Some("1".to_string()));
    assert_eq!(strip_prefix("name", "name@"), None);
}

#[test]
fn texts_are_the_same_where_their_characters_are() {
    for a in samples() {
        for b in samples() {
            assert_eq!(same_text(a, b), a == b);
        }
    }
}

#[test]
fn numerals_agree_with_the_standard_library() {
    for s in [
        "", "0", "7", "42", "007", "+5", "+", "-1", "++1", "1 ", " 1", "1a", "a1", "1.0", "٣",
        "18446744073709551615", "18446744073709551616", "99999999999999999999",
        "000000000000000000000000001", "184467440737095516150", "+18446744073709551615",
    ] {
        assert_eq!(parse_natural(s), s.parse::<u64>().ok(), "{s:?}");
    }
    assert_eq!(parse_natural("+12"), Some(12));
}

#[test]
fn numerals_read_back() {
    for n in [0, 1, 9, 10, 11, 99, 100, 1234567890, u64::MAX - 1, u64::MAX] {
        assert_eq!(decimal_text(n), n.to_string());
        assert_eq!(parse_natural(&decimal_text(n)), Some(n));
    }
}
