use oper_delta::text::{
    digit_text, i64_to_string, lines, pad, parse_u32, split, trim, u32_to_string, u64_to_string,
    white_space,
};

#[test]
fn decimal_notation_of_numbers() {
    assert_eq!(u32_to_string(0), "0");
    assert_eq!(u32_to_string(7), "7");
    assert_eq!(u32_to_string(10), "10");
    assert_eq!(u32_to_string(1203), "1203");
    assert_eq!(u32_to_string(u32::MAX), "4294967295");
    assert_eq!(u64_to_string(u64::MAX), "18446744073709551615");
    assert_eq!(i64_to_string(0), "0");
    assert_eq!(i64_to_string(-1), "-1");
    assert_eq!(i64_to_string(i64::MIN), "-9223372036854775808");
    assert_eq!(i64_to_string(i64::MAX), "9223372036854775807");
    for d in 0..10u32 {
        assert_eq!(digit_text(d), d.to_string());
    }
}

#[test]
fn decimal_notation_agrees_with_the_standard_library() {
    for n in [0u32, 1, 9, 10, 11, 99, 100, 101, 65535, 65536, 999999999, 1000000000] {
        assert_eq!(u32_to_string(n), n.to_string());
        assert_eq!(parse_u32(&n.to_string()), Some(n));
    }
}

#[test]
fn numbers_are_parsed_like_the_standard_library_does() {
    for s in [
        "", "+", "-", "0", "+0", "-0", "12", "012", "+12", "++12", "1+2", "12 ", " 12", "1_000",
        "4294967295", "4294967296", "42949672950", "99999999999999999999", "0x10", "１２", "1a",
        "a1", "+4294967295", "00000000000000000001",
    ] {
        assert_eq!(parse_u32(s), s.parse::<u32>().ok(), "parsing {:?}", s);
    }
}

#[test]
fn white_space_is_what_unicode_says() {
    for code in 0..0x3100u32 {
        if let Some(c) = char::from_u32(code) {
            assert_eq!(white_space(c), c.is_whitespace(), "character {:#x}", code);
        }
    }
    assert!(!white_space('\u{FEFF}'));
    assert!(!white_space('\u{200B}'));
}

#[test]
fn trimming_removes_white_space_at_both_ends_only() {
    for s in [
        "", " ", "a", " a", "a ", "  a b  ", "\n\t a\u{a0}b \r\n", "\u{3000}x\u{2003}", "a\n",
        "\u{feff}a", " \u{1680} ", "no space", "x \u{85}",
    ] {
        assert_eq!(trim(s), s.trim(), "trimming {:?}", s);
    }
}

#[test]
fn splitting_keeps_empty_pieces() {
    for s in ["", " ", "a", "a b", "a  b", " a", "a ", "--all --date-order", "  ", "ä ö"] {
        let expected: Vec<String> = s.split(' ').map(|p| p.to_string()).collect();
        assert_eq!(split(s, ' '), expected, "splitting {:?}", s);
    }
    assert_eq!(split("a,b,,c", ','), vec!["a", "b", "", "c"]);
}

#[test]
fn lines_end_at_line_feeds() {
    for s in [
        "", "\n", "a", "a\n", "a\nb", "a\nb\n", "a\r\nb\r\n", "a\n\nb", "\n\n", "a\r", "a\r\n",
        "a\rb\n", "lib/a\nlib/b\n.repo/manifests", "\r\n", "x\r\r\n",
    ] {
        let expected: Vec<String> = s.lines().map(|p| p.to_string()).collect();
        assert_eq!(lines(s), expected, "lines of {:?}", s);
    }
}

#[test]
fn padding_fills_up_with_spaces() {
    assert_eq!(pad("git repo", 30), format!("{:30}", "git repo"));
    assert_eq!(pad("git repo", 30).len(), 30);
    assert_eq!(pad("", 3), "   ");
    assert_eq!(pad("abc", 3), "abc");
    assert_eq!(pad("abcd", 3), "abcd");
    assert_eq!(pad("äö", 4), format!("{:4}", "äö"));
    assert_eq!(pad("x", 0), "x");
}
