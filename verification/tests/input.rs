use mathdrill::input::{parse_i32, parse_u32, space, trimmed};

#[test]
fn space_agrees_with_std_on_every_char() {
    let mut spaces = 0;
    for code in 0u32..=0x10FFFF {
        if let Some(c) = char::from_u32(code) {
            assert_eq!(space(c), c.is_whitespace(), "U+{:04X}", code);
            if space(c) {
                spaces += 1;
            }
        }
    }
    assert_eq!(spaces, 25);
}

#[test]
fn trimmed_strips_both_ends() {
    assert_eq!(trimmed("  7\n"), "7");
    assert_eq!(trimmed("7"), "7");
    assert_eq!(trimmed("\t q \r\n"), "q");
    assert_eq!(trimmed("a b"), "a b");
    assert_eq!(trimmed("  a  b  "), "a  b");
}

#[test]
fn trimmed_of_blank_lines_is_empty() {
    assert_eq!(trimmed(""), "");
    assert_eq!(trimmed("\n"), "");
    assert_eq!(trimmed(" \t\r\n"), "");
    assert_eq!(trimmed("\u{3000}\u{2003}\u{85}"), "");
}

#[test]
fn trimmed_matches_std_on_unicode() {
    let lines = [
        "\u{a0}12\u{2028}",
        "\u{1680}é ü\u{205f}",
        "\u{200b}x\u{200b}",
        " \u{feff}y ",
        "日本 語\u{3000}",
        "\u{b}\u{c}+5\u{202f}",
        "\u{180e}z",
    ];
    for line in lines {
        assert_eq!(trimmed(line), line.trim());
    }
    assert_eq!(trimmed("\u{200b}x\u{200b}"), "\u{200b}x\u{200b}");
}

#[test]
fn parse_i32_reads_numerals() {
    assert_eq!(parse_i32("0"), Some(0));
    assert_eq!(parse_i32("7"), Some(7));
    assert_eq!(parse_i32("42"), Some(42));
    assert_eq!(parse_i32("-3"), Some(-3));
    assert_eq!(parse_i32("+5"), Some(5));
    assert_eq!(parse_i32("007"), Some(7));
    assert_eq!(parse_i32("-0"), Some(0));
    assert_eq!(parse_i32("00000000000000000012"), Some(12));
}

#[test]
fn parse_i32_at_the_limits() {
    assert_eq!(parse_i32("2147483647"), Some(i32::MAX));
    assert_eq!(parse_i32("+2147483647"), Some(i32::MAX));
    assert_eq!(parse_i32("-2147483648"), Some(i32::MIN));
    assert_eq!(parse_i32("2147483648"), None);
    assert_eq!(parse_i32("-2147483649"), None);
    assert_eq!(parse_i32("4294967295"), None);
    assert_eq!(parse_i32("99999999999999999999999999"), None);
    assert_eq!(parse_i32("-99999999999999999999999999"), None);
}

#[test]
fn parse_i32_rejects_what_is_no_numeral() {
    for s in ["", "abc", "+", "-", "--5", "+-5", "-+5", "5-", "1 2", " 7", "7 ", "1_000", "1.5",
        "0x10", "7a", "a7", "٣", "７", "1e3", "٣٤"]
    {
        assert_eq!(parse_i32(s), None, "{:?}", s);
    }
}

#[test]
fn parse_i32_matches_std() {
    let samples = [
        "", "0", "-0", "+0", "12", "-12", "+12", "2147483647", "2147483648", "-2147483648",
        "-2147483649", "abc", "1a", "a1", "+", "-", "++1", "1+", "000", "-000", "0000000001",
        "12345678901", " 1", "1 ", "\t1", "१२", "1\u{0}", "9999999999", "-9999999999",
    ];
    for s in samples {
        assert_eq!(parse_i32(s), s.parse::<i32>().ok(), "{:?}", s);
    }
    for n in -300i32..300 {
        assert_eq!(parse_i32(&n.to_string()), Some(n));
        assert_eq!(parse_i32(&format!("{:+}", n)), Some(n));
    }
}

#[test]
fn parse_u32_reads_numerals() {
    assert_eq!(parse_u32("0"), Some(0));
    assert_eq!(parse_u32("5"), Some(5));
    assert_eq!(parse_u32("+5"), Some(5));
    assert_eq!(parse_u32("010"), Some(10));
    assert_eq!(parse_u32("4294967295"), Some(u32::MAX));
    assert_eq!(parse_u32("4294967296"), None);
    assert_eq!(parse_u32("42949672950"), None);
}

#[test]
fn parse_u32_rejects_signs_and_words() {
    for s in ["", "-1", "-0", "+", "-", "abc", "q", "5 ", " 5", "5.0", "++5", "+-5"] {
        assert_eq!(parse_u32(s), None, "{:?}", s);
    }
}

#[test]
fn parse_u32_matches_std() {
    let samples = [
        "", "0", "-0", "+0", "12", "-12", "+12", "4294967295", "4294967296", "abc", "1a", "+",
        "-", "000", "00000000004294967295", "99999999999999999999", " 1", "1 ",
    ];
    for s in samples {
        assert_eq!(parse_u32(s), s.parse::<u32>().ok(), "{:?}", s);
    }
    for n in 0u32..500 {
        assert_eq!(parse_u32(&n.to_string()), Some(n));
    }
}
