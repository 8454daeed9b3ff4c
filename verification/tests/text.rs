use ostep::text::{parse_i32, parse_usize, show, show_i32, split_words, trim, trim_dots_and_slashes, NumberError};

#[test]
fn trim_takes_white_space_away_at_both_ends() {
    assert_eq!(trim(" 0\n"), "0");
    assert_eq!(trim("\t\r\n 12 3 \x0b\x0c"), "12 3");
    assert_eq!(trim("\u{2003}a\u{a0}"), "a");
    assert_eq!(trim("   "), "");
    assert_eq!(trim(""), "");
    assert_eq!(trim("a"), "a");
}

#[test]
fn trim_knows_all_white_space() {
    for c in '\0'..=char::MAX {
        let u = c as u32;
        let white = (0x09..=0x0d).contains(&u)
            || u == 0x20
            || u == 0x85
            || u == 0xa0
            || u == 0x1680
            || (0x2000..=0x200a).contains(&u)
            || u == 0x2028
            || u == 0x2029
            || u == 0x202f
            || u == 0x205f
            || u == 0x3000;
        assert_eq!(c.is_whitespace(), white, "{u:#x}");
        if u < 0x4000 {
            assert_eq!(trim(&c.to_string()).is_empty(), white);
        }
    }
}

#[test]
fn trim_agrees_with_the_standard_library() {
    for s in ["", " ", "x", " x", "x ", "\n\nx y\n", "\u{3000}x\u{3000}", "\u{200b}x"] {
        assert_eq!(trim(s), s.trim());
    }
}

#[test]
fn words_are_split_at_ascii_white_space() {
    assert_eq!(split_words("./wcat tests/1.in  a\tb\n"), ["./wcat", "tests/1.in", "a", "b"]);
    assert!(split_words("").is_empty());
    assert!(split_words(" \t\r\n\x0c").is_empty());
    assert_eq!(split_words("one"), ["one"]);
    assert_eq!(split_words("a\x0bb\u{a0}c"), ["a\x0bb\u{a0}c"]);
}

#[test]
fn words_agree_with_the_standard_library() {
    for s in ["", "a", " a", "a ", "  a  b ", "a\nb\rc\td\x0ce", "ä ö\u{2003}ü"] {
        let expected: Vec<&str> = s.split_ascii_whitespace().collect();
        assert_eq!(split_words(s), expected);
    }
}

#[test]
fn dots_and_slashes_are_taken_away_in_front_only() {
    assert_eq!(trim_dots_and_slashes("./wcat"), "wcat");
    assert_eq!(trim_dots_and_slashes("../../a/b"), "a/b");
    assert_eq!(trim_dots_and_slashes("./"), "");
    assert_eq!(trim_dots_and_slashes("wcat./"), "wcat./");
    for s in ["", ".", "a", "/a", ".a.", "//..//x"] {
        assert_eq!(trim_dots_and_slashes(s), s.trim_start_matches(['.', '/']));
    }
}

#[test]
fn usize_is_read_as_the_standard_library_does() {
    assert_eq!(parse_usize("12"), Ok(12));
    assert_eq!(parse_usize("+7"), Ok(7));
    assert_eq!(parse_usize("007"), Ok(7));
    assert_eq!(parse_usize("18446744073709551615"), Ok(usize::MAX));
    assert_eq!(parse_usize("18446744073709551616"), Err(NumberError::PosOverflow));
    assert_eq!(parse_usize(""), Err(NumberError::Empty));
    assert_eq!(parse_usize("1a"), Err(NumberError::InvalidDigit));
    for s in [
        "", "+", "-", "-1", "-0", "1 ", " 1", "1a", "++1", "+-1", "٣", "0", "1_0", "0000000000000000000000001",
        "18446744073709551616", "99999999999999999999999999", "99999999999999999999999999x", "9999999999999999999x9",
        "1844674407370955161x", "18446744073709551616x", "18446744073709551620", "+18446744073709551616",
    ] {
        let expected = s.parse::<usize>().map_err(|err| err.to_string());
        assert_eq!(parse_usize(s).map_err(|err| err.message().to_owned()), expected, "{s:?}");
    }
}

#[test]
fn i32_is_read_as_the_standard_library_does() {
    assert_eq!(parse_i32("0"), Ok(0));
    assert_eq!(parse_i32("-1"), Ok(-1));
    assert_eq!(parse_i32("+255"), Ok(255));
    assert_eq!(parse_i32("2147483647"), Ok(i32::MAX));
    assert_eq!(parse_i32("2147483648"), Err(NumberError::PosOverflow));
    assert_eq!(parse_i32("-2147483648"), Ok(i32::MIN));
    assert_eq!(parse_i32("-2147483649"), Err(NumberError::NegOverflow));
    for s in [
        "", "+", "-", "-0", "--1", "-+1", "1-", "0x1", "99999999999999999999", "-99999999999999999999", "2147483648",
        "-2147483649", "-2147483648", "2147483650", "21474836470", "2147483648x", "214748364x", "-x", "-99999999999x", "ä",
    ] {
        let expected = s.parse::<i32>().map_err(|err| err.to_string());
        assert_eq!(parse_i32(s).map_err(|err| err.message().to_owned()), expected, "{s:?}");
    }
}

#[test]
fn numbers_are_written_as_the_standard_library_does() {
    for n in [0, 7, 9, 10, 99, 100, 1_000_000_007, u64::MAX - 5, u64::MAX] {
        assert_eq!(show(n), n.to_string());
    }
    for n in [0, 1, -1, 10, -10, 255, i32::MAX, i32::MIN] {
        assert_eq!(show_i32(n), n.to_string());
        assert_eq!(parse_i32(&show_i32(n)), Ok(n));
    }
    assert_eq!(parse_usize(&show(u64::MAX)), Ok(usize::MAX));
}
