use updateio::text::number::{
    bool_to_chars, i64_to_chars, parse_bool, parse_i64, parse_u32, parse_u64, parse_usize,
    u64_to_chars,
};
use updateio::text::split::{nth_field, split_lines, split_words};
use updateio::text::{
    chars_of, contains_chars, find_char, has_prefix, is_whitespace, matches_at, owned, same_chars,
    skip_spaces, skip_word, slice_chars, str_eq, string_of, trim_chars,
};

fn chars(s: &str) -> Vec<char> {
    s.chars().collect()
}

fn strings(parts: Vec<Vec<char>>) -> Vec<String> {
    parts.iter().map(|p| p.iter().collect()).collect()
}

#[test]
fn chars_and_strings_convert_both_ways() {
    assert_eq!(chars_of("héllo\n"), chars("héllo\n"));
    assert_eq!(chars_of(""), Vec::<char>::new());
    assert_eq!(string_of(&chars("a→b")), "a→b");
    assert_eq!(string_of(&Vec::new()), "");
    assert_eq!(owned("xyz"), "xyz");
}

#[test]
fn white_space_is_what_unicode_says() {
    let mut n: u32 = 0;
    while n <= 0x3100 {
        if let Some(c) = char::from_u32(n) {
            assert_eq!(is_whitespace(c), c.is_whitespace());
        }
        n += 1;
    }
    assert!(!is_whitespace('\u{10FFFF}'));
    assert!(!is_whitespace('\u{200B}'));
}

#[test]
fn contains_finds_a_pattern_anywhere() {
    assert!(contains_chars(&chars("hello world"), &chars("o w")));
    assert!(contains_chars(&chars("hello"), &chars("hello")));
    assert!(contains_chars(&chars("hello"), &chars("")));
    assert!(contains_chars(&chars(""), &chars("")));
    assert!(contains_chars(&chars("aab"), &chars("ab")));
    assert!(contains_chars(&chars("xxabc"), &chars("abc")));
    assert!(!contains_chars(&chars("hello"), &chars("hellp")));
    assert!(!contains_chars(&chars("hell"), &chars("hello")));
    assert!(!contains_chars(&chars(""), &chars("a")));
}

#[test]
fn matches_at_and_prefix() {
    assert!(matches_at(&chars("abcd"), &chars("cd"), 2));
    assert!(!matches_at(&chars("abcd"), &chars("cd"), 3));
    assert!(!matches_at(&chars("abcd"), &chars("cd"), 100));
    assert!(matches_at(&chars("abcd"), &chars(""), 4));
    assert!(!matches_at(&chars("abcd"), &chars(""), 5));
    assert!(has_prefix(&chars("AppID: 5"), &chars("AppID")));
    assert!(!has_prefix(&chars(" AppID: 5"), &chars("AppID")));
    assert!(!has_prefix(&chars("App"), &chars("AppID")));
    assert!(has_prefix(&chars(""), &chars("")));
}

#[test]
fn same_chars_and_str_eq() {
    assert!(same_chars(&chars("abc"), &chars("abc")));
    assert!(!same_chars(&chars("abc"), &chars("abd")));
    assert!(!same_chars(&chars("abc"), &chars("ab")));
    assert!(str_eq("", ""));
    assert!(str_eq("daily", "daily"));
    assert!(!str_eq("daily", "Daily"));
}

#[test]
fn slices_and_scans() {
    assert_eq!(slice_chars(&chars("abcdef"), 2, 4), chars("cd"));
    assert_eq!(slice_chars(&chars("abcdef"), 3, 3), chars(""));
    assert_eq!(find_char(&chars("a:b:c"), 0, ':'), 1);
    assert_eq!(find_char(&chars("a:b:c"), 2, ':'), 3);
    assert_eq!(find_char(&chars("a:b:c"), 4, ':'), 5);
    assert_eq!(find_char(&chars("a:b:c"), 5, ':'), 5);
    assert_eq!(skip_spaces(&chars("  \t x "), 0), 4);
    assert_eq!(skip_spaces(&chars("x"), 0), 0);
    assert_eq!(skip_spaces(&chars("   "), 1), 3);
    assert_eq!(skip_word(&chars("abc def"), 0), 3);
    assert_eq!(skip_word(&chars("abc def"), 3), 3);
    assert_eq!(skip_word(&chars("abc def"), 4), 7);
}

#[test]
fn trim_removes_white_space_at_both_ends() {
    for text in ["  a b \t\r\n", "", "   ", "x", " x", "x ", "\u{3000}é\u{a0}", "a\u{200B} "] {
        assert_eq!(string_of(&trim_chars(&chars(text))), text.trim());
    }
}

#[test]
fn lines_are_split_as_the_standard_library_does() {
    for text in [
        "", "a", "a\n", "a\nb", "a\r\nb\r\n", "\n", "\n\n", "a\r", "a\r\n", "\r\n", "a\n\nb",
        "a\rb\n", "a\r\r\n", "x\n\r", "\r",
    ] {
        let expected: Vec<String> = text.lines().map(|l| l.to_string()).collect();
        assert_eq!(strings(split_lines(&chars(text))), expected);
    }
}

#[test]
fn words_are_split_as_the_standard_library_does() {
    for text in ["", " ", "a", " a ", "a b", "  a\t\tb\nc  ", "Update: 512/1024 ...", "a\u{3000}b"] {
        let expected: Vec<String> = text.split_whitespace().map(|w| w.to_string()).collect();
        assert_eq!(strings(split_words(&chars(text))), expected);
    }
}

#[test]
fn fields_are_split_as_the_standard_library_does() {
    for text in ["", "a", "a:b", "a:b:c", ":", "::", "a:", ":a", "a::b", "x:y:z:w"] {
        let mut n: usize = 0;
        while n < 5 {
            let expected = text.split(':').nth(n).map(|f| f.to_string());
            let found = nth_field(&chars(text), ':', n).map(|f| string_of(&f));
            assert_eq!(found, expected);
            n += 1;
        }
    }
    assert_eq!(nth_field(&chars("\"path\"\t\"/lib\""), '"', 3).map(|f| string_of(&f)), Some("/lib".to_string()));
}

#[test]
fn unsigned_numbers_are_read_as_the_standard_library_does() {
    for text in [
        "", "0", "7", "007", "+7", "+", "-", "-7", "+-7", "7a", "a7", " 7", "7 ",
        "4294967295", "4294967296", "18446744073709551615", "18446744073709551616",
        "99999999999999999999999", "1_000", "٣", "++1",
    ] {
        assert_eq!(parse_u64(&chars(text)), text.parse::<u64>().ok());
        assert_eq!(parse_u32(&chars(text)), text.parse::<u32>().ok());
        assert_eq!(parse_usize(&chars(text)), text.parse::<usize>().ok());
    }
}

#[test]
fn signed_numbers_are_read_as_the_standard_library_does() {
    for text in [
        "", "0", "-0", "+0", "7", "-7", "+7", "-", "+", "--7", "-+7", "7-",
        "9223372036854775807", "9223372036854775808", "-9223372036854775808",
        "-9223372036854775809", "18446744073709551616", "-18446744073709551616", "30", " 30",
    ] {
        assert_eq!(parse_i64(&chars(text)), text.parse::<i64>().ok());
    }
}

#[test]
fn truth_values_are_read_as_the_standard_library_does() {
    for text in ["true", "false", "", "True", "FALSE", "true ", "tru", "falsee", "1", "0"] {
        assert_eq!(parse_bool(&chars(text)), text.parse::<bool>().ok());
    }
}

#[test]
fn numbers_are_written_as_the_standard_library_does() {
    for n in [0u64, 1, 9, 10, 11, 99, 100, 12345, 4294967295, u64::MAX] {
        assert_eq!(string_of(&u64_to_chars(n)), n.to_string());
    }
    for n in [0i64, 1, -1, 9, -9, 10, -10, 30, 1000, i64::MAX, i64::MIN, i64::MIN + 1] {
        assert_eq!(string_of(&i64_to_chars(n)), n.to_string());
    }
    assert_eq!(string_of(&bool_to_chars(true)), "true");
    assert_eq!(string_of(&bool_to_chars(false)), "false");
}

#[test]
fn written_numbers_are_read_back() {
    for n in [0u64, 5, 10, 1000, u64::MAX] {
        assert_eq!(parse_u64(&u64_to_chars(n)), Some(n));
    }
    for n in [0i64, -5, 10, i64::MIN, i64::MAX] {
        assert_eq!(parse_i64(&i64_to_chars(n)), Some(n));
    }
    assert_eq!(parse_bool(&bool_to_chars(true)), Some(true));
    assert_eq!(parse_bool(&bool_to_chars(false)), Some(false));
}
