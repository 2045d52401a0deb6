use cdp_telemetry::text::{
    char_is_space, chars_of, copy_range, has_infix, has_prefix_at, join_texts, parse_u32_of,
    push_decimal, split_at_char, string_of, strip_all_of, trimmed, words_of,
};

fn chars(s: &str) -> Vec<char> {
    s.chars().collect()
}

fn texts(pieces: Vec<Vec<char>>) -> Vec<String> {
    pieces.into_iter().map(|p| p.into_iter().collect()).collect()
}

fn decimal(n: u128) -> String {
    let mut out = String::new();
    push_decimal(&mut out, n);
    out
}

#[test]
fn chars_and_strings_round_trip() {
    assert_eq!(chars_of("héllo"), vec!['h', 'é', 'l', 'l', 'o']);
    assert_eq!(chars_of(""), Vec::<char>::new());
    assert_eq!(string_of(&chars("héllo")), "héllo");
    assert_eq!(copy_range(&chars("abcdef"), 2, 4), chars("cd"));
    assert_eq!(copy_range(&chars("abcdef"), 3, 3), chars(""));
}

#[test]
fn decimal_writes_every_digit() {
    assert_eq!(decimal(0), "0");
    assert_eq!(decimal(7), "7");
    assert_eq!(decimal(10), "10");
    assert_eq!(decimal(1234567890), "1234567890");
    assert_eq!(decimal(u64::MAX as u128), u64::MAX.to_string());
    assert_eq!(decimal(u128::MAX), u128::MAX.to_string());
    let mut out = "n=".to_string();
    push_decimal(&mut out, 42);
    assert_eq!(out, "n=42");
}

#[test]
fn white_space_is_what_the_standard_library_says() {
    let mut code = 0u32;
    while code <= 0x3100 {
        if let Some(c) = char::from_u32(code) {
            assert_eq!(char_is_space(c), c.is_whitespace(), "U+{:04X}", code);
        }
        code += 1;
    }
    assert!(!char_is_space('a'));
    assert!(char_is_space('\u{3000}'));
}

#[test]
fn split_keeps_empty_pieces() {
    assert_eq!(texts(split_at_char(&chars("a,b,,c"), ',')), vec!["a", "b", "", "c"]);
    assert_eq!(texts(split_at_char(&chars(""), ',')), vec![""]);
    assert_eq!(texts(split_at_char(&chars(","), ',')), vec!["", ""]);
    assert_eq!(texts(split_at_char(&chars("one\ntwo\n"), '\n')), vec!["one", "two", ""]);
    assert_eq!(texts(split_at_char(&chars("abc"), '_')), vec!["abc"]);
}

#[test]
fn words_are_what_split_whitespace_gives() {
    for sample in [
        "",
        "   ",
        "one",
        "  one  two\tthree\r\n",
        "a\u{00A0}b\u{2003}c",
        "emulator-5554 device product:sdk model:Pixel_7 device:emu",
    ] {
        let expected: Vec<String> = sample.split_whitespace().map(|w| w.to_string()).collect();
        assert_eq!(texts(words_of(&chars(sample))), expected, "{:?}", sample);
    }
}

#[test]
fn trimming_is_what_trim_gives() {
    for sample in ["", "  ", "x", "  x y \n", "\tcom.example.app\r\n", "a  "] {
        assert_eq!(string_of(&trimmed(&chars(sample))), sample.trim(), "{:?}", sample);
    }
}

#[test]
fn prefixes_and_infixes() {
    let text = chars("model:model:Pixel");
    let prefix = chars("model:");
    assert!(has_prefix_at(&text, 0, &prefix));
    assert!(has_prefix_at(&text, 6, &prefix));
    assert!(!has_prefix_at(&text, 1, &prefix));
    assert!(!has_prefix_at(&text, 14, &prefix));
    assert!(has_prefix_at(&text, 17, &chars("")));
    assert_eq!(string_of(&strip_all_of(&text, &prefix)), "Pixel");
    assert_eq!(string_of(&strip_all_of(&chars("@@sock"), &chars("@"))), "sock");
    assert_eq!(string_of(&strip_all_of(&chars("sock"), &chars("@"))), "sock");
    assert_eq!(string_of(&strip_all_of(&chars("sock"), &chars(""))), "sock");
    assert!(has_infix(&chars("xx chrome_devtools_remote"), &chars("chrome_devtools_remote")));
    assert!(has_infix(&chars("abc"), &chars("")));
    assert!(has_infix(&chars(""), &chars("")));
    assert!(!has_infix(&chars("abc"), &chars("abcd")));
    assert!(!has_infix(&chars("abcabd"), &chars("abe")));
    assert!(has_infix(&chars("abcabd"), &chars("abd")));
}

#[test]
fn numbers_are_parsed_as_the_standard_library_does() {
    for sample in [
        "", "+", "-", "0", "007", "+12", "-1", "12a", " 12", "12 ", "4294967295", "4294967296",
        "99999999999999999999999", "１２", "1_000", "++1",
    ] {
        assert_eq!(parse_u32_of(&chars(sample)), sample.parse::<u32>().ok(), "{:?}", sample);
    }
}

#[test]
fn joining_puts_the_separator_between() {
    let parts = vec!["a".to_string(), "b".to_string(), "c".to_string()];
    assert_eq!(join_texts(&parts, " AND "), "a AND b AND c");
    assert_eq!(join_texts(&vec!["solo".to_string()], ", "), "solo");
    assert_eq!(join_texts(&vec![], ", "), "");
}
