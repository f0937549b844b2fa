use justaskrepo::text::{
    char_is_whitespace, i64_to_decimal, is_blank_str, split_str, starts_with, trim_end_matches,
    trim_str, u64_to_decimal,
};

#[test]
fn trimming_matches_the_standard_library() {
    for sample in ["", "  ", " a b ", "\u{3000}x\u{85}", "\t\n\r", "x", "\u{200b}y"] {
        assert_eq!(trim_str(sample), sample.trim(), "{sample:?}");
        assert_eq!(is_blank_str(sample), sample.trim().is_empty(), "{sample:?}");
    }
    for c in ['\u{0}', ' ', '\u{a0}', '\u{1680}', '\u{2007}', '\u{200b}', 'a', '\u{feff}'] {
        assert_eq!(char_is_whitespace(c), c.is_whitespace(), "{c:?}");
    }
}

#[test]
fn splitting_matches_the_standard_library() {
    for sample in ["", ",", "a", "a,b", ",a,,b,", "é,ü"] {
        let expected: Vec<String> = sample.split(',').map(str::to_owned).collect();
        assert_eq!(split_str(sample, ','), expected, "{sample:?}");
    }
}

#[test]
fn prefixes_and_trailing_characters() {
    assert!(starts_with("https://x", "https://"));
    assert!(!starts_with("http", "https://"));
    assert!(starts_with("abc", ""));
    assert_eq!(trim_end_matches("a///", '/'), "a");
    assert_eq!(trim_end_matches("///", '/'), "");
}

#[test]
fn numerals_match_the_standard_library() {
    for n in [0u64, 7, 10, 99, 100, 1_234_567, u64::MAX] {
        assert_eq!(u64_to_decimal(n), n.to_string());
    }
    for n in [0i64, -1, 42, -42, i64::MIN, i64::MAX] {
        assert_eq!(i64_to_decimal(n), n.to_string());
    }
}
