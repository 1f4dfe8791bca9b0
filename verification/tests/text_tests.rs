use blaze_rs::base::device::{has_f16, has_f64};
use blaze_rs::base::text::{parse_u32, split_bytes, IntErrorKind};
use blaze_rs::base::words::{chars_of, has_word, is_whitespace, split_trimmed, split_whitespace};

#[test]
fn bytes_split_like_str_split() {
    let parts = split_bytes(b"a..b.", b'.');
    assert_eq!(parts, vec![b"a".to_vec(), vec![], b"b".to_vec(), vec![]]);
    assert_eq!(split_bytes(b"", b'.'), vec![Vec::<u8>::new()]);
}

#[test]
fn numbers_like_u32_from_str() {
    assert_eq!(parse_u32(b"0"), Ok(0));
    assert_eq!(parse_u32(b"+42"), Ok(42));
    assert_eq!(parse_u32(b"4294967295"), Ok(u32::MAX));
    assert_eq!(parse_u32(b""), Err(IntErrorKind::Empty));
    assert_eq!(parse_u32(b"+"), Err(IntErrorKind::InvalidDigit));
    assert_eq!(parse_u32(b"-1"), Err(IntErrorKind::InvalidDigit));
    assert_eq!(parse_u32(b"12a"), Err(IntErrorKind::InvalidDigit));
    assert_eq!(parse_u32(b"4294967296"), Err(IntErrorKind::PosOverflow));
    for s in ["7", "+9", "x", "", "99999999999", "-"] {
        assert_eq!(parse_u32(s.as_bytes()).ok(), s.parse::<u32>().ok());
    }
}

#[test]
fn whitespace_like_char_is_whitespace() {
    for c in [' ', '\t', '\n', '\r', '\u{b}', '\u{c}', '\u{85}', '\u{a0}', '\u{1680}', '\u{2000}', '\u{200a}',
        '\u{2028}', '\u{2029}', '\u{202f}', '\u{205f}', '\u{3000}', 'a', '_', '\u{200b}', '\u{feff}', '0'] {
        assert_eq!(is_whitespace(c), c.is_whitespace(), "{:?}", c);
    }
}

#[test]
fn words_like_split_whitespace() {
    for s in ["cl_khr_fp16 cl_khr_fp64", "  lead\ttrail  ", "", "   ", "one", "a\u{a0}b\u{3000}c", "x  y"] {
        let expected: Vec<String> = s.split_whitespace().map(String::from).collect();
        assert_eq!(split_whitespace(s), expected);
    }
    assert_eq!(chars_of("añb"), vec!['a', 'ñ', 'b']);
}

#[test]
fn words_are_found_whole() {
    assert!(has_word("cl_khr_fp16 cl_khr_fp64", "cl_khr_fp64"));
    assert!(!has_word("cl_khr_fp16x cl_khr_fp64", "cl_khr_fp16"));
    assert!(!has_word("", "a"));
    assert!(has_f16("cl_khr_icd cl_khr_fp16 "));
    assert!(!has_f16("cl_khr_fp64"));
    assert!(has_f64("cl_khr_fp64\ncl_khr_icd"));
    assert!(!has_f64("cl_khr_fp64_extra"));
}

#[test]
fn lists_like_split_and_trim() {
    for s in ["a; b ;c", "", ";", " k1 ;; k2 ", "single", "  \u{a0}x\u{3000};"] {
        let expected: Vec<String> = s.split(';').map(str::trim).map(String::from).collect();
        assert_eq!(split_trimmed(s, ';'), expected);
    }
}
