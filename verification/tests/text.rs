use profiler_core::csv::{csv_escape, parse_csv_line};
use profiler_core::number::{
    check_float, decimal_text, parse_i32, parse_u16, parse_u32, parse_u64, signed_text,
};
use profiler_core::text::{
    contains_text, ends_with, is_blank, join, lines, replace_char, rsplit_before,
    split, starts_with, trim, words,
};
use profiler_core::wide::{from_wide, from_wide_list, to_wide, to_wide_unless_empty};

#[test]
fn trims_both_ends() {
    assert_eq!(trim(" \t a b \u{3000}\n"), "a b");
    assert_eq!(trim("  "), "");
    assert!(is_blank(" \u{a0}"));
    assert!(!is_blank(" x "));
}

#[test]
fn texts_are_taken_apart() {
    assert_eq!(split("a,,b", ','), vec!["a", "", "b"]);
    assert_eq!(lines("a\r\nb\n\nc"), vec!["a", "b", "", "c"]);
    assert_eq!(lines("a\n"), vec!["a"]);
    assert_eq!(lines("").len(), 0);
    assert_eq!(words("  a \t b\nc "), vec!["a", "b", "c"]);
    assert_eq!(rsplit_before("/a/b/c", '/'), Some("/a/b".to_string()));
    assert_eq!(rsplit_before("abc", '/'), None);
}

#[test]
fn texts_are_put_together() {
    assert_eq!(join(&vec!["a".to_string(), "b".to_string()], ", "), "a, b");
    assert_eq!(join(&vec![], ","), "");
    assert_eq!(replace_char("a_b_c", '_', " "), "a b c");
}

#[test]
fn texts_are_searched() {
    assert!(contains_text("abcabd", "abd"));
    assert!(!contains_text("ab", "abc"));
    assert!(contains_text("", ""));
    assert!(starts_with("abc", "ab"));
    assert!(!starts_with("a", "ab"));
    assert!(ends_with("abc", "bc"));
}

#[test]
fn numbers_read_back() {
    for n in [0u64, 7, 10, 65535, u64::MAX] {
        assert_eq!(parse_u64(&decimal_text(n)).ok(), Some(n));
    }
    assert_eq!(signed_text(i64::MIN), "-9223372036854775808");
    assert_eq!(parse_i32("-2147483648").ok(), Some(i32::MIN));
    assert_eq!(parse_u32("+7").ok(), Some(7));
}

#[test]
fn numbers_that_cannot_be_read_say_why() {
    assert_eq!(parse_u64("").err().unwrap().message(), "cannot parse integer from empty string");
    assert_eq!(parse_u64("-1").err().unwrap().message(), "invalid digit found in string");
    assert_eq!(
        parse_u16("65536").err().unwrap().message(),
        "number too large to fit in target type"
    );
    assert_eq!(
        parse_i32("-2147483649").err().unwrap().message(),
        "number too small to fit in target type"
    );
    assert_eq!(
        check_float("").err().unwrap().message(),
        "cannot parse float from empty string"
    );
    assert_eq!(check_float("1.2.3").err().unwrap().message(), "invalid float literal");
}

#[test]
fn literals_are_what_the_language_reads() {
    for s in ["1", "-1.5", ".5", "5.", "1e9", "+1.25E-3", "inf", "-Infinity", "NaN", "0.000"] {
        assert!(check_float(s).is_ok(), "{s}");
        assert!(s.parse::<f64>().is_ok(), "{s}");
    }
    for s in [" 1", "1 ", "e5", ".", "1e", "1,5", "0x10", "infin"] {
        assert!(check_float(s).is_err(), "{s}");
        assert!(s.parse::<f64>().is_err(), "{s}");
    }
}

#[test]
fn fields_read_back() {
    assert_eq!(csv_escape("plain"), "plain");
    assert_eq!(csv_escape("a,b"), "\"a,b\"");
    assert_eq!(csv_escape("a\"b"), "\"a\"\"b\"");
    for field in ["", "a", "a,b", "\"", "\"\"", ",", "x\"y,z"] {
        let line = format!("{},{}", csv_escape(field), csv_escape("end"));
        assert_eq!(parse_csv_line(&line), vec![field, "end"]);
    }
}

#[test]
fn wide_texts_read_back() {
    for s in ["", "abc", "caf\u{e9}", "\u{10348}x", "\u{ffff}"] {
        let w = to_wide(s);
        assert_eq!(w.last(), Some(&0));
        assert_eq!(from_wide(Some(&w)), s);
    }
    assert_eq!(to_wide("a\u{10348}"), vec![0x61, 0xd800, 0xdf48, 0]);
}

#[test]
fn zeros_end_wide_texts() {
    assert_eq!(to_wide("abc\0"), vec![0x61, 0x62, 0x63, 0]);
    assert_eq!(to_wide("a\0b"), vec![0]);
    assert_eq!(from_wide(Some(&vec![0x61, 0, 0x62, 0])), "a");
    assert_eq!(from_wide(Some(&vec![0x61, 0x62])), "ab");
    assert_eq!(from_wide(None), "");
}

#[test]
fn lone_surrogates_are_replaced() {
    assert_eq!(from_wide(Some(&vec![0xd800, 0x61, 0])), "\u{fffd}a");
    assert_eq!(from_wide(Some(&vec![0xdc00, 0xd800, 0])), "\u{fffd}\u{fffd}");
    assert_eq!(from_wide(Some(&vec![0xd800, 0xd800, 0xdf48, 0])), "\u{fffd}\u{10348}");
}

#[test]
fn empty_wide_texts_can_be_left_out() {
    assert_eq!(to_wide_unless_empty(""), None);
    assert_eq!(to_wide_unless_empty("x"), Some(vec![0x78, 0]));
    let list = vec![Some(to_wide("a")), None, Some(to_wide("")), Some(to_wide("b"))];
    assert_eq!(from_wide_list(Some(&list)), vec!["a", "b"]);
    assert_eq!(from_wide_list(None).len(), 0);
}
