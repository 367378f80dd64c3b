use harness::text::{
    decimal_text, excerpt, find_line, hex_text, parse_unsigned, remove_char, same_text,
    text_after_last, trim_end_text, trim_text, CharClass,
};

#[test]
fn decimal_round_trip() {
    for n in [0u64, 7, 10, 99, 1_234_567, u64::MAX] {
        assert_eq!(decimal_text(n), n.to_string());
        assert_eq!(parse_unsigned(&decimal_text(n)), Some(n));
    }
}

#[test]
fn numbers_are_read_as_the_standard_library_reads_them() {
    for text in [
        "", "+", "-", "+5", "-5", "05", "5 ", " 5", "1_0", "٣", "18446744073709551615",
        "18446744073709551616", "99999999999999999999999", "0x1", "++1",
    ] {
        assert_eq!(parse_unsigned(text), text.parse::<u64>().ok(), "{text:?}");
    }
}

#[test]
fn white_space_is_trimmed_as_the_standard_library_trims_it() {
    for text in ["  a b\t\n", "", " \u{3000}x\u{85}", "x", "\u{200b}x", "\u{1680}\u{202f}"] {
        assert_eq!(trim_text(text), text.trim());
        assert_eq!(trim_end_text(text, CharClass::WhiteSpace), text.trim_end());
    }
    assert_eq!(trim_end_text("http://x//", CharClass::Slash), "http://x");
    for c in (0..=0x3100u32).filter_map(char::from_u32) {
        assert_eq!(CharClass::WhiteSpace.contains(c), c.is_whitespace(), "{c:?}");
    }
}

#[test]
fn lines_are_split_as_the_standard_library_splits_them() {
    for text in ["a\r\nb\n\nxc", "x", "", "\n", "\r\nx\r", "yx\r\r\n", "a\nb"] {
        assert_eq!(
            find_line(text, "x").as_deref(),
            text.lines().find(|line| line.contains('x')),
            "{text:?}"
        );
    }
    assert_eq!(find_line("abab", "bab").as_deref(), Some("abab"));
    assert_eq!(find_line("ab", "abc"), None);
    assert_eq!(find_line("", ""), None);
    assert_eq!(find_line("q", "").as_deref(), Some("q"));
}

#[test]
fn parts_of_texts() {
    assert_eq!(text_after_last("a:b: c", ':'), " c");
    assert_eq!(text_after_last("abc", ':'), "abc");
    assert_eq!(text_after_last("abc:", ':'), "");
    assert_eq!(remove_char("1,234,567", ','), "1234567");
    assert!(same_text("S1", "S1"));
    assert!(!same_text("S1", "S10"));
}

#[test]
fn excerpts_end_at_whole_characters() {
    assert_eq!(excerpt("abc", 1000), "abc");
    assert_eq!(excerpt("abc", 2), "ab");
    assert_eq!(excerpt("aµb", 2), "a");
    assert_eq!(excerpt("aµb", 3), "aµ");
    assert_eq!(excerpt("€𝄞", 6), "€");
    assert_eq!(excerpt("€𝄞", 7), "€𝄞");
}

#[test]
fn bytes_in_hexadecimal() {
    assert_eq!(hex_text(&vec![]), "");
    assert_eq!(hex_text(&vec![0, 1, 0x0f, 0x10, 0xab, 0xff]), "00010f10abff");
}
