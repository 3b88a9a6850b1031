use kugou_dsp::text::{
    chars_of, count_matches, dec_string, hex_string, parse_i32, str_eq, strip_chars, trim, CharSet,
};

#[test]
fn dec_string_renders_like_display() {
    for v in [0i64, 7, -7, 10, 512, -128, 2147483647, -2147483648, i64::MAX, i64::MIN] {
        assert_eq!(dec_string(v), format!("{}", v));
    }
}

#[test]
fn hex_string_renders_alternate_lowercase() {
    assert_eq!(hex_string(0), "0x0");
    assert_eq!(hex_string(0x8), "0x8");
    assert_eq!(hex_string(255), "0xff");
    assert_eq!(hex_string(u32::MAX), "0xffffffff");
    for v in [1u32, 16, 1300, 0xDEAD_BEEF] {
        assert_eq!(hex_string(v), format!("{:#x}", v));
    }
}

#[test]
fn parse_i32_matches_std_parse() {
    let cases = [
        "42", "+7", "-0", "0002", "-2147483648", "2147483647", "2147483648", "-2147483649",
        "", "-", "+", "1a", " 1", "1 ", "--1", "+-1", "99999999999999999999", "３",
    ];
    for c in cases {
        assert_eq!(parse_i32(c), c.parse::<i32>().ok(), "input {:?}", c);
    }
}

#[test]
fn parse_i32_exact_values() {
    assert_eq!(parse_i32("3"), Some(3));
    assert_eq!(parse_i32("-1"), Some(-1));
    assert_eq!(parse_i32("abc"), None);
}

#[test]
fn trim_matches_std_trim() {
    let cases = [
        "  {abc}  ", "\t\n x \r", "", "   ", "\u{3000}中\u{2009}", "\u{85}a\u{a0}", "no-space",
        "\u{200b}zero-width\u{200b}",
    ];
    for c in cases {
        assert_eq!(trim(c), c.trim(), "input {:?}", c);
    }
}

#[test]
fn strip_chars_matches_std_trim_matches() {
    let c = "{{b5287108-53c1}}";
    assert_eq!(strip_chars(c, CharSet::OpenBrace, true, false), c.trim_start_matches('{'));
    assert_eq!(strip_chars(c, CharSet::CloseBrace, false, true), c.trim_end_matches('}'));
    assert_eq!(
        strip_chars("}{x}{", CharSet::Braces, true, true),
        "}{x}{".trim_matches(|ch| ch == '{' || ch == '}')
    );
    assert_eq!(strip_chars("{}", CharSet::Braces, true, true), "");
    assert_eq!(strip_chars(" a ", CharSet::WhiteSpace, false, false), " a ");
}

#[test]
fn count_and_chars() {
    assert_eq!(count_matches("b5287108-53c1-41d2-aa81-4955c333e08b", '-'), 4);
    assert_eq!(count_matches("", '-'), 0);
    assert_eq!(chars_of("酷狗a"), vec!['酷', '狗', 'a']);
    assert!(str_eq("abc", "abc"));
    assert!(!str_eq("abc", "abd"));
}
