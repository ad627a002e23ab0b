use printers::shared::decimal::{i32_text, i64_text, parse_i64, u32_text, u64_text};
use printers::shared::narrow::{
    bytes_spell, same_bytes, same_text, text_of_bytes, text_of_field, to_narrow,
};
use printers::shared::trim::{chars_of, stripped_bounds};

fn parse(text: &str) -> Option<i64> {
    let chars: Vec<char> = text.chars().collect();
    parse_i64(&chars, 0, chars.len())
}

#[test]
fn unsigned_text_of_edges() {
    assert_eq!(u64_text(0), "0");
    assert_eq!(u64_text(7), "7");
    assert_eq!(u64_text(10), "10");
    assert_eq!(u64_text(1700000000000), "1700000000000");
    assert_eq!(u64_text(u64::MAX), "18446744073709551615");
    assert_eq!(u32_text(0), "0");
    assert_eq!(u32_text(4096), "4096");
    assert_eq!(u32_text(u32::MAX), "4294967295");
}

#[test]
fn signed_text_of_edges() {
    assert_eq!(i64_text(0), "0");
    assert_eq!(i64_text(-1), "-1");
    assert_eq!(i64_text(42), "42");
    assert_eq!(i64_text(i64::MAX), "9223372036854775807");
    assert_eq!(i64_text(i64::MIN), "-9223372036854775808");
    assert_eq!(i32_text(i32::MIN), "-2147483648");
    assert_eq!(i32_text(i32::MAX), "2147483647");
    assert_eq!(i32_text(-100), "-100");
}

#[test]
fn decimal_text_agrees_with_the_standard_library() {
    let mut value: i64 = 1;
    for step in 0..60 {
        assert_eq!(i64_text(value), value.to_string());
        assert_eq!(i64_text(-value), (-value).to_string());
        assert_eq!(u64_text(value as u64), value.to_string());
        value = value * 2 + step % 3;
    }
}

#[test]
fn parse_accepts_signed_decimals() {
    assert_eq!(parse("0"), Some(0));
    assert_eq!(parse("1700000000000"), Some(1700000000000));
    assert_eq!(parse("+5"), Some(5));
    assert_eq!(parse("-5"), Some(-5));
    assert_eq!(parse("-0"), Some(0));
    assert_eq!(parse("007"), Some(7));
    assert_eq!(parse("9223372036854775807"), Some(i64::MAX));
    assert_eq!(parse("-9223372036854775808"), Some(i64::MIN));
}

#[test]
fn parse_rejects_what_is_no_integer() {
    for text in ["", "+", "-", " 1", "1 ", "1.5", "1e3", "--1", "+-1", "12a", "a12", "١٢"] {
        assert_eq!(parse(text), None);
    }
}

#[test]
fn parse_rejects_what_does_not_fit() {
    assert_eq!(parse("9223372036854775808"), None);
    assert_eq!(parse("-9223372036854775809"), None);
    assert_eq!(parse("99999999999999999999999999"), None);
    assert_eq!(parse("18446744073709551616"), None);
}

#[test]
fn parse_reads_a_part_of_the_characters() {
    let chars: Vec<char> = "ab-12cd".chars().collect();
    assert_eq!(parse_i64(&chars, 2, 5), Some(-12));
    assert_eq!(parse_i64(&chars, 3, 5), Some(12));
    assert_eq!(parse_i64(&chars, 3, 3), None);
    assert_eq!(parse_i64(&chars, 2, 6), None);
}

#[test]
fn parse_agrees_with_the_standard_library() {
    for text in ["0", "-1", "+17", "0000", "123456789012345678", "-", "x", "9223372036854775808"] {
        assert_eq!(parse(text), text.parse::<i64>().ok());
    }
}

#[test]
fn parse_reads_back_decimal_text() {
    for value in [0i64, 1, -1, 99, -100, 1700000000000, i64::MAX, i64::MIN] {
        assert_eq!(parse(&i64_text(value)), Some(value));
    }
}

#[test]
fn characters_of_a_text() {
    assert_eq!(chars_of(""), Vec::<char>::new());
    assert_eq!(chars_of("aé𝄞"), vec!['a', 'é', '𝄞']);
}

#[test]
fn stripping_takes_every_copy_at_both_ends() {
    let prefix: Vec<char> = "/Date(".chars().collect();
    let suffix: Vec<char> = ")/".chars().collect();
    let bounds = |text: &str| {
        let chars: Vec<char> = text.chars().collect();
        let (start, end) = stripped_bounds(&chars, &prefix, &suffix);
        chars[start..end].iter().collect::<String>()
    };
    assert_eq!(bounds("/Date(12)/"), "12");
    assert_eq!(bounds("/Date(/Date(12)/)/"), "12");
    assert_eq!(bounds("12"), "12");
    assert_eq!(bounds("/Date()/"), "");
    assert_eq!(bounds("/Date("), "");
    assert_eq!(bounds(")/"), "");
    assert_eq!(bounds("x/Date(12)/"), "x/Date(12");
    assert_eq!(bounds("/Date(12)/x"), "12)/x");
    assert_eq!(bounds("/Date(/"), "/");
    assert_eq!(bounds(""), "");
}

#[test]
fn stripping_agrees_with_the_standard_library() {
    let prefix: Vec<char> = "/Date(".chars().collect();
    let suffix: Vec<char> = ")/".chars().collect();
    for text in ["/Date(1)/", "/Date(/Date()/)/)/", "/Date", ")/)/)/", "/Date()/Date("] {
        let chars: Vec<char> = text.chars().collect();
        let (start, end) = stripped_bounds(&chars, &prefix, &suffix);
        let ours: String = chars[start..end].iter().collect();
        assert_eq!(ours, text.trim_start_matches("/Date(").trim_end_matches(")/"));
    }
}

#[test]
fn narrow_text_of_well_formed_bytes() {
    assert_eq!(text_of_bytes(b"HP LaserJet"), "HP LaserJet");
    assert_eq!(text_of_bytes("Büro 𝄞".as_bytes()), "Büro 𝄞");
    assert_eq!(text_of_bytes(b""), "");
    assert_eq!(text_of_field(&Some("Büro".as_bytes().to_vec())), "Büro");
}

#[test]
fn narrow_text_of_malformed_bytes_is_empty() {
    assert_eq!(text_of_bytes(&[0x48, 0xFF, 0x50]), "");
    assert_eq!(text_of_bytes(&[0xC3]), "");
    assert_eq!(text_of_bytes(&[0xED, 0xA0, 0x80]), "");
    assert_eq!(text_of_field(&Some(vec![0x80])), "");
}

#[test]
fn narrow_text_of_a_null_field_is_empty() {
    assert_eq!(text_of_field(&None), "");
}

#[test]
fn c_string_of_a_text() {
    assert_eq!(to_narrow("lp0"), Some(vec![b'l', b'p', b'0', 0]));
    assert_eq!(to_narrow(""), Some(vec![0]));
    assert_eq!(to_narrow("é"), Some(vec![0xC3, 0xA9, 0]));
    assert_eq!(to_narrow("a\0b"), None);
    assert_eq!(to_narrow("\0"), None);
}

#[test]
fn texts_and_bytes_compare_by_content() {
    assert!(same_text("true", "true"));
    assert!(!same_text("true", "True"));
    assert!(!same_text("true", "true "));
    assert!(same_text("", ""));
    assert!(same_bytes(b"abc", b"abc"));
    assert!(!same_bytes(b"abc", b"abd"));
    assert!(!same_bytes(b"abc", b"ab"));
    assert!(bytes_spell("é".as_bytes(), "é"));
    assert!(!bytes_spell(&[0xE9], "é"));
}
