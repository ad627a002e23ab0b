use printers::shared::wide::{decode_wide, text_of_wide, to_wide, wide_len};

fn wide(text: &str) -> Vec<u16> {
    text.encode_utf16().chain(Some(0)).collect()
}

#[test]
fn wide_form_of_a_text() {
    assert_eq!(to_wide("RAW"), vec![0x52, 0x41, 0x57, 0]);
    assert_eq!(to_wide(""), vec![0]);
    assert_eq!(to_wide("é"), vec![0xE9, 0]);
    assert_eq!(to_wide("𝄞"), vec![0xD834, 0xDD1E, 0]);
    assert_eq!(
        to_wide("\u{FFFF}\u{10000}\u{10FFFF}"),
        vec![0xFFFF, 0xD800, 0xDC00, 0xDBFF, 0xDFFF, 0]
    );
}

#[test]
fn wide_form_agrees_with_the_standard_library() {
    for text in ["", "NPI858230", "Büro 2. OG", "印刷機", "𝄞 clef", "\u{D7FF}\u{E000}"] {
        assert_eq!(to_wide(text), wide(text));
    }
}

#[test]
fn length_up_to_the_terminator() {
    assert_eq!(wide_len(&[]), 0);
    assert_eq!(wide_len(&[0]), 0);
    assert_eq!(wide_len(&[0x41, 0x42, 0]), 2);
    assert_eq!(wide_len(&[0x41, 0, 0x42, 0]), 1);
    assert_eq!(wide_len(&[0x41, 0x42]), 2);
}

#[test]
fn wide_text_of_a_null_pointer_is_empty() {
    assert_eq!(text_of_wide(&None), "");
}

#[test]
fn wide_text_ends_at_the_terminator() {
    assert_eq!(text_of_wide(&Some(vec![0x48, 0x50, 0, 0x58, 0x59])), "HP");
    assert_eq!(text_of_wide(&Some(vec![0, 0x58])), "");
    assert_eq!(text_of_wide(&Some(vec![])), "");
    assert_eq!(text_of_wide(&Some(vec![0x48, 0x50])), "HP");
}

#[test]
fn wide_text_round_trip() {
    for text in ["NPI858230", "Büro 2. OG", "印刷機", "𝄞 clef", "a\u{10FFFF}b", ""] {
        assert_eq!(text_of_wide(&Some(to_wide(text))), text);
        let mut with_rest = to_wide(text);
        with_rest.extend_from_slice(&[0x58, 0xD800, 0]);
        assert_eq!(text_of_wide(&Some(with_rest)), text);
    }
}

#[test]
fn unpaired_surrogates_are_replaced() {
    assert_eq!(decode_wide(&[0xD800], 1), "\u{FFFD}");
    assert_eq!(decode_wide(&[0xDC00], 1), "\u{FFFD}");
    assert_eq!(decode_wide(&[0xD800, 0x41], 2), "\u{FFFD}A");
    assert_eq!(decode_wide(&[0xDC00, 0xD800], 2), "\u{FFFD}\u{FFFD}");
    assert_eq!(decode_wide(&[0xD800, 0xD800, 0xDC00], 3), "\u{FFFD}\u{10000}");
    assert_eq!(decode_wide(&[0x41, 0xDBFF], 2), "A\u{FFFD}");
}

#[test]
fn a_pair_cut_by_the_end_is_replaced() {
    assert_eq!(decode_wide(&[0xD834, 0xDD1E], 1), "\u{FFFD}");
    assert_eq!(decode_wide(&[0xD834, 0xDD1E], 2), "𝄞");
    assert_eq!(decode_wide(&[0xD834, 0xDD1E], 0), "");
}

#[test]
fn decoding_agrees_with_the_standard_library() {
    let samples: [&[u16]; 6] = [
        &[0x48, 0x69],
        &[0xD834, 0xDD1E, 0x6D, 0x75, 0xD800, 0x69, 0x63],
        &[0xDFFF, 0xDBFF, 0xDFFF, 0xD7FF, 0xE000],
        &[0xFFFF, 0xFFFE, 0xFFFD],
        &[0xDBFF, 0xDBFF, 0xDC00, 0xDC00],
        &[],
    ];
    for units in samples {
        assert_eq!(decode_wide(units, units.len()), String::from_utf16_lossy(units));
    }
}
