use glwindow::text::{signed_decimal_string, wide_string};

#[test]
fn wide_string_of_ascii() {
    assert_eq!(wide_string("ab"), vec![97, 98, 0]);
    assert_eq!(wide_string(""), vec![0]);
    assert_eq!(
        wide_string("Window Class"),
        vec![87, 105, 110, 100, 111, 119, 32, 67, 108, 97, 115, 115, 0]
    );
}

#[test]
fn wide_string_beyond_the_basic_plane() {
    assert_eq!(wide_string("\u{1F600}"), vec![0xD83D, 0xDE00, 0]);
    assert_eq!(wide_string("\u{10FFFF}\u{10000}"), vec![0xDBFF, 0xDFFF, 0xD800, 0xDC00, 0]);
    assert_eq!(wide_string("\u{FFFF}\u{E000}\u{D7FF}"), vec![0xFFFF, 0xE000, 0xD7FF, 0]);
}

#[test]
fn wide_string_agrees_with_the_standard_encoding() {
    let text = "Fenster \u{e9}\u{4e2d}\u{1F5A5} x";
    let mut expected: Vec<u16> = text.encode_utf16().collect();
    expected.push(0);
    assert_eq!(wide_string(text), expected);
}

#[test]
fn wide_string_keeps_a_nul() {
    assert_eq!(wide_string("a\0b"), vec![97, 0, 98, 0]);
}

#[test]
fn different_texts_have_different_encodings() {
    assert_ne!(wide_string("\u{10000}"), wide_string("\u{10001}"));
    assert_ne!(wide_string("a"), wide_string("aa"));
}

#[test]
fn encoded_text_ends_at_its_first_zero() {
    let units = wide_string("opengl32.dll");
    assert_eq!(units.iter().position(|u| *u == 0), Some(12));
    assert_eq!(units.len(), 13);
}

#[test]
fn decimal_numbers() {
    for v in [0, 1, 9, 10, 42, 1234567890, -1, -10, i32::MAX, i32::MIN] {
        assert_eq!(signed_decimal_string(v), format!("{}", v));
    }
}
