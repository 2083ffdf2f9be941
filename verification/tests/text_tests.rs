use linenoise::text::{engine_text, host_text, native_text, owned_copy, NUL};

#[test]
fn native_text_appends_the_terminator() {
    assert_eq!(native_text("foo"), Some(vec![b'f', b'o', b'o', 0]));
}

#[test]
fn native_text_of_empty_text_is_the_terminator_alone() {
    assert_eq!(native_text(""), Some(vec![0]));
}

#[test]
fn native_text_keeps_multibyte_characters() {
    // U+00E9 is 0xC3 0xA9, U+20AC is 0xE2 0x82 0xAC, U+1F600 is 0xF0 0x9F 0x98 0x80.
    assert_eq!(
        native_text("\u{e9}\u{20ac}\u{1f600}"),
        Some(vec![0xC3, 0xA9, 0xE2, 0x82, 0xAC, 0xF0, 0x9F, 0x98, 0x80, 0])
    );
}

#[test]
fn native_text_refuses_an_interior_nul() {
    assert_eq!(native_text("a\0b"), None);
}

#[test]
fn native_text_refuses_a_leading_and_a_trailing_nul() {
    assert_eq!(native_text("\0"), None);
    assert_eq!(native_text("ab\0"), None);
}

#[test]
fn the_terminator_is_zero() {
    assert_eq!(NUL, 0u8);
}

#[test]
fn host_text_reads_well_formed_bytes() {
    assert_eq!(host_text(b"hello"), Some(String::from("hello")));
    assert_eq!(host_text(&[0xC3, 0xA9]), Some(String::from("\u{e9}")));
    assert_eq!(host_text(&[]), Some(String::new()));
}

#[test]
fn host_text_refuses_malformed_bytes() {
    // A lone continuation byte, a truncated sequence, an overlong form, a surrogate.
    assert_eq!(host_text(&[0x80]), None);
    assert_eq!(host_text(&[b'a', 0xE2, 0x82]), None);
    assert_eq!(host_text(&[0xC0, 0xAF]), None);
    assert_eq!(host_text(&[0xED, 0xA0, 0x80]), None);
    assert_eq!(host_text(&[0xFF]), None);
}

#[test]
fn engine_text_borrows_the_text() {
    assert_eq!(engine_text(b"ab"), "ab");
    assert_eq!(engine_text(&[0xE2, 0x82, 0xAC]), "\u{20ac}");
}

#[test]
fn owned_copy_of_a_returned_line() {
    assert_eq!(owned_copy(Some(&b"typed line"[..])), Some(String::from("typed line")));
    assert_eq!(owned_copy(Some(&[][..])), Some(String::new()));
}

#[test]
fn owned_copy_at_end_of_input_is_no_value() {
    assert_eq!(owned_copy(None), None);
}

#[test]
fn laid_out_text_reads_back_as_it_was() {
    for text in ["foo", "", "na\u{ef}ve \u{1f600}", "tab\there"] {
        let laid = native_text(text).unwrap();
        assert_eq!(laid.last(), Some(&0u8));
        let before_terminator = &laid[..laid.len() - 1];
        assert_eq!(host_text(before_terminator), Some(String::from(text)));
        assert_eq!(owned_copy(Some(before_terminator)), Some(String::from(text)));
    }
}
