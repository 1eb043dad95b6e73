use debug_text_view::report::panic_message;
use debug_text_view::wide_text::{decode_wide, encode_wide};

#[test]
fn message_with_location_and_reason() {
    assert_eq!(
        panic_message(Some(("src/lib.rs", 239)), Some("called `Option::unwrap()` on a `None` value")),
        "A panic occurred at src/lib.rs:239\nReason: called `Option::unwrap()` on a `None` value"
    );
}

#[test]
fn message_without_reason_says_unknown() {
    assert_eq!(panic_message(Some(("a.rs", 7)), None), "A panic occurred at a.rs:7\nReason: Unknown");
}

#[test]
fn message_without_location() {
    assert_eq!(panic_message(None, Some("boom")), "A panic occurred\nReason: boom");
    assert_eq!(panic_message(None, None), "A panic occurred\nReason: Unknown");
}

#[test]
fn line_numbers_are_written_in_decimal() {
    for line in [0u32, 1, 9, 10, 11, 99, 100, 101, 1000, 65535, 1234567890, u32::MAX] {
        assert_eq!(
            panic_message(Some(("f", line)), Some("r")),
            format!("A panic occurred at f:{}\nReason: r", line)
        );
    }
}

#[test]
fn encode_wide_ends_with_a_zero_unit() {
    assert_eq!(encode_wide(""), vec![0u16]);
    assert_eq!(encode_wide("AB"), vec![0x41, 0x42, 0]);
    assert_eq!(encode_wide("\u{1D11E}"), vec![0xD834, 0xDD1E, 0]);
    assert_eq!(encode_wide("\u{FFFF}\u{10000}\u{10FFFF}"), vec![0xFFFF, 0xD800, 0xDC00, 0xDBFF, 0xDFFF, 0]);
}

#[test]
fn encode_wide_agrees_with_std() {
    for text in ["Debug Text View Error", "デバッグ", "a😀b", "\u{D7FF}\u{E000}", "line\nbreak"] {
        let mut want: Vec<u16> = text.encode_utf16().collect();
        want.push(0);
        assert_eq!(encode_wide(text), want);
    }
}

#[test]
fn encoded_text_reads_back() {
    for text in ["", "Debug Text View Error", "デバッグ 𝄞", "A panic occurred at x:1\nReason: y"] {
        assert_eq!(decode_wide(&encode_wide(text)), text);
    }
    assert_eq!(decode_wide(&encode_wide("cut\0here")), "cut");
}
