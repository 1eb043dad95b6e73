use debug_text_view::wide_text::{decode_units, decode_wide, terminated_len};

fn expected(units: &[u16]) -> String {
    let end = units.iter().position(|&u| u == 0).unwrap_or(units.len());
    String::from_utf16(&units[..end]).unwrap_or(String::from("?EncodingError?"))
}

#[test]
fn decodes_up_to_the_terminator() {
    let units: Vec<u16> = "hello".encode_utf16().chain([0u16, 0x41]).collect();
    assert_eq!(decode_wide(&units), "hello");
}

#[test]
fn decodes_without_a_terminator() {
    let units: Vec<u16> = "FPS: 60".encode_utf16().collect();
    assert_eq!(decode_wide(&units), "FPS: 60");
}

#[test]
fn empty_buffer_is_empty_text() {
    assert_eq!(decode_wide(&[]), "");
    assert_eq!(decode_wide(&[0]), "");
}

#[test]
fn decodes_japanese_and_pairs() {
    let text = "デバッグ 𝄞 text 😀";
    let mut units: Vec<u16> = text.encode_utf16().collect();
    units.push(0);
    assert_eq!(decode_wide(&units), text);
}

#[test]
fn surrogate_pair_gives_one_character() {
    assert_eq!(decode_wide(&[0xD834, 0xDD1E, 0]), "\u{1D11E}");
    assert_eq!(decode_wide(&[0xD800, 0xDC00, 0]), "\u{10000}");
    assert_eq!(decode_wide(&[0xDBFF, 0xDFFF, 0]), "\u{10FFFF}");
}

#[test]
fn unpaired_surrogate_gives_the_sentinel() {
    assert_eq!(decode_wide(&[0x41, 0xD800, 0x42, 0]), "?EncodingError?");
    assert_eq!(decode_wide(&[0xDC00, 0]), "?EncodingError?");
    assert_eq!(decode_wide(&[0xD800, 0]), "?EncodingError?");
    assert_eq!(decode_wide(&[0xD800]), "?EncodingError?");
    assert_eq!(decode_wide(&[0xD800, 0xD800, 0xDC00, 0]), "?EncodingError?");
    assert_eq!(decode_wide(&[0xD800, 0xDC00, 0xDC00, 0]), "?EncodingError?");
}

#[test]
fn surrogate_behind_the_terminator_is_not_read() {
    assert_eq!(decode_wide(&[0x41, 0, 0xD800]), "A");
}

#[test]
fn terminated_len_counts_to_the_first_zero() {
    assert_eq!(terminated_len(&[]), 0);
    assert_eq!(terminated_len(&[0]), 0);
    assert_eq!(terminated_len(&[5, 6, 0, 7, 0]), 2);
    assert_eq!(terminated_len(&[5, 6, 7]), 3);
}

#[test]
fn decode_units_reads_only_the_given_length() {
    assert_eq!(decode_units(&[0x41, 0x42, 0xD800], 2), Some(String::from("AB")));
    assert_eq!(decode_units(&[0x41, 0x42, 0xD800], 3), None);
    assert_eq!(decode_units(&[0xD834, 0xDD1E], 1), None);
    assert_eq!(decode_units(&[0x41, 0, 0x42], 3), Some(String::from("A\0B")));
}

#[test]
fn every_single_unit_decodes_as_std_does() {
    for unit in 0..=0xFFFFu16 {
        assert_eq!(decode_wide(&[unit]), expected(&[unit]));
        assert_eq!(decode_wide(&[0x41, unit, 0x42, 0]), expected(&[0x41, unit, 0x42, 0]));
    }
}

#[test]
fn pairs_around_the_surrogate_bounds_decode_as_std_does() {
    let edges: [u16; 12] = [
        0x0001, 0xD7FF, 0xD800, 0xD801, 0xDBFE, 0xDBFF, 0xDC00, 0xDC01, 0xDFFE, 0xDFFF, 0xE000, 0xFFFF,
    ];
    for &a in edges.iter() {
        for &b in edges.iter() {
            for &c in edges.iter() {
                let units = [a, b, c, 0];
                assert_eq!(decode_wide(&units), expected(&units));
            }
        }
    }
}
