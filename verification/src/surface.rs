//! The identifier of the drawing surface of one text draw: stable from
//! frame to frame for the same draw.

use vstd::prelude::*;
use vstd::bytes::*;
use vstd::string::*;
use vstd::utf8::*;
use std::collections::hash_map::DefaultHasher;
use std::hash::Hasher;
use vstd::std_specs::hash::DefaultHasherAdditionalSpecFns;
use crate::single::Single;

verus! {

/// What is written to the hasher for one draw: the whole-number parts of
/// the captured and of the placed coordinates, the text, and a closing
/// byte that no text holds.
pub open spec fn surface_key(x: Single, y: Single, placed_x: Single, placed_y: Single, text: Seq<char>) -> Seq<
    Seq<u8>,
> {
    seq![
        spec_u32_to_le_bytes(x.truncated() as u32),
        spec_u32_to_le_bytes(y.truncated() as u32),
        spec_u32_to_le_bytes(placed_x.truncated() as u32),
        spec_u32_to_le_bytes(placed_y.truncated() as u32),
        encode_utf8(text),
        seq![0xFFu8],
    ]
}

/// The identifier of the surface for a draw.
pub open spec fn surface_id_of(x: Single, y: Single, placed_x: Single, placed_y: Single, text: Seq<char>) -> u64 {
    DefaultHasher::spec_finish(surface_key(x, y, placed_x, placed_y, text))
}

/// Hashes the whole-number parts of the four coordinates and the text into
/// the identifier of the surface to draw on.
pub fn surface_id(x: Single, y: Single, placed_x: Single, placed_y: Single, text: &str) -> (id: u64)
    ensures
        id == surface_id_of(x, y, placed_x, placed_y, text@),
{
    let mut hasher = DefaultHasher::new();
    let b0 = u32_to_le_bytes(x.truncate());
    hasher.write(b0.as_slice());
    let b1 = u32_to_le_bytes(y.truncate());
    hasher.write(b1.as_slice());
    let b2 = u32_to_le_bytes(placed_x.truncate());
    hasher.write(b2.as_slice());
    let b3 = u32_to_le_bytes(placed_y.truncate());
    hasher.write(b3.as_slice());
    hasher.write(text.as_bytes());
    let mut close: Vec<u8> = Vec::new();
    close.push(0xFFu8);
    hasher.write(close.as_slice());
    assert(hasher@ =~= surface_key(x, y, placed_x, placed_y, text@));
    hasher.finish()
}

/// The same draw always gets the same surface.
pub proof fn lemma_surface_id_repeats(
    x: Single,
    y: Single,
    placed_x: Single,
    placed_y: Single,
    text: Seq<char>,
    x2: Single,
    y2: Single,
    placed_x2: Single,
    placed_y2: Single,
    text2: Seq<char>,
)
    requires
        x.truncated() == x2.truncated(),
        y.truncated() == y2.truncated(),
        placed_x.truncated() == placed_x2.truncated(),
        placed_y.truncated() == placed_y2.truncated(),
        text == text2,
    ensures
        surface_id_of(x, y, placed_x, placed_y, text) == surface_id_of(x2, y2, placed_x2, placed_y2, text2),
{
}

/// Draws that differ in the text or in the whole-number part of a
/// coordinate put different bytes into the hasher.
pub proof fn lemma_surface_key_tells_apart(
    x: Single,
    y: Single,
    placed_x: Single,
    placed_y: Single,
    text: Seq<char>,
    x2: Single,
    y2: Single,
    placed_x2: Single,
    placed_y2: Single,
    text2: Seq<char>,
)
    requires
        surface_key(x, y, placed_x, placed_y, text) == surface_key(x2, y2, placed_x2, placed_y2, text2),
    ensures
        x.truncated() == x2.truncated(),
        y.truncated() == y2.truncated(),
        placed_x.truncated() == placed_x2.truncated(),
        placed_y.truncated() == placed_y2.truncated(),
        text == text2,
{
    let k = surface_key(x, y, placed_x, placed_y, text);
    let k2 = surface_key(x2, y2, placed_x2, placed_y2, text2);
    assert(k[0] == k2[0] && k[1] == k2[1] && k[2] == k2[2] && k[3] == k2[3] && k[4] == k2[4]);
    lemma_truncated_fits(x);
    lemma_truncated_fits(x2);
    lemma_truncated_fits(y);
    lemma_truncated_fits(y2);
    lemma_truncated_fits(placed_x);
    lemma_truncated_fits(placed_x2);
    lemma_truncated_fits(placed_y);
    lemma_truncated_fits(placed_y2);
    lemma_word_bytes_tell_apart(x.truncated() as u32, x2.truncated() as u32);
    lemma_word_bytes_tell_apart(y.truncated() as u32, y2.truncated() as u32);
    lemma_word_bytes_tell_apart(placed_x.truncated() as u32, placed_x2.truncated() as u32);
    lemma_word_bytes_tell_apart(placed_y.truncated() as u32, placed_y2.truncated() as u32);
    encode_utf8_decode_utf8(text);
    encode_utf8_decode_utf8(text2);
}

/// Two words with the same bytes are the same word.
proof fn lemma_word_bytes_tell_apart(a: u32, b: u32)
    requires
        spec_u32_to_le_bytes(a) == spec_u32_to_le_bytes(b),
    ensures
        a == b,
{
    lemma_auto_spec_u32_to_from_le_bytes();
    assert(spec_u32_to_le_bytes(a).len() == 4 && spec_u32_to_le_bytes(b).len() == 4);
}

/// The whole-number part fits in `u32`.
pub proof fn lemma_truncated_fits(x: Single)
    ensures
        0 <= x.truncated() <= u32::MAX,
{
    vstd::arithmetic::power2::lemma2_to64();
    if !(x.negative() || x.is_nan() || x.exponent() < 127) && x.exponent() < 159 {
        let e = x.exponent();
        let s = x.significand();
        if e >= 150 {
            let k = (e - 150) as nat;
            if k < 8 {
                vstd::arithmetic::power2::lemma_pow2_strictly_increases(k, 8);
            }
            assert(0 <= s * vstd::arithmetic::power2::pow2(k) <= 0xFF_FFFF * 0x100) by (nonlinear_arith)
                requires
                    0 <= s <= 0xFF_FFFF,
                    0 <= vstd::arithmetic::power2::pow2(k) <= 0x100,
            ;
        } else {
            let k = (150 - e) as nat;
            vstd::arithmetic::power2::lemma_pow2_pos(k);
            let d = vstd::arithmetic::power2::pow2(k) as int;
            assert(0 <= s / d <= s) by (nonlinear_arith)
                requires
                    0 <= s,
                    d > 0,
            ;
        }
    }
}

} // verus!
