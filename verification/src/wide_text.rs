//! Decoding of null-terminated wide-character text captured from the host.

use vstd::prelude::*;

verus! {

/// `char::from_u32`: the character with the given scalar value, or `None`
/// for a surrogate or a value above the last code point.
pub assume_specification[ char::from_u32 ](i: u32) -> (c: Option<char>)
    ensures
        c.is_some() <==> (i <= 0xD7FF || 0xE000 <= i <= 0x10FFFF),
        c matches Some(ch) ==> ch as u32 == i,
;

/// `String::push`: appends one character.
pub assume_specification[ String::push ](s: &mut String, ch: char)
    ensures
        final(s)@ == old(s)@.push(ch),
;

/// Text that stands in for a buffer that is not well-formed.
pub open spec fn sentinel() -> Seq<char> {
    "?EncodingError?"@
}

/// First unit of a surrogate pair.
pub open spec fn is_high_surrogate(unit: u16) -> bool {
    0xD800 <= unit <= 0xDBFF
}

/// Second unit of a surrogate pair.
pub open spec fn is_low_surrogate(unit: u16) -> bool {
    0xDC00 <= unit <= 0xDFFF
}

/// The scalar value that a surrogate pair stands for.
pub open spec fn pair_value(high: u16, low: u16) -> int {
    0x10000 + (high - 0xD800) * 0x400 + (low - 0xDC00)
}

/// The code units before the first zero unit; all of them where none is
/// zero.
pub open spec fn before_terminator(units: Seq<u16>) -> Seq<u16>
    decreases units.len(),
{
    if units.len() == 0 || units[0] == 0 {
        Seq::empty()
    } else {
        seq![units[0]] + before_terminator(units.drop_first())
    }
}

/// The characters that `units` encode, or `None` where a surrogate stands
/// without its partner.
pub open spec fn decoded(units: Seq<u16>) -> Option<Seq<char>>
    decreases units.len(),
{
    if units.len() == 0 {
        Some(Seq::empty())
    } else if !is_high_surrogate(units[0]) && !is_low_surrogate(units[0]) {
        match decoded(units.skip(1)) {
            Some(rest) => Some(seq![units[0] as char] + rest),
            None => None,
        }
    } else if is_high_surrogate(units[0]) && units.len() >= 2 && is_low_surrogate(units[1]) {
        match decoded(units.skip(2)) {
            Some(rest) => Some(seq![pair_value(units[0], units[1]) as char] + rest),
            None => None,
        }
    } else {
        None
    }
}

/// The text shown for a captured buffer: what the units before the
/// terminator encode, or the sentinel.
pub open spec fn shown_text(units: Seq<u16>) -> Seq<char> {
    match decoded(before_terminator(units)) {
        Some(text) => text,
        None => sentinel(),
    }
}

/// `decoded` of what is left after `done`, put behind `done`.
pub open spec fn resumed(done: Seq<char>, left: Seq<u16>) -> Option<Seq<char>> {
    match decoded(left) {
        Some(rest) => Some(done + rest),
        None => None,
    }
}

/// The text stops at the first zero: `before_terminator(units)` is the
/// prefix of that length, and it holds no zero.
pub proof fn lemma_before_terminator(units: Seq<u16>)
    ensures
        before_terminator(units).len() <= units.len(),
        before_terminator(units) == units.take(before_terminator(units).len() as int),
        forall|i: int| 0 <= i < before_terminator(units).len() ==> before_terminator(units)[i] != 0,
        before_terminator(units).len() < units.len() ==> units[before_terminator(units).len() as int]
            == 0,
    decreases units.len(),
{
    if units.len() == 0 || units[0] == 0 {
        assert(before_terminator(units) =~= units.take(0));
    } else {
        let tail = units.drop_first();
        lemma_before_terminator(tail);
        let n = before_terminator(tail).len();
        assert(before_terminator(units) =~= units.take(n as int + 1));
    }
}

/// The number of code units before the first zero unit.
pub fn terminated_len(units: &[u16]) -> (len: usize)
    ensures
        len == before_terminator(units@).len(),
        len <= units@.len(),
{
    let mut i: usize = 0;
    proof {
        assert(units@.skip(0) =~= units@);
        assert(units@.take(0) + before_terminator(units@) =~= before_terminator(units@));
    }
    while i < units.len() && units[i] != 0
        invariant
            i <= units@.len(),
            before_terminator(units@) == units@.take(i as int) + before_terminator(units@.skip(i as int)),
        decreases units@.len() - i,
    {
        proof {
            let here = units@.skip(i as int);
            assert(here.drop_first() =~= units@.skip(i as int + 1));
            assert(units@.take(i as int) + (seq![here[0]] + before_terminator(here.drop_first()))
                =~= units@.take(i as int + 1) + before_terminator(units@.skip(i as int + 1)));
        }
        i = i + 1;
    }
    proof {
        assert(before_terminator(units@.skip(i as int)) =~= Seq::<u16>::empty());
        assert(units@.take(i as int) + Seq::<u16>::empty() =~= units@.take(i as int));
    }
    i
}

/// Decodes the first `len` code units, or returns `None` where a surrogate
/// among them stands without its partner.
pub fn decode_units(units: &[u16], len: usize) -> (text: Option<String>)
    requires
        len <= units@.len(),
    ensures
        text.is_some() <==> decoded(units@.take(len as int)).is_some(),
        text matches Some(s) ==> Some(s@) == decoded(units@.take(len as int)),
{
    let ghost all = units@.take(len as int);
    let mut out = String::new();
    let mut i: usize = 0;
    proof {
        assert(all.skip(0) =~= all);
        if let Some(whole) = decoded(all) {
            assert(Seq::<char>::empty() + whole =~= whole);
        }
    }
    while i < len
        invariant
            i <= len <= units@.len(),
            all == units@.take(len as int),
            decoded(all) == resumed(out@, all.skip(i as int)),
        decreases len - i,
    {
        let unit = units[i];
        let ghost left = all.skip(i as int);
        assert(left[0] == unit);
        if unit < 0xD800 || unit > 0xDFFF {
            let wide: u32 = unit as u32;
            match char::from_u32(wide) {
                Some(c) => {
                    proof {
                        vstd::utf8::char_u32_cast(c, wide);
                        assert(c == unit as char);
                        assert(left.skip(1) =~= all.skip(i as int + 1));
                        let rest = decoded(left.skip(1));
                        if rest.is_some() {
                            assert(out@ + (seq![c] + rest.unwrap()) =~= out@.push(c) + rest.unwrap());
                        }
                    }
                    out.push(c);
                    i = i + 1;
                },
                None => {
                    return None;
                },
            }
        } else if unit <= 0xDBFF && i + 1 < len && 0xDC00 <= units[i + 1] && units[i + 1] <= 0xDFFF {
            let low = units[i + 1];
            assert(left[1] == low);
            let value: u32 = 0x10000 + (unit as u32 - 0xD800) * 0x400 + (low as u32 - 0xDC00);
            match char::from_u32(value) {
                Some(c) => {
                    proof {
                        assert(value == pair_value(unit, low));
                        vstd::utf8::char_u32_cast(c, value);
                        assert(c == pair_value(unit, low) as char);
                        assert(left.skip(2) =~= all.skip(i as int + 2));
                        let rest = decoded(left.skip(2));
                        if rest.is_some() {
                            assert(out@ + (seq![c] + rest.unwrap()) =~= out@.push(c) + rest.unwrap());
                        }
                    }
                    out.push(c);
                    i = i + 2;
                },
                None => {
                    return None;
                },
            }
        } else {
            proof {
                assert(left.len() == len - i);
                assert(decoded(left).is_none());
            }
            return None;
        }
    }
    proof {
        assert(all.skip(i as int) =~= Seq::<u16>::empty());
        assert(out@ + Seq::<char>::empty() =~= out@);
    }
    Some(out)
}

/// Turns a captured wide-character buffer into owned text. The text ends
/// before the first zero unit. A buffer that is not well-formed gives the
/// sentinel in place of an error.
pub fn decode_wide(units: &[u16]) -> (text: String)
    ensures
        text@ == shown_text(units@),
{
    let len = terminated_len(units);
    proof {
        lemma_before_terminator(units@);
    }
    match decode_units(units, len) {
        Some(text) => text,
        None => "?EncodingError?".to_owned(),
    }
}

/// The unit at place `i` is a surrogate without its partner: a first half
/// that no second half follows, or a second half that no first half
/// precedes.
pub open spec fn unpaired_at(units: Seq<u16>, i: int) -> bool {
    ||| is_high_surrogate(units[i]) && !(i + 1 < units.len() && is_low_surrogate(units[i + 1]))
    ||| is_low_surrogate(units[i]) && !(i > 0 && is_high_surrogate(units[i - 1]))
}

/// No surrogate stands without its partner.
pub open spec fn well_formed(units: Seq<u16>) -> bool {
    forall|i: int| 0 <= i < units.len() ==> !unpaired_at(units, i)
}

/// Units decode exactly when no surrogate among them stands without its
/// partner.
pub proof fn lemma_decodes_iff_well_formed(units: Seq<u16>)
    ensures
        decoded(units).is_some() <==> well_formed(units),
    decreases units.len(),
{
    if units.len() == 0 {
    } else if !is_high_surrogate(units[0]) && !is_low_surrogate(units[0]) {
        let rest = units.skip(1);
        lemma_decodes_iff_well_formed(rest);
        if well_formed(units) {
            assert forall|i: int| 0 <= i < rest.len() implies !unpaired_at(rest, i) by {
                assert(!unpaired_at(units, i + 1));
            }
        }
        if well_formed(rest) {
            assert forall|i: int| 0 <= i < units.len() implies !unpaired_at(units, i) by {
                if i > 0 {
                    assert(!unpaired_at(rest, i - 1));
                }
            }
        }
    } else if is_high_surrogate(units[0]) && units.len() >= 2 && is_low_surrogate(units[1]) {
        let rest = units.skip(2);
        lemma_decodes_iff_well_formed(rest);
        if well_formed(units) {
            assert forall|i: int| 0 <= i < rest.len() implies !unpaired_at(rest, i) by {
                assert(!unpaired_at(units, i + 2));
            }
        }
        if well_formed(rest) {
            assert forall|i: int| 0 <= i < units.len() implies !unpaired_at(units, i) by {
                if i > 1 {
                    assert(!unpaired_at(rest, i - 2));
                }
            }
        }
    } else {
        assert(unpaired_at(units, 0));
    }
}

/// A buffer whose text holds a surrogate without its partner is shown as
/// the sentinel.
pub proof fn lemma_malformed_shows_sentinel(units: Seq<u16>, i: int)
    requires
        0 <= i < before_terminator(units).len(),
        unpaired_at(before_terminator(units), i),
    ensures
        shown_text(units) == sentinel(),
{
    lemma_decodes_iff_well_formed(before_terminator(units));
}

/// Text without surrogates is shown unit for unit.
pub proof fn lemma_plain_units_decode(units: Seq<u16>)
    requires
        forall|i: int| 0 <= i < units.len() ==> !is_high_surrogate(units[i]) && !is_low_surrogate(units[i]),
    ensures
        decoded(units) == Some(Seq::new(units.len(), |i: int| units[i] as char)),
    decreases units.len(),
{
    if units.len() == 0 {
        assert(Seq::new(units.len(), |i: int| units[i] as char) =~= Seq::<char>::empty());
    } else {
        let rest = units.skip(1);
        lemma_plain_units_decode(rest);
        assert(seq![units[0] as char] + Seq::new(rest.len(), |i: int| rest[i] as char) =~= Seq::new(
            units.len(),
            |i: int| units[i] as char,
        ));
    }
}

/// The code units of one character: itself, or a surrogate pair for a
/// character above the first plane.
pub open spec fn units_of(c: char) -> Seq<u16> {
    let value = c as u32 as int;
    if value < 0x10000 {
        seq![value as u16]
    } else {
        seq![(0xD800 + (value - 0x10000) / 0x400) as u16, (0xDC00 + (value - 0x10000) % 0x400) as u16]
    }
}

/// The code units of a text.
pub open spec fn encoded(text: Seq<char>) -> Seq<u16>
    decreases text.len(),
{
    if text.len() == 0 {
        Seq::empty()
    } else {
        units_of(text[0]) + encoded(text.drop_first())
    }
}

/// The units of a text with one more character are those of the text,
/// then those of the character.
pub proof fn lemma_encoded_push(text: Seq<char>, c: char)
    ensures
        encoded(text.push(c)) == encoded(text) + units_of(c),
    decreases text.len(),
{
    if text.len() == 0 {
        assert(text.push(c).drop_first() =~= Seq::<char>::empty());
        assert(encoded(text.push(c)) =~= units_of(c) + encoded(Seq::<char>::empty()));
        assert(encoded(text.push(c)) =~= encoded(text) + units_of(c));
    } else {
        lemma_encoded_push(text.drop_first(), c);
        assert(text.push(c).drop_first() =~= text.drop_first().push(c));
        assert(encoded(text.push(c)) =~= encoded(text) + units_of(c));
    }
}

/// Encodes a text as wide characters with a closing zero unit, as the
/// host's message boxes take it.
pub fn encode_wide(text: &str) -> (units: Vec<u16>)
    ensures
        units@ == encoded(text@).push(0u16),
{
    let mut units: Vec<u16> = Vec::new();
    proof {
        vstd::string::axiom_spec_iter(text);
    }
    for c in iter: text.chars()
        invariant
            iter.seq() == text@,
            units@ == encoded(text@.take(iter.index() as int)),
    {
        proof {
            let done = text@.take(iter.index() as int);
            lemma_encoded_push(done, c);
            assert(done.push(c) =~= text@.take(iter.index() + 1));
            vstd::utf8::char_is_scalar(c);
        }
        let value: u32 = c as u32;
        if value < 0x10000 {
            units.push(value as u16);
        } else {
            let rest: u32 = value - 0x10000;
            units.push((0xD800 + rest / 0x400) as u16);
            units.push((0xDC00 + rest % 0x400) as u16);
        }
        assert(units@ =~= encoded(text@.take(iter.index() as int)) + units_of(c));
    }
    assert(text@.take(text@.len() as int) =~= text@);
    units.push(0u16);
    units
}

/// What was encoded decodes to the same text.
pub proof fn lemma_encoded_decodes(text: Seq<char>)
    ensures
        decoded(encoded(text)) == Some(text),
    decreases text.len(),
{
    if text.len() == 0 {
    } else {
        let c = text[0];
        let rest = text.drop_first();
        let units = encoded(text);
        let value = c as u32;
        lemma_encoded_decodes(rest);
        vstd::utf8::char_is_scalar(c);
        vstd::utf8::char_u32_cast(c, value);
        if value < 0x10000 {
            assert(units[0] == value);
            assert(units.skip(1) =~= encoded(rest));
            assert(seq![c] + rest =~= text);
        } else {
            let high = (0xD800 + (value - 0x10000) / 0x400) as u16;
            let low = (0xDC00 + (value - 0x10000) % 0x400) as u16;
            assert(units[0] == high && units[1] == low);
            assert(pair_value(high, low) == value);
            assert(units.skip(2) =~= encoded(rest));
            assert(seq![c] + rest =~= text);
        }
    }
}

/// The text ends where its first zero character stands: encoded text without
/// one is read back whole from a buffer that ends with a zero unit.
pub proof fn lemma_wide_round_trip(text: Seq<char>)
    requires
        forall|i: int| 0 <= i < text.len() ==> text[i] as u32 != 0,
    ensures
        shown_text(encoded(text).push(0u16)) == text,
{
    lemma_encoded_has_no_zero(text);
    lemma_stops_at_zero(encoded(text), Seq::empty());
    assert(encoded(text) + seq![0u16] + Seq::<u16>::empty() =~= encoded(text).push(0u16));
    lemma_encoded_decodes(text);
}

/// Encoded text holds a zero unit only for a zero character.
pub proof fn lemma_encoded_has_no_zero(text: Seq<char>)
    requires
        forall|i: int| 0 <= i < text.len() ==> text[i] as u32 != 0,
    ensures
        forall|i: int| 0 <= i < encoded(text).len() ==> encoded(text)[i] != 0,
    decreases text.len(),
{
    if text.len() > 0 {
        let rest = text.drop_first();
        lemma_encoded_has_no_zero(rest);
        vstd::utf8::char_is_scalar(text[0]);
        let head = units_of(text[0]);
        assert forall|i: int| 0 <= i < encoded(text).len() implies encoded(text)[i] != 0 by {
            if i >= head.len() {
                assert(encoded(text)[i] == encoded(rest)[i - head.len()]);
            }
        }
    }
}

/// Units without a zero, then a zero: the text is all that stands before
/// the zero, whatever follows it.
pub proof fn lemma_stops_at_zero(head: Seq<u16>, tail: Seq<u16>)
    requires
        forall|i: int| 0 <= i < head.len() ==> head[i] != 0,
    ensures
        before_terminator(head + seq![0u16] + tail) == head,
    decreases head.len(),
{
    let all = head + seq![0u16] + tail;
    if head.len() == 0 {
        assert(all[0] == 0);
        assert(before_terminator(all) =~= head);
    } else {
        lemma_stops_at_zero(head.drop_first(), tail);
        assert(all.drop_first() =~= head.drop_first() + seq![0u16] + tail);
        assert(seq![all[0]] + head.drop_first() =~= head);
    }
}

} // verus!
