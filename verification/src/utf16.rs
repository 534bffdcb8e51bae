//! UTF-16: text as a sequence of 16-bit units, and back.

use vstd::prelude::*;

verus! {

/// The character that stands in for what cannot be decoded.
pub const REPLACEMENT_CHARACTER: char = '\u{FFFD}';

/// `unit` is the first half of a surrogate pair.
pub open spec fn is_high_surrogate(unit: u16) -> bool {
    0xD800 <= unit <= 0xDBFF
}

/// `unit` is the second half of a surrogate pair.
pub open spec fn is_low_surrogate(unit: u16) -> bool {
    0xDC00 <= unit <= 0xDFFF
}

/// `value` is a Unicode scalar value: a code point that is no surrogate.
pub open spec fn is_scalar_value(value: u32) -> bool {
    value <= 0xD7FF || 0xE000 <= value <= 0x10FFFF
}

/// The one or two units that encode `c`.
pub open spec fn units_of_char(c: char) -> Seq<u16> {
    let value = c as int;
    if value < 0x10000 {
        seq![value as u16]
    } else {
        seq![
            (0xD800 + (value - 0x10000) / 0x400) as u16,
            (0xDC00 + (value - 0x10000) % 0x400) as u16,
        ]
    }
}

/// The UTF-16 encoding of `chars`: the units of each character in turn.
pub open spec fn encode_utf16(chars: Seq<char>) -> Seq<u16>
    decreases chars.len(),
{
    if chars.len() == 0 {
        Seq::empty()
    } else {
        units_of_char(chars[0]) + encode_utf16(chars.skip(1))
    }
}

/// The code point that the surrogate pair `high`, `low` encodes.
pub open spec fn scalar_of_pair(high: u16, low: u16) -> int {
    0x10000 + (high - 0xD800) * 0x400 + (low - 0xDC00)
}

/// `units` begins with a surrogate pair.
pub open spec fn starts_with_pair(units: Seq<u16>) -> bool {
    units.len() >= 2 && is_high_surrogate(units[0]) && is_low_surrogate(units[1])
}

/// The text that `units` encodes, with the replacement character for each
/// surrogate that is not part of a pair.
pub open spec fn decode_utf16_lossy(units: Seq<u16>) -> Seq<char>
    decreases units.len(),
{
    if units.len() == 0 {
        Seq::empty()
    } else if starts_with_pair(units) {
        seq![scalar_of_pair(units[0], units[1]) as char] + decode_utf16_lossy(units.skip(2))
    } else if is_high_surrogate(units[0]) || is_low_surrogate(units[0]) {
        seq![REPLACEMENT_CHARACTER] + decode_utf16_lossy(units.skip(1))
    } else {
        seq![units[0] as char] + decode_utf16_lossy(units.skip(1))
    }
}

/// `char::from_u32` of std, taken on trust from its documentation: it gives
/// the character with the code point `value` if `value` is a scalar value,
/// and nothing otherwise.
pub assume_specification[ char::from_u32 ](value: u32) -> (found: Option<char>)
    ensures
        found is Some <==> is_scalar_value(value),
        found matches Some(c) ==> c as u32 == value,
;

/// `String::push` of std, taken on trust from its documentation: it appends
/// `c` to the end of `text` and leaves the rest as it was.
pub assume_specification[ String::push ](text: &mut String, c: char)
    ensures
        final(text)@ == old(text)@.push(c),
;

/// Encoding goes character by character: the encoding of a text with one
/// more character is the encoding of the text, then the units of that
/// character.
pub proof fn lemma_encode_push(chars: Seq<char>, c: char)
    ensures
        encode_utf16(chars.push(c)) == encode_utf16(chars) + units_of_char(c),
    decreases chars.len(),
{
    if chars.len() == 0 {
        assert(encode_utf16(chars.push(c).skip(1)) =~= Seq::<u16>::empty());
    } else {
        lemma_encode_push(chars.skip(1), c);
        assert(chars.push(c).skip(1) =~= chars.skip(1).push(c));
    }
}

/// The units of a character decode to that character: one unit that is no
/// surrogate, or a surrogate pair that holds its code point.
pub proof fn lemma_units_of_char(c: char)
    ensures
        units_of_char(c).len() == 1 ==> !is_high_surrogate(units_of_char(c)[0])
            && !is_low_surrogate(units_of_char(c)[0]) && units_of_char(c)[0] as char == c,
        units_of_char(c).len() != 1 ==> units_of_char(c).len() == 2 && starts_with_pair(
            units_of_char(c),
        ) && scalar_of_pair(units_of_char(c)[0], units_of_char(c)[1]) as char == c,
        (c as int) != 0 ==> forall|i: int|
            0 <= i < units_of_char(c).len() ==> units_of_char(c)[i] != 0,
{
}

/// Decoding undoes encoding: every text comes back from its UTF-16 units
/// unchanged.
pub proof fn lemma_decode_encode(chars: Seq<char>)
    ensures
        decode_utf16_lossy(encode_utf16(chars)) == chars,
    decreases chars.len(),
{
    if chars.len() > 0 {
        let first = units_of_char(chars[0]);
        let rest = encode_utf16(chars.skip(1));
        let units = first + rest;
        lemma_units_of_char(chars[0]);
        lemma_decode_encode(chars.skip(1));
        if first.len() == 1 {
            assert(units.skip(1) =~= rest);
        } else {
            assert(units.skip(2) =~= rest);
        }
    }
}

/// Appends the units that encode `c` to `units`.
pub fn push_char(units: &mut Vec<u16>, c: char)
    ensures
        final(units)@ == old(units)@ + units_of_char(c),
{
    let value: u32 = c as u32;
    if value < 0x10000 {
        units.push(value as u16);
    } else {
        let offset: u32 = value - 0x10000;
        units.push((0xD800 + offset / 0x400) as u16);
        units.push((0xDC00 + offset % 0x400) as u16);
    }
}

/// Encodes `text` as UTF-16.
pub fn encode(text: &str) -> (units: Vec<u16>)
    ensures
        units@ == encode_utf16(text@),
{
    let mut units: Vec<u16> = Vec::new();
    for c in it: text.chars()
        invariant
            it.seq() == text@,
            units@ == encode_utf16(text@.take(it.index() as int)),
    {
        proof {
            let before = text@.take(it.index() as int);
            lemma_encode_push(before, c);
            assert(before.push(c) =~= text@.take(it.index() + 1));
        }
        push_char(&mut units, c);
    }
    assert(text@.take(text@.len() as int) =~= text@);
    units
}

/// Decodes `units` as UTF-16. A surrogate that is not part of a pair becomes
/// the replacement character.
pub fn decode_lossy(units: &[u16]) -> (text: String)
    ensures
        text@ == decode_utf16_lossy(units@),
{
    let mut text = String::new();
    let mut at: usize = 0;
    assert(text@ + decode_utf16_lossy(units@.skip(0)) =~= decode_utf16_lossy(units@)) by {
        assert(units@.skip(0) =~= units@);
    }
    while at < units.len()
        invariant
            at <= units.len(),
            text@ + decode_utf16_lossy(units@.skip(at as int)) == decode_utf16_lossy(units@),
        decreases units.len() - at,
    {
        let ghost rest = units@.skip(at as int);
        let unit = units[at];
        if unit < 0xD800 || unit > 0xDFFF {
            let c = char::from_u32(unit as u32).unwrap();
            text.push(c);
            at += 1;
            proof {
                vstd::utf8::char_u32_cast(c, unit as u32);
                assert(rest.skip(1) =~= units@.skip(at as int));
            }
        } else if unit <= 0xDBFF && at + 1 < units.len() && 0xDC00 <= units[at + 1] && units[at
            + 1] <= 0xDFFF {
            let high: u32 = (unit - 0xD800) as u32;
            let low: u32 = (units[at + 1] - 0xDC00) as u32;
            let c = char::from_u32(0x10000 + high * 0x400 + low).unwrap();
            text.push(c);
            at += 2;
            proof {
                vstd::utf8::char_u32_cast(c, (0x10000 + high * 0x400 + low) as u32);
                assert(rest.skip(2) =~= units@.skip(at as int));
            }
        } else {
            text.push(REPLACEMENT_CHARACTER);
            at += 1;
            proof {
                assert(rest.skip(1) =~= units@.skip(at as int));
            }
        }
    }
    text
}

} // verus!
