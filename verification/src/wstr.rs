//! A wide string: text as the zero-terminated UTF-16 units that the host's
//! windowing interface takes.

use crate::utf16::{
    decode_lossy, decode_utf16_lossy, encode, encode_utf16, lemma_decode_encode,
    lemma_units_of_char, units_of_char, REPLACEMENT_CHARACTER,
};
use vstd::prelude::*;
use vstd::slice::slice_subrange;
use vstd::std_specs::convert::FromSpecImpl;

verus! {

/// The unit that takes the place of a zero unit inside a text, where a zero
/// would end the string early.
pub const REPLACEMENT_UNIT: u16 = 0xFFFD;

/// `unit`, or the replacement unit where `unit` is zero.
pub open spec fn without_zero(unit: u16) -> u16 {
    if unit == 0 {
        REPLACEMENT_UNIT
    } else {
        unit
    }
}

/// The units of the wide string for `chars`: its UTF-16 encoding with every
/// zero unit replaced. The terminator is not among them.
pub open spec fn wide_units(chars: Seq<char>) -> Seq<u16> {
    encode_utf16(chars).map_values(|unit: u16| without_zero(unit))
}

/// `c`, or the replacement character where `c` is the zero character.
pub open spec fn without_nul(c: char) -> char {
    if c == '\0' {
        REPLACEMENT_CHARACTER
    } else {
        c
    }
}

/// Replacing the zero units of a text's encoding gives the encoding of the
/// text with its zero characters replaced, and leaves no zero unit.
pub proof fn lemma_wide_units(chars: Seq<char>)
    ensures
        wide_units(chars) == encode_utf16(chars.map_values(|c: char| without_nul(c))),
        forall|i: int| 0 <= i < wide_units(chars).len() ==> wide_units(chars)[i] != 0,
    decreases chars.len(),
{
    let replaced = chars.map_values(|c: char| without_nul(c));
    if chars.len() > 0 {
        lemma_wide_units(chars.skip(1));
        lemma_units_of_char(chars[0]);
        lemma_units_of_char(without_nul(chars[0]));
        assert(replaced.skip(1) =~= chars.skip(1).map_values(|c: char| without_nul(c)));
    }
}

/// What a wide string made of a text reads back as: the text itself, with
/// the replacement character in the place of each zero character.
pub proof fn lemma_wide_round_trip(chars: Seq<char>)
    ensures
        decode_utf16_lossy(wide_units(chars)) == chars.map_values(|c: char| without_nul(c)),
{
    lemma_wide_units(chars);
    lemma_decode_encode(chars.map_values(|c: char| without_nul(c)));
}

/// A zero-terminated UTF-16 string. The terminator is its only zero unit.
#[allow(clippy::upper_case_acronyms)]
pub struct WSTR(Vec<u16>);

impl View for WSTR {
    type V = Seq<u16>;

    /// The units of the text, without the terminator.
    closed spec fn view(&self) -> Seq<u16> {
        self.0@.drop_last()
    }
}

impl WSTR {
    #[verifier::type_invariant]
    spec fn well_formed(&self) -> bool {
        &&& self.0.len() >= 1
        &&& self.0@.last() == 0
        &&& forall|i: int| 0 <= i < self.0.len() - 1 ==> self.0[i] != 0
    }

    /// The number of units before the terminator, cut to 32 bits as the
    /// host's interface counts them.
    pub fn len(&self) -> (len: i32)
        ensures
            len == self@.len() as i32,
    {
        proof {
            use_type_invariant(self);
        }
        #[verifier::truncate]
        ((self.0.len() - 1) as i32)
    }

    /// The text that the units encode. A surrogate that is not part of a pair
    /// becomes the replacement character.
    pub fn to_string(&self) -> (text: String)
        ensures
            text@ == decode_utf16_lossy(self@),
    {
        proof {
            use_type_invariant(self);
        }
        let units = slice_subrange(self.0.as_slice(), 0, self.0.len() - 1);
        decode_lossy(units)
    }

    /// The units with the terminator, for the host to point at.
    pub fn into_units(self) -> (units: Vec<u16>)
        ensures
            units@ == self@.push(0),
            forall|i: int| 0 <= i < self@.len() ==> self@[i] != 0,
    {
        proof {
            use_type_invariant(&self);
        }
        self.0
    }
}

impl From<&str> for WSTR {
    /// The wide string for `text`: its UTF-16 units, the replacement unit in
    /// the place of each zero unit, and a zero at the end.
    fn from(text: &str) -> (wide: WSTR)
        ensures
            wide@ == wide_units(text@),
    {
        let mut units = encode(text);
        let ghost encoded = units@;
        let mut at: usize = 0;
        while at < units.len()
            invariant
                at <= units.len(),
                units.len() == encoded.len(),
                forall|i: int| 0 <= i < at ==> units[i] == without_zero(encoded[i]),
                forall|i: int| at <= i < units.len() ==> units[i] == encoded[i],
            decreases units.len() - at,
        {
            if units[at] == 0 {
                units.set(at, REPLACEMENT_UNIT);
            }
            at += 1;
        }
        units.push(0);
        WSTR(units)
    }
}

/// A wide string is known by its units alone, so no value can be named in
/// advance as the one that `from` returns: what `from` returns is said by its
/// own contract.
impl FromSpecImpl<&str> for WSTR {
    open spec fn obeys_from_spec() -> bool {
        false
    }

    open spec fn from_spec(text: &str) -> WSTR {
        arbitrary()
    }
}

} // verus!
