//! Decoding of one code point from a sequence of UTF-16 code units.
//!
//! A code unit in `0xD800..=0xDBFF` is a leading surrogate, one in
//! `0xDC00..=0xDFFF` a trailing surrogate. A leading surrogate directly
//! followed by a trailing one encodes a single scalar value above `0xFFFF`.
//! Any other code unit, a surrogate without its partner included, stands for
//! itself.

use vstd::prelude::*;

verus! {

/// The code unit is the first half of a surrogate pair.
pub open spec fn is_leading_surrogate(unit: u16) -> bool {
    0xD800 <= unit <= 0xDBFF
}

/// The code unit is the second half of a surrogate pair.
pub open spec fn is_trailing_surrogate(unit: u16) -> bool {
    0xDC00 <= unit <= 0xDFFF
}

/// The code unit is a surrogate of either kind.
pub open spec fn is_surrogate(unit: u16) -> bool {
    0xD800 <= unit <= 0xDFFF
}

/// A surrogate pair starts at `index`: a leading surrogate stands there and a
/// trailing surrogate directly behind it.
pub open spec fn is_pair_at(units: Seq<u16>, index: int) -> bool {
    &&& 0 <= index
    &&& index + 1 < units.len()
    &&& is_leading_surrogate(units[index])
    &&& is_trailing_surrogate(units[index + 1])
}

/// The scalar value that a leading and a trailing surrogate encode together.
pub open spec fn combine_surrogates(leading: u16, trailing: u16) -> int {
    0x10000 + (leading - 0xD800) * 0x400 + (trailing - 0xDC00)
}

/// The number of code units that the code point at `index` occupies.
pub open spec fn unit_count_at(units: Seq<u16>, index: int) -> int {
    if is_pair_at(units, index) {
        2
    } else {
        1
    }
}

/// The value of the code point at `index`: the combined scalar value of a
/// surrogate pair, else the code unit itself.
pub open spec fn scalar_at(units: Seq<u16>, index: int) -> int {
    if is_pair_at(units, index) {
        combine_surrogates(units[index], units[index + 1])
    } else {
        units[index] as int
    }
}

/// What decoding at `index` gives: the value, the number of code units and
/// whether they are a surrogate pair; nothing outside the sequence.
pub open spec fn decode_at(units: Seq<u16>, index: int) -> Option<(int, int, bool)> {
    if 0 <= index < units.len() {
        Some((scalar_at(units, index), unit_count_at(units, index), is_pair_at(units, index)))
    } else {
        None
    }
}

/// A surrogate pair encodes a value above the Basic Multilingual Plane and
/// within the Unicode range.
pub proof fn lemma_pair_is_supplementary(leading: u16, trailing: u16)
    requires
        is_leading_surrogate(leading),
        is_trailing_surrogate(trailing),
    ensures
        0xFFFF < combine_surrogates(leading, trailing) <= 0x10FFFF,
{
}

/// Decodes the code point that starts at `index`.
///
/// Returns the scalar value, the number of code units it occupies and whether
/// these are a surrogate pair. A surrogate without its partner is handed back
/// as it is, as one code unit. There is nothing to decode at or behind the end
/// of the sequence.
pub fn code_point_at(units: &[u16], index: usize) -> (decoded: Option<(u32, u8, bool)>)
    ensures
        decoded is Some <==> index < units@.len(),
        match decoded {
            Some((scalar, count, pair)) => decode_at(units@, index as int) == Some(
                (scalar as int, count as int, pair),
            ),
            None => decode_at(units@, index as int) is None,
        },
{
    if index >= units.len() {
        return None;
    }
    let first: u16 = units[index];
    if first < 0xD800 || first > 0xDBFF || index + 1 == units.len() {
        return Some((first as u32, 1, false));
    }
    let second: u16 = units[index + 1];
    if second < 0xDC00 || second > 0xDFFF {
        return Some((first as u32, 1, false));
    }
    let scalar: u32 = 0x10000 + (first as u32 - 0xD800) * 0x400 + (second as u32 - 0xDC00);
    Some((scalar, 2, true))
}

} // verus!
