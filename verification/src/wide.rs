//! Wide-string codec.
//!
//! The platform boundary speaks null-terminated strings of 16-bit code units.
//! `to_wide_string` produces such a string from host text; `decode_wide` reads
//! one back, truncating at the first zero unit and mapping unrepresentable
//! units lossily.

use vstd::prelude::*;
use vstd::slice::slice_index_get;
use vstd::slice::slice_subrange;

verus! {

/// The UTF-16 encoding of the given text, without a terminator.
pub uninterp spec fn utf16_units(text: Seq<char>) -> Seq<u16>;

/// The text obtained by decoding the given code units, with every
/// malformed unit replaced.
pub uninterp spec fn utf16_lossy_text(units: Seq<u16>) -> Seq<char>;

/// Code units in this range never stand alone in well-formed UTF-16.
pub open spec fn is_utf16_surrogate(unit: u16) -> bool {
    0xD800 <= unit < 0xE000
}

/// Index of the first zero unit, or the length when no unit is zero.
pub open spec fn first_nul(units: Seq<u16>) -> int
    decreases units.len(),
{
    if units.len() == 0 {
        0
    } else if units[0] == 0 {
        0
    } else {
        1 + first_nul(units.drop_first())
    }
}

/// The units that precede the first zero unit.
pub open spec fn wide_prefix(units: Seq<u16>) -> Seq<u16> {
    units.take(first_nul(units))
}

proof fn lemma_first_nul_is(units: Seq<u16>, n: int)
    requires
        0 <= n <= units.len(),
        forall|j: int| 0 <= j < n ==> units[j] != 0,
        n < units.len() ==> units[n] == 0,
    ensures
        first_nul(units) == n,
    decreases units.len(),
{
    if units.len() > 0 && units[0] != 0 {
        assert forall|j: int| 0 <= j < n - 1 implies units.drop_first()[j] != 0 by {
            assert(units[j + 1] != 0);
        }
        lemma_first_nul_is(units.drop_first(), n - 1);
    }
}

/// Relies on `str::encode_utf16`: the encoding depends on the characters
/// alone, and a code point at or below U+FFFF encodes as the one code unit
/// with the same value.
#[verifier::external_body]
fn encode_utf16_units(text: &str) -> (r: Vec<u16>)
    ensures
        r@ == utf16_units(text@),
        (forall|i: int| 0 <= i < text@.len() ==> text@[i] <= '\u{ffff}') ==> r@ == Seq::new(
            text@.len(),
            |i: int| text@[i] as u16,
        ),
{
    text.encode_utf16().collect()
}

/// Relies on `String::from_utf16_lossy`: the decoded text depends on the code
/// units alone, and a unit outside the surrogate range decodes to the code
/// point with the same value.
#[verifier::external_body]
fn decode_utf16_lossy(units: &[u16]) -> (r: String)
    ensures
        r@ == utf16_lossy_text(units@),
        (forall|i: int| 0 <= i < units@.len() ==> !is_utf16_surrogate(units@[i])) ==> r@
            == Seq::new(units@.len(), |i: int| units@[i] as char),
{
    String::from_utf16_lossy(units)
}

/// Encodes text for the platform boundary: its UTF-16 units followed by a
/// terminating zero unit.
pub fn to_wide_string(s: &str) -> (r: Vec<u16>)
    ensures
        r@ == utf16_units(s@).push(0u16),
        (forall|i: int| 0 <= i < s@.len() ==> s@[i] <= '\u{ffff}') ==> r@ == Seq::new(
            s@.len(),
            |i: int| s@[i] as u16,
        ).push(0u16),
{
    let mut units = encode_utf16_units(s);
    units.push(0u16);
    units
}

/// Decodes a fixed-capacity platform buffer: the units before the first zero
/// unit, mapped to text lossily.
pub fn decode_wide(units: &[u16]) -> (r: String)
    ensures
        r@ == utf16_lossy_text(wide_prefix(units@)),
{
    let len = units.len();
    let mut n: usize = 0;
    while n < len && *slice_index_get(units, n) != 0
        invariant
            0 <= n <= len,
            len == units@.len(),
            forall|j: int| 0 <= j < n ==> units@[j] != 0,
        decreases len - n,
    {
        n = n + 1;
    }
    proof {
        lemma_first_nul_is(units@, n as int);
    }
    let prefix = slice_subrange(units, 0, n);
    decode_utf16_lossy(prefix)
}

} // verus!
