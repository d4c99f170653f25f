//! The alpha channel: a binary fraction held as its IEEE 754 binary32 encoding.
//!
//! An alpha value is kept as the 32 bits that encode it: from the top, one
//! sign bit, eight exponent bits and twenty-three fraction bits. In this form
//! it can be stored, copied and compared exactly. No range is imposed: every
//! encoding is accepted.

use vstd::prelude::*;

verus! {

/// The encoding of the fraction one, the alpha of a fully opaque colour.
pub const OPAQUE: u32 = 0x3f80_0000;

/// Whether `bits` encodes no number at all: the exponent bits are all ones
/// and the fraction bits are not all zero, under either sign.
pub open spec fn spec_is_nan(bits: u32) -> bool {
    bits & 0x7f80_0000 == 0x7f80_0000 && bits & 0x007f_ffff != 0
}

/// Whether `bits` encodes zero, positive or negative: every bit but the sign
/// is zero.
pub open spec fn spec_is_zero(bits: u32) -> bool {
    bits & 0x7fff_ffff == 0
}

/// Whether two encodings stand for equal values. A value that is not a number
/// equals nothing, itself included; the two zeros are equal; any other value
/// has one encoding only.
pub open spec fn spec_alpha_eq(a: u32, b: u32) -> bool {
    &&& !spec_is_nan(a)
    &&& !spec_is_nan(b)
    &&& (a == b || (spec_is_zero(a) && spec_is_zero(b)))
}

/// Tells whether `bits` encodes no number.
#[verifier::when_used_as_spec(spec_is_nan)]
pub fn is_nan(bits: u32) -> (res: bool)
    ensures
        res == spec_is_nan(bits),
{
    bits & 0x7f80_0000 == 0x7f80_0000 && bits & 0x007f_ffff != 0
}

/// Tells whether `bits` encodes one of the two zeros.
#[verifier::when_used_as_spec(spec_is_zero)]
pub fn is_zero(bits: u32) -> (res: bool)
    ensures
        res == spec_is_zero(bits),
{
    bits & 0x7fff_ffff == 0
}

/// Compares two alpha values as numbers, with no tolerance.
#[verifier::when_used_as_spec(spec_alpha_eq)]
pub fn alpha_eq(a: u32, b: u32) -> (res: bool)
    ensures
        res == spec_alpha_eq(a, b),
{
    !is_nan(a) && !is_nan(b) && (a == b || (is_zero(a) && is_zero(b)))
}

/// Read as integers, the encodings of what is no number lie above each of the
/// two infinities, and the zeros are the lowest encoding of each sign.
pub proof fn lemma_encoding_ranges(bits: u32)
    ensures
        spec_is_nan(bits) <==> 0x7f80_0000 < bits < 0x8000_0000 || 0xff80_0000 < bits,
        spec_is_zero(bits) <==> bits == 0 || bits == 0x8000_0000,
{
    assert((bits & 0x7f80_0000 == 0x7f80_0000 && bits & 0x007f_ffff != 0) <==> (0x7f80_0000 < bits
        && bits < 0x8000_0000) || 0xff80_0000 < bits) by (bit_vector);
    assert(bits & 0x7fff_ffff == 0 <==> bits == 0 || bits == 0x8000_0000) by (bit_vector);
}

/// One is a number, and not zero.
pub proof fn lemma_opaque_is_a_number()
    ensures
        !spec_is_nan(OPAQUE),
        !spec_is_zero(OPAQUE),
        spec_alpha_eq(OPAQUE, OPAQUE),
{
    lemma_encoding_ranges(OPAQUE);
}

} // verus!
