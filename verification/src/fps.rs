//! Target frame rate validation. The host stores the target frame rate as the
//! IEEE 754 binary64 bit pattern of a double, so that acceptance — finite and
//! non-negative, with zero meaning "uncapped" — is decided exactly on the bits
//! and verified without floating-point arithmetic.

use vstd::prelude::*;

verus! {

/// The exponent field of a binary64 bit pattern is all ones: the value is an
/// infinity or a NaN, never a finite number.
pub open spec fn fps_bits_non_finite(bits: u64) -> bool {
    (bits >> 52) & 0x7ff == 0x7ff
}

/// The bit pattern encodes a NaN: exponent all ones and a non-zero mantissa.
pub open spec fn fps_bits_is_nan(bits: u64) -> bool {
    fps_bits_non_finite(bits) && bits & 0xf_ffff_ffff_ffff != 0
}

/// The bit pattern encodes +infinity or -infinity: exponent all ones and a
/// zero mantissa.
pub open spec fn fps_bits_is_infinite(bits: u64) -> bool {
    fps_bits_non_finite(bits) && bits & 0xf_ffff_ffff_ffff == 0
}

/// The bit pattern encodes a double strictly below zero: sign bit set and a
/// non-zero magnitude (negative zero compares equal to zero, so it is not
/// below zero), and not a NaN (a NaN compares below nothing).
pub open spec fn fps_bits_below_zero(bits: u64) -> bool {
    bits >> 63 == 1 && bits & 0x7fff_ffff_ffff_ffff != 0 && !fps_bits_is_nan(bits)
}

/// A target frame rate the host accepts: a finite double that is zero
/// (uncapped), negative zero included, or above zero.
pub open spec fn fps_bits_valid(bits: u64) -> bool {
    !fps_bits_non_finite(bits) && (bits >> 63 == 0 || bits & 0x7fff_ffff_ffff_ffff == 0)
}

/// The accepted bit patterns are exactly those that are neither NaN, nor an
/// infinity, nor strictly below zero.
pub proof fn lemma_fps_valid_characterization(bits: u64)
    ensures
        fps_bits_valid(bits) <==> !(fps_bits_is_nan(bits) || fps_bits_is_infinite(bits)
            || fps_bits_below_zero(bits)),
{
    assert(((bits >> 52) & 0x7ff != 0x7ff && (bits >> 63 == 0 || bits & 0x7fff_ffff_ffff_ffff
        == 0)) <==> !(((bits >> 52) & 0x7ff == 0x7ff && bits & 0xf_ffff_ffff_ffff != 0) || ((bits
        >> 52) & 0x7ff == 0x7ff && bits & 0xf_ffff_ffff_ffff == 0) || (bits >> 63 == 1 && bits
        & 0x7fff_ffff_ffff_ffff != 0 && !((bits >> 52) & 0x7ff == 0x7ff && bits
        & 0xf_ffff_ffff_ffff != 0)))) by (bit_vector);
}

/// Zero — the bit pattern of the double 0.0 — is accepted: uncapped is legal.
pub proof fn lemma_fps_zero_valid()
    ensures
        fps_bits_valid(0u64),
{
    assert((0u64 >> 52) & 0x7ff != 0x7ff && 0u64 >> 63 == 0) by (bit_vector);
}

/// The bit pattern of the double -0.0 — only the sign bit set — is accepted:
/// negative zero is non-negative.
pub proof fn lemma_fps_negative_zero_valid()
    ensures
        fps_bits_valid(0x8000_0000_0000_0000u64),
{
    assert((0x8000_0000_0000_0000u64 >> 52) & 0x7ff != 0x7ff && 0x8000_0000_0000_0000u64
        & 0x7fff_ffff_ffff_ffff == 0) by (bit_vector);
}

/// Decides whether a target frame rate, given as the bit pattern of a double,
/// is one the host accepts.
pub fn fps_bits_acceptable(bits: u64) -> (accepted: bool)
    ensures
        accepted == fps_bits_valid(bits),
{
    let exponent = (bits >> 52) & 0x7ff;
    let sign = bits >> 63;
    let magnitude = bits & 0x7fff_ffff_ffff_ffff;
    exponent != 0x7ff && (sign == 0 || magnitude == 0)
}

} // verus!
