//! The per-channel blend: the IEEE 754 single-precision midpoint
//! `(a + b) / 2` of two channels, taken and returned as raw bit patterns.
//!
//! The two arithmetic steps are carried out bit-exactly in software by
//! `rustc_apfloat`, reached through the two trusted wrappers below.  What
//! the library states about the midpoint goes through [`blend_spec`],
//! which pins down the algebraic facts the contracts rely on (symmetry in
//! the operands, and exact halving of a doubled value) and leaves the
//! numeric values themselves to the uninterpreted [`sum_bits`] and
//! [`quot_bits`].

use rustc_apfloat::Float;
use vstd::prelude::*;

verus! {

/// The single-precision bit pattern of the constant two, the divisor
/// that turns a channel sum into the midpoint.
pub const TWO_BITS: u32 = 0x4000_0000;

/// The biased exponent field of a single-precision bit pattern.
pub open spec fn exponent_bits(a: u32) -> u32 {
    (a >> 23) & 0xff
}

/// The fraction (mantissa) field of a single-precision bit pattern.
pub open spec fn fraction_bits(a: u32) -> u32 {
    a & 0x7f_ffff
}

/// Whether the bit pattern encodes a NaN.
pub open spec fn is_nan_bits(a: u32) -> bool {
    exponent_bits(a) == 0xff && fraction_bits(a) != 0
}

/// Whether the bit pattern encodes an infinity.
pub open spec fn is_infinity_bits(a: u32) -> bool {
    exponent_bits(a) == 0xff && fraction_bits(a) == 0
}

/// Whether doubling the encoded value and then halving the double gives
/// the value back exactly.  Doubling a finite value is exact unless it
/// overflows, which happens exactly when the biased exponent is already
/// at its largest finite setting; halving the exact double is again
/// exact.  An infinity also survives the round trip: its sum with itself
/// and the half of that sum are the same infinity.
pub open spec fn halves_exactly(a: u32) -> bool {
    exponent_bits(a) < 0xfe || is_infinity_bits(a)
}

/// The single-precision sum of two channels, as a pure function of the
/// two bit patterns.  Stating the rounded value in closed form is out of
/// reach here, so the function is given no body; the trusted
/// [`add_channels`] below ties it to the arithmetic.
pub uninterp spec fn sum_bits(a: u32, b: u32) -> u32;

/// The single-precision quotient of two channels, as a pure function of
/// the two bit patterns; the trusted [`div_channels`] below ties it to
/// the arithmetic.
pub uninterp spec fn quot_bits(a: u32, b: u32) -> u32;

/// The channel sum with its operands in a fixed order.  Addition does
/// not depend on the order of its operands as long as neither is a NaN
/// (a NaN operand's payload is carried through, so two distinct NaNs
/// break the symmetry), and [`add_channels`] promises exactly that, so
/// on NaN-free operands the sum may be spoken of in normalized form.
pub open spec fn sum_spec(a: u32, b: u32) -> u32 {
    if a <= b {
        sum_bits(a, b)
    } else {
        sum_bits(b, a)
    }
}

/// The midpoint of two channels: their sum, halved.  Equal channels
/// whose double stays finite give themselves back, and NaN-free pairs
/// blend the same whichever operand comes first.
pub open spec fn blend_spec(a: u32, b: u32) -> u32 {
    if a == b && halves_exactly(a) {
        a
    } else if !is_nan_bits(a) && !is_nan_bits(b) {
        quot_bits(sum_spec(a, b), TWO_BITS)
    } else {
        quot_bits(sum_bits(a, b), TWO_BITS)
    }
}

/// Relies on `rustc_apfloat::ieee::Single` addition, a bit-exact
/// software implementation of the IEEE 754 single-precision sum under
/// the default rounding: the result depends on the two operand bit
/// patterns alone; on NaN-free operands the sum is the same whichever
/// operand comes first (a sum of opposite infinities is the one default
/// NaN either way); and the sum of a value with itself, when it stays
/// finite, is exactly the doubled value, which division by two maps back
/// to the value itself.
#[verifier::external_body]
fn add_channels(a: u32, b: u32) -> (r: u32)
    ensures
        r == sum_bits(a, b),
        !is_nan_bits(a) && !is_nan_bits(b) ==> r == sum_spec(a, b),
        a == b && halves_exactly(a) ==> quot_bits(r, TWO_BITS) == a,
{
    let x = rustc_apfloat::ieee::Single::from_bits(a as u128);
    let y = rustc_apfloat::ieee::Single::from_bits(b as u128);
    (x + y).value.to_bits() as u32
}

/// Relies on `rustc_apfloat::ieee::Single` division, a bit-exact
/// software implementation of the IEEE 754 single-precision quotient
/// under the default rounding: the result depends on the two operand bit
/// patterns alone.
#[verifier::external_body]
fn div_channels(a: u32, b: u32) -> (r: u32)
    ensures
        r == quot_bits(a, b),
{
    let x = rustc_apfloat::ieee::Single::from_bits(a as u128);
    let y = rustc_apfloat::ieee::Single::from_bits(b as u128);
    (x / y).value.to_bits() as u32
}

/// The midpoint of two channels, computed as the sum halved.
pub fn blend_channels(a: u32, b: u32) -> (r: u32)
    ensures
        r == blend_spec(a, b),
{
    let total: u32 = add_channels(a, b);
    div_channels(total, TWO_BITS)
}

/// The blend of two NaN-free channels does not depend on the order of
/// its operands.
pub proof fn lemma_blend_spec_symmetric(a: u32, b: u32)
    requires
        !is_nan_bits(a),
        !is_nan_bits(b),
    ensures
        blend_spec(a, b) == blend_spec(b, a),
{
}

/// Blending a channel with itself gives it back, whenever its double
/// stays finite.
pub proof fn lemma_blend_spec_idempotent(a: u32)
    requires
        halves_exactly(a),
    ensures
        blend_spec(a, a) == a,
{
}

} // verus!
