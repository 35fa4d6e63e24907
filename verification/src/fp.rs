//! Scalar operations on IEEE-754 single-precision bit patterns.
//!
//! Every scalar in this crate's mesh types is stored as the `u32` bit
//! pattern of a single-precision value, so that the structural builder
//! logic can be verified exactly. The arithmetic itself is delegated to
//! the numeric hardware through the trusted functions below.
//!
//! Each basic operation is exactly rounded by the IEEE-754 standard, so
//! away from NaN its result is a pure, machine-independent function of
//! the argument bits. The bit pattern of a NaN result, however, is not:
//! it differs between architectures and may even differ between a
//! constant-folded and an executed call. Whether a result is NaN *is*
//! deterministic, so each trusted operation returns every NaN result as
//! the one canonical quiet-NaN pattern [`NAN_FP`]; only then is the
//! result a function of the argument bits, which is what the
//! uninterpreted names beside the trusted functions claim.

use vstd::prelude::*;

verus! {

/// Bit pattern of the single-precision value nearest to two pi, the full
/// turn used by the polygon builder: twice the value that the standard
/// library names PI at this width (doubling only raises the exponent, so
/// this is exact).
pub const TWO_PI_FP: u32 = 0x40C9_0FDB;

/// Bit pattern of positive zero.
pub const ZERO_FP: u32 = 0;

/// The canonical quiet-NaN bit pattern. Every trusted operation returns
/// its NaN results as this pattern, because the hardware's NaN payload
/// bits are not deterministic.
pub const NAN_FP: u32 = 0x7FC0_0000;

/// Whether `a` is the bit pattern of a NaN: exponent bits all ones and a
/// nonzero mantissa.
pub open spec fn fp_is_nan(a: u32) -> bool {
    ((a >> 23) & 0xff) == 0xff && (a & 0x7f_ffff) != 0
}

/// The sum of the single-precision values with bit patterns `a` and `b`,
/// with a NaN result canonicalized to [`NAN_FP`].
pub uninterp spec fn fp_add(a: u32, b: u32) -> u32;

/// The difference of the single-precision values with bit patterns `a`
/// and `b`, with a NaN result canonicalized to [`NAN_FP`].
pub uninterp spec fn fp_sub(a: u32, b: u32) -> u32;

/// The product of the single-precision values with bit patterns `a` and
/// `b`, with a NaN result canonicalized to [`NAN_FP`].
pub uninterp spec fn fp_mul(a: u32, b: u32) -> u32;

/// The quotient of the single-precision values with bit patterns `a` and
/// `b`, with a NaN result canonicalized to [`NAN_FP`].
pub uninterp spec fn fp_div(a: u32, b: u32) -> u32;

/// The single-precision value nearest to the integer `n`, by its bit
/// pattern. Always finite, never NaN.
pub uninterp spec fn fp_of_usize(n: usize) -> u32;

/// Negating a single-precision value flips exactly its sign bit.
pub open spec fn fp_neg(a: u32) -> u32 {
    a ^ 0x8000_0000
}

/// Negation of the single-precision value with bit pattern `a`. This is the
/// one numeric operation simple enough to implement directly: it flips the
/// sign bit and touches nothing else.
pub fn neg_fp(a: u32) -> (r: u32)
    ensures
        r == fp_neg(a),
{
    a ^ 0x8000_0000
}

/// The four bytes of `x` in little-endian order: the order in which the
/// mesh upload hands each packed scalar to the graphics buffer.
pub open spec fn le_bytes(x: u32) -> Seq<u8> {
    seq![
        (x & 0xff) as u8,
        ((x >> 8) & 0xff) as u8,
        ((x >> 16) & 0xff) as u8,
        ((x >> 24) & 0xff) as u8,
    ]
}

/// Appends the four little-endian bytes of `x`.
pub fn push_le(out: &mut Vec<u8>, x: u32)
    ensures
        final(out)@ == old(out)@ + le_bytes(x),
        final(out)@.len() == old(out)@.len() + 4,
{
    proof {
        assert(x & 0xff < 256 && (x >> 8) & 0xff < 256 && (x >> 16) & 0xff < 256 && (x >> 24)
            & 0xff < 256) by (bit_vector);
    }
    out.push((x & 0xff) as u8);
    out.push(((x >> 8) & 0xff) as u8);
    out.push(((x >> 16) & 0xff) as u8);
    out.push(((x >> 24) & 0xff) as u8);
    proof {
        assert(out@ =~= old(out)@ + le_bytes(x));
    }
}

/// Relies on the standard `+` of two single-precision values, which is
/// exactly rounded; a NaN result, whose payload bits the hardware does not
/// fix, is returned canonicalized. The values are reached through a
/// `minvect::Vec2`; `bytemuck::cast` reinterprets each stored bit pattern
/// as the value it encodes.
#[verifier::external_body]
pub(crate) fn add_fp(a: u32, b: u32) -> (r: u32)
    ensures
        r == fp_add(a, b),
        fp_is_nan(r) ==> r == NAN_FP,
{
    let v = minvect::vec2(bytemuck::cast(a), bytemuck::cast(b));
    let r = v.x + v.y;
    if r.is_nan() { NAN_FP } else { r.to_bits() }
}

/// Relies on the standard `-` of two single-precision values, which is
/// exactly rounded; a NaN result is returned canonicalized.
#[verifier::external_body]
pub(crate) fn sub_fp(a: u32, b: u32) -> (r: u32)
    ensures
        r == fp_sub(a, b),
        fp_is_nan(r) ==> r == NAN_FP,
{
    let v = minvect::vec2(bytemuck::cast(a), bytemuck::cast(b));
    let r = v.x - v.y;
    if r.is_nan() { NAN_FP } else { r.to_bits() }
}

/// Relies on the standard `*` of two single-precision values, which is
/// exactly rounded; a NaN result is returned canonicalized.
#[verifier::external_body]
pub(crate) fn mul_fp(a: u32, b: u32) -> (r: u32)
    ensures
        r == fp_mul(a, b),
        fp_is_nan(r) ==> r == NAN_FP,
{
    let v = minvect::vec2(bytemuck::cast(a), bytemuck::cast(b));
    let r = v.x * v.y;
    if r.is_nan() { NAN_FP } else { r.to_bits() }
}

/// Relies on the standard `/` of two single-precision values, which is
/// exactly rounded (a zero divisor yields an infinity or NaN, never a
/// panic); a NaN result is returned canonicalized.
#[verifier::external_body]
pub(crate) fn div_fp(a: u32, b: u32) -> (r: u32)
    ensures
        r == fp_div(a, b),
        fp_is_nan(r) ==> r == NAN_FP,
{
    let v = minvect::vec2(bytemuck::cast(a), bytemuck::cast(b));
    let r = v.x / v.y;
    if r.is_nan() { NAN_FP } else { r.to_bits() }
}

/// Relies on `str::parse` over the decimal digits of `n`: parsing rounds to
/// the nearest representable single-precision value, the same value the
/// numeric cast of `n` would give, and never a NaN.
#[verifier::external_body]
pub(crate) fn of_usize_fp(n: usize) -> (r: u32)
    ensures
        r == fp_of_usize(n),
{
    let s = format!("{}", n);
    minvect::vec2(s.parse().unwrap(), s.parse().unwrap()).x.to_bits()
}

/// Relies on the standard `cos` of a single-precision value. Its
/// documentation warns that the precision may differ between platforms, so
/// nothing is promised of the result; callers state what holds of every
/// outcome.
#[verifier::external_body]
pub(crate) fn cos_fp(a: u32) -> u32 {
    let v = minvect::vec2(bytemuck::cast(a), bytemuck::cast(a));
    v.x.cos().to_bits()
}

/// Relies on the standard `sin` of a single-precision value. As with the
/// cosine, nothing is promised of the result.
#[verifier::external_body]
pub(crate) fn sin_fp(a: u32) -> u32 {
    let v = minvect::vec2(bytemuck::cast(a), bytemuck::cast(a));
    v.x.sin().to_bits()
}

} // verus!
