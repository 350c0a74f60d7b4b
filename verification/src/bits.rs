//! Bit-pattern model of the asset's float data, and the trusted wrappers
//! around the float operations the resampler needs.
//!
//! A timestamp or component is a `u32` holding the bits of an IEEE-754
//! single-precision value. The uninterpreted spec functions below name the
//! results of the float operations. IEEE-754 fixes each operation's value,
//! but Rust leaves a NaN result's sign and payload bits unspecified, so the
//! wrappers promise the names only up to the canonical NaN form (exactly on
//! non-NaN results), plus the few exact facts that the operations'
//! documentation gives; the resampler canonicalizes every computed float it
//! stores or feeds onward. glam's quaternion interpolation rounds
//! differently across backends and gets no name at all.

use vstd::prelude::*;

verus! {

/// Bits of 1.0f32.
pub const ONE_BITS: u32 = 0x3F80_0000;

/// Bits of f32::MAX, the starting value of the minimum-gap scan.
pub const MAX_FINITE_BITS: u32 = 0x7F7F_FFFF;

/// A finite value: the exponent field is not all ones (not infinite, not NaN).
pub open spec fn finite_bits(x: u32) -> bool {
    x & 0x7F80_0000 != 0x7F80_0000
}

/// A strictly positive finite value: sign bit clear, not zero, below +infinity.
pub open spec fn positive_finite_bits(x: u32) -> bool {
    0 < x < 0x7F80_0000
}

/// Finite and not negative zero: adding positive or negative zero to such a
/// value, or scaling it by one, returns it unchanged.
pub open spec fn regular_bits(x: u32) -> bool {
    finite_bits(x) && x != 0x8000_0000
}

/// A 3-vector held as component bit patterns.
#[derive(Clone, Copy, Debug, PartialEq, Eq, Structural)]
pub struct Vec3Bits {
    pub x: u32,
    pub y: u32,
    pub z: u32,
}

/// A quaternion held as component bit patterns.
#[derive(Clone, Copy, Debug, PartialEq, Eq, Structural)]
pub struct QuatBits {
    pub x: u32,
    pub y: u32,
    pub z: u32,
    pub w: u32,
}

/// The zero vector, the identity for translation channels.
pub open spec fn vec3_zero() -> Vec3Bits {
    Vec3Bits { x: 0, y: 0, z: 0 }
}

/// The all-ones vector, the identity for scale channels.
pub open spec fn vec3_one() -> Vec3Bits {
    Vec3Bits { x: ONE_BITS, y: ONE_BITS, z: ONE_BITS }
}

/// The identity quaternion.
pub open spec fn quat_identity() -> QuatBits {
    QuatBits { x: 0, y: 0, z: 0, w: ONE_BITS }
}

pub open spec fn vec3_finite(v: Vec3Bits) -> bool {
    finite_bits(v.x) && finite_bits(v.y) && finite_bits(v.z)
}

pub open spec fn vec3_regular(v: Vec3Bits) -> bool {
    regular_bits(v.x) && regular_bits(v.y) && regular_bits(v.z)
}

/// A NaN: all-ones exponent field with a nonzero mantissa.
pub open spec fn nan_bits(x: u32) -> bool {
    x & 0x7F80_0000 == 0x7F80_0000 && x & 0x007F_FFFF != 0
}

/// The canonical form of a computed value: any NaN collapses to the
/// canonical quiet NaN. IEEE-754 fixes the value an f32 operation returns,
/// but Rust leaves a NaN result's sign and payload bits unspecified (they
/// may differ between runs and targets), so only the canonical form of such
/// a result is one function of the operand bits.
pub open spec fn canon_bits(x: u32) -> u32 {
    if nan_bits(x) {
        0x7FC0_0000u32
    } else {
        x
    }
}

/// The canonical form of each component of a vector.
pub open spec fn canon_vec3(v: Vec3Bits) -> Vec3Bits {
    Vec3Bits { x: canon_bits(v.x), y: canon_bits(v.y), z: canon_bits(v.z) }
}

/// Bits strictly below the positive-infinity pattern have an exponent field
/// that is not all ones, so they are finite.
pub(crate) proof fn lemma_small_bits_finite(x: u32)
    requires
        x < 0x7F80_0000,
    ensures
        finite_bits(x),
{
    assert(x < 0x7F80_0000 ==> x & 0x7F80_0000 != 0x7F80_0000) by (bit_vector);
}

/// A finite value is not a NaN, so canonicalization leaves it unchanged.
pub(crate) proof fn lemma_canon_finite(x: u32)
    requires
        finite_bits(x),
    ensures
        canon_bits(x) == x,
{
}

/// Collapses a NaN into its canonical quiet form, so that a stored result is
/// the same bit pattern on every run; anything else passes through
/// unchanged.
pub(crate) fn canonicalize(x: u32) -> (r: u32)
    ensures
        r == canon_bits(x),
{
    if x & 0x7F80_0000 == 0x7F80_0000 && x & 0x007F_FFFF != 0 {
        0x7FC0_0000
    } else {
        x
    }
}

/// Collapses each NaN component of a vector into its canonical quiet form.
pub(crate) fn canonicalize_vec3(v: Vec3Bits) -> (r: Vec3Bits)
    ensures
        r == canon_vec3(v),
{
    Vec3Bits { x: canonicalize(v.x), y: canonicalize(v.y), z: canonicalize(v.z) }
}

/// The fixed-point key of a timestamp: its value scaled by 100000 and
/// truncated to an integer, a function of the bits alone.
pub uninterp spec fn precision_key_of(t: u32) -> i32;

/// Quantizes a timestamp into a comparable integer key, so that a grid time
/// and a source time that should be equal in value get one key.
///
/// Relies on bytemuck's bit cast and glam's component arithmetic: the value
/// times 100000, truncated by the saturating float-to-integer `as` cast — an
/// exact, panic-free function of the operand bits.
#[verifier::external_body]
pub(crate) fn into_precision(x: u32) -> (r: i32)
    ensures
        r == precision_key_of(x),
{
    let v: glam::Vec3 = bytemuck::cast([x, 0, 0]);
    let scale = glam::UVec3::splat(100_000).as_vec3();
    (v.x * scale.x) as i32
}

/// The bits of the f32 difference `a - b`.
pub uninterp spec fn sub_bits(a: u32, b: u32) -> u32;

/// Relies on bytemuck's bit casts and IEEE-754 f32 subtraction on one glam
/// component. The difference's value is fixed by the operand bits, but a NaN
/// result's payload bits are not (Rust's f32 NaN rules), so the exact bits
/// are named only up to the canonical NaN form; finite operands never
/// subtract to a NaN, and there the result is named outright.
#[verifier::external_body]
pub(crate) fn f32_sub(a: u32, b: u32) -> (r: u32)
    ensures
        canon_bits(r) == canon_bits(sub_bits(a, b)),
        finite_bits(a) && finite_bits(b) ==> r == sub_bits(a, b) && !nan_bits(r),
{
    let va: glam::Vec3 = bytemuck::cast([a, 0, 0]);
    let vb: glam::Vec3 = bytemuck::cast([b, 0, 0]);
    (va.x - vb.x).to_bits()
}

/// Whether the f32 value of `a` is strictly below that of `b`.
pub uninterp spec fn lt_bits(a: u32, b: u32) -> bool;

/// Relies on bytemuck's bit casts and the IEEE-754 f32 ordering of one glam
/// component: an exact function of the operand bits.
#[verifier::external_body]
pub(crate) fn f32_lt(a: u32, b: u32) -> (r: bool)
    ensures
        r == lt_bits(a, b),
{
    let va: glam::Vec3 = bytemuck::cast([a, 0, 0]);
    let vb: glam::Vec3 = bytemuck::cast([b, 0, 0]);
    va.x < vb.x
}

/// The bits of the f32 quotient `a / b`.
pub uninterp spec fn div_bits(a: u32, b: u32) -> u32;

/// Relies on bytemuck's bit casts and IEEE-754 f32 division on one glam
/// component. The quotient's value is fixed by the operand bits, but a NaN
/// result's payload bits are not, so the exact bits are named only up to the
/// canonical NaN form; a finite value over a positive finite one never
/// divides to a NaN, and there the result is named outright. IEEE-754
/// further gives two exact cases: positive zero divided by a positive finite
/// value is positive zero, and a nonzero finite value divided by itself is
/// exactly one.
#[verifier::external_body]
pub(crate) fn f32_div(a: u32, b: u32) -> (r: u32)
    ensures
        canon_bits(r) == canon_bits(div_bits(a, b)),
        finite_bits(a) && positive_finite_bits(b) ==> r == div_bits(a, b) && !nan_bits(r),
        a == 0 && positive_finite_bits(b) ==> r == 0,
        a == b && positive_finite_bits(a) ==> r == ONE_BITS,
{
    let va: glam::Vec3 = bytemuck::cast([a, 0, 0]);
    let vb: glam::Vec3 = bytemuck::cast([b, 0, 0]);
    (va.x / vb.x).to_bits()
}

/// The bits of the f32 product `a * b`.
pub uninterp spec fn mul_bits(a: u32, b: u32) -> u32;

/// Relies on bytemuck's bit casts and IEEE-754 f32 multiplication on one
/// glam component. The product's value is fixed by the operand bits, but a
/// NaN result's payload bits are not, so the exact bits are named only up to
/// the canonical NaN form; finite operands never multiply to a NaN, and
/// there the result is named outright.
#[verifier::external_body]
pub(crate) fn f32_mul(a: u32, b: u32) -> (r: u32)
    ensures
        canon_bits(r) == canon_bits(mul_bits(a, b)),
        finite_bits(a) && finite_bits(b) ==> r == mul_bits(a, b) && !nan_bits(r),
{
    let va: glam::Vec3 = bytemuck::cast([a, 0, 0]);
    let vb: glam::Vec3 = bytemuck::cast([b, 0, 0]);
    (va.x * vb.x).to_bits()
}

/// The bits of `i as f32`.
pub uninterp spec fn f32_bits_of_usize(i: usize) -> u32;

/// Relies on glam's integer-to-float component cast, which rounds to the
/// nearest representable value: zero casts to positive zero, and any positive
/// integer (all are far below f32's maximum) casts to a positive finite
/// value.
#[verifier::external_body]
pub(crate) fn usize_to_f32_bits(i: usize) -> (r: u32)
    ensures
        r == f32_bits_of_usize(i),
        i == 0 ==> r == 0,
        1 <= i ==> positive_finite_bits(r),
{
    glam::U64Vec3::new(i as u64, 0, 0).as_vec3().x.to_bits()
}

/// The value of `x` rounded to the nearest integer and cast to usize.
pub uninterp spec fn round_to_usize_of(x: u32) -> usize;

/// Relies on bytemuck's bit cast, f32::round, and the saturating
/// float-to-integer `as` cast (negative or NaN to zero, too large to
/// usize::MAX): panic-free.
#[verifier::external_body]
pub(crate) fn f32_round_to_usize(x: u32) -> (r: usize)
    ensures
        r == round_to_usize_of(x),
{
    let v: glam::Vec3 = bytemuck::cast([x, 0, 0]);
    v.x.round() as usize
}

/// The bits of glam's `Vec3::lerp(a, b, t)`.
pub uninterp spec fn vec3_lerp_bits(a: Vec3Bits, b: Vec3Bits, t: u32) -> Vec3Bits;

/// Relies on bytemuck's bit casts and glam's Vec3::lerp, computed per
/// component as `a * (1 - t) + b * t` with scalar arithmetic on every
/// target. Each component's value is fixed by the operand bits, but a NaN
/// component's payload bits are not, so the result is named only up to the
/// canonical NaN form. glam further documents the endpoints: the result is
/// `a` at `t == 0.0` and `b` at `t == 1.0`; those two facts are stated for
/// finite operands free of negative zero, where the formula reproduces the
/// endpoint bit for bit.
#[verifier::external_body]
pub(crate) fn vec3_lerp(a: Vec3Bits, b: Vec3Bits, t: u32) -> (r: Vec3Bits)
    ensures
        canon_vec3(r) == canon_vec3(vec3_lerp_bits(a, b, t)),
        t == 0 && vec3_regular(a) && vec3_finite(b) ==> r == a,
        t == ONE_BITS && vec3_finite(a) && vec3_regular(b) ==> r == b,
{
    let va: glam::Vec3 = bytemuck::cast([a.x, a.y, a.z]);
    let vb: glam::Vec3 = bytemuck::cast([b.x, b.y, b.z]);
    let vt: glam::Vec3 = bytemuck::cast([t, 0, 0]);
    let r: [u32; 3] = bytemuck::cast(va.lerp(vb, vt.x));
    Vec3Bits { x: r[0], y: r[1], z: r[2] }
}

/// Relies on bytemuck's bit casts and glam's Quat::lerp: a normalized linear
/// interpolation that flips the sign of `b` when the dot product is negative
/// (shortest path). Its rounding differs between glam's scalar and SIMD
/// backends — the dot product is summed in different orders, and the sign
/// flip differs on a negative-zero dot — so the same operand bits can give
/// different result bits on different targets, and nothing is promised of
/// the result. glam's own input assertions are disabled in default builds,
/// so the call does not panic.
#[verifier::external_body]
pub(crate) fn quat_lerp(a: QuatBits, b: QuatBits, t: u32) -> (r: QuatBits) {
    let qa: glam::Quat = bytemuck::cast([a.x, a.y, a.z, a.w]);
    let qb: glam::Quat = bytemuck::cast([b.x, b.y, b.z, b.w]);
    let vt: glam::Vec3 = bytemuck::cast([t, 0, 0]);
    let r: [u32; 4] = bytemuck::cast(qa.lerp(qb, vt.x));
    QuatBits { x: r[0], y: r[1], z: r[2], w: r[3] }
}

} // verus!
