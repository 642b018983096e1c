//! Trusted wrappers around the single-precision arithmetic that the renderer
//! uses. Verified code never holds a floating-point value: every quantity
//! travels as the 32-bit pattern of the single-precision number it stands
//! for, and each arithmetic step is a call into one of the wrappers below.
//! Each wrapper's result is a pure function of its argument bits, so it is
//! named by an uninterpreted spec function; the renderer's contracts are
//! stated over those names.
//!
//! Inside the wrapper bodies, `num_complex::Complex32` carries the
//! floating-point operands, and `bytemuck::cast` turns a bit pattern into
//! the number it encodes (the two have the same size, so the cast cannot
//! fail).
use vstd::prelude::*;

verus! {

/// The bit pattern of `x` converted to the nearest single-precision number.
pub uninterp spec fn f32_from_u32_bits(x: u32) -> u32;

/// The bit pattern of the single-precision product of the numbers with bit
/// patterns `a` and `b`.
pub uninterp spec fn f32_mul_bits(a: u32, b: u32) -> u32;

/// The bit pattern of the single-precision difference of the numbers with
/// bit patterns `a` and `b`.
pub uninterp spec fn f32_sub_bits(a: u32, b: u32) -> u32;

/// The bit pattern of the single-precision quotient of the numbers with bit
/// patterns `a` and `b`.
pub uninterp spec fn f32_div_bits(a: u32, b: u32) -> u32;

/// Whether the number with bit pattern `a` compares `<=` to the number with
/// bit pattern `b` (false whenever either is a NaN).
pub uninterp spec fn f32_le_bits(a: u32, b: u32) -> bool;

/// The value of the number with bit pattern `a` cast to `u8`: truncated
/// toward zero and saturated to the range of `u8`.
pub uninterp spec fn u8_from_f32_bits(a: u32) -> u8;

/// The bit patterns of the real and imaginary parts of the complex product
/// of `a` and `b`, each given as (real bits, imaginary bits).
pub uninterp spec fn complex_mul_bits(a: (u32, u32), b: (u32, u32)) -> (u32, u32);

/// The bit patterns of the real and imaginary parts of the complex sum of
/// `a` and `b`, each given as (real bits, imaginary bits).
pub uninterp spec fn complex_add_bits(a: (u32, u32), b: (u32, u32)) -> (u32, u32);

/// The bit pattern of the Euclidean norm of the complex number whose parts
/// have bit patterns `re` and `im`.
pub uninterp spec fn complex_norm_bits(re: u32, im: u32) -> u32;

/// Relies on std's integer-to-float cast: the nearest single-precision
/// value, a pure function of `x`. Never panics.
#[verifier::external_body]
pub(crate) fn f32_from_u32(x: u32) -> (r: u32)
    ensures
        r == f32_from_u32_bits(x),
{
    let v = num_complex::Complex32::new(x as _, x as _);
    v.re.to_bits()
}

/// Relies on std's single-precision multiplication: correctly rounded, a
/// pure function of the argument bits. Never panics.
#[verifier::external_body]
pub(crate) fn f32_mul(a: u32, b: u32) -> (r: u32)
    ensures
        r == f32_mul_bits(a, b),
{
    let v = num_complex::Complex32::new(bytemuck::cast(a), bytemuck::cast(b));
    (v.re * v.im).to_bits()
}

/// Relies on std's single-precision subtraction: correctly rounded, a pure
/// function of the argument bits. Never panics.
#[verifier::external_body]
pub(crate) fn f32_sub(a: u32, b: u32) -> (r: u32)
    ensures
        r == f32_sub_bits(a, b),
{
    let v = num_complex::Complex32::new(bytemuck::cast(a), bytemuck::cast(b));
    (v.re - v.im).to_bits()
}

/// Relies on std's single-precision division: correctly rounded, a pure
/// function of the argument bits. Never panics.
#[verifier::external_body]
pub(crate) fn f32_div(a: u32, b: u32) -> (r: u32)
    ensures
        r == f32_div_bits(a, b),
{
    let v = num_complex::Complex32::new(bytemuck::cast(a), bytemuck::cast(b));
    (v.re / v.im).to_bits()
}

/// Relies on std's single-precision `<=` comparison: the standard ordered
/// comparison, a pure function of the argument bits. Never panics.
#[verifier::external_body]
pub(crate) fn f32_le(a: u32, b: u32) -> (r: bool)
    ensures
        r == f32_le_bits(a, b),
{
    let v = num_complex::Complex32::new(bytemuck::cast(a), bytemuck::cast(b));
    v.re <= v.im
}

/// Relies on std's float-to-integer cast: truncation toward zero saturated
/// to `0..=255`, a pure function of the argument bits. Never panics.
#[verifier::external_body]
pub(crate) fn u8_from_f32(a: u32) -> (r: u8)
    ensures
        r == u8_from_f32_bits(a),
{
    let v = num_complex::Complex32::new(bytemuck::cast(a), bytemuck::cast(a));
    v.re as u8
}

/// Relies on `Mul` for `num_complex::Complex32`:
/// `(a.re*b.re - a.im*b.im, a.re*b.im + a.im*b.re)` in single precision, a
/// pure function of the argument bits. Never panics.
#[verifier::external_body]
pub(crate) fn complex_mul(ar: u32, ai: u32, br: u32, bi: u32) -> (r: (u32, u32))
    ensures
        r == complex_mul_bits((ar, ai), (br, bi)),
{
    let a = num_complex::Complex32::new(bytemuck::cast(ar), bytemuck::cast(ai));
    let b = num_complex::Complex32::new(bytemuck::cast(br), bytemuck::cast(bi));
    let p = a * b;
    (p.re.to_bits(), p.im.to_bits())
}

/// Relies on `Add` for `num_complex::Complex32`: componentwise
/// single-precision addition, a pure function of the argument bits.
/// Never panics.
#[verifier::external_body]
pub(crate) fn complex_add(ar: u32, ai: u32, br: u32, bi: u32) -> (r: (u32, u32))
    ensures
        r == complex_add_bits((ar, ai), (br, bi)),
{
    let a = num_complex::Complex32::new(bytemuck::cast(ar), bytemuck::cast(ai));
    let b = num_complex::Complex32::new(bytemuck::cast(br), bytemuck::cast(bi));
    let s = a + b;
    (s.re.to_bits(), s.im.to_bits())
}

/// Relies on `num_complex::Complex32::norm`, which computes
/// `self.re.hypot(self.im)`: the Euclidean norm in single precision, a pure
/// function of the argument bits. Never panics.
#[verifier::external_body]
pub(crate) fn complex_norm(re: u32, im: u32) -> (r: u32)
    ensures
        r == complex_norm_bits(re, im),
{
    let z = num_complex::Complex32::new(bytemuck::cast(re), bytemuck::cast(im));
    z.norm().to_bits()
}

} // verus!
