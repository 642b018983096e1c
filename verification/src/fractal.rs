//! The escape-time fractal renderer: a deterministic raster of fixed
//! dimensions where every pixel's colour is a pure function of its
//! coordinates. Each pixel is mapped to a sample of the complex plane, the
//! map `z * z + c` is iterated from that sample until the iterate leaves the
//! escape radius or the iteration cap is reached, and the step count becomes
//! the green channel; red and blue are linear ramps in the column and row
//! index.
//!
//! All single-precision quantities are held as their 32-bit patterns and
//! every arithmetic step goes through `crate::ops`, so the contracts here pin
//! each channel down to the exact bit-level computation.
use vstd::arithmetic::div_mod::lemma_fundamental_div_mod_converse;
use vstd::prelude::*;

use crate::ops::complex_add;
use crate::ops::complex_add_bits;
use crate::ops::complex_mul;
use crate::ops::complex_mul_bits;
use crate::ops::complex_norm;
use crate::ops::complex_norm_bits;
use crate::ops::f32_div;
use crate::ops::f32_div_bits;
use crate::ops::f32_from_u32;
use crate::ops::f32_from_u32_bits;
use crate::ops::f32_le;
use crate::ops::f32_le_bits;
use crate::ops::f32_mul;
use crate::ops::f32_mul_bits;
use crate::ops::f32_sub;
use crate::ops::f32_sub_bits;
use crate::ops::u8_from_f32;
use crate::ops::u8_from_f32_bits;
use crate::Rgb;

verus! {

/// Number of pixel columns of the raster.
pub const WIDTH: u32 = 800;

/// Number of pixel rows of the raster.
pub const HEIGHT: u32 = 800;

/// Cap of the escape loop, and so the largest possible green value.
pub const MAX_ITER: u8 = 255;

/// Bit pattern of the single-precision value three: the side length of the
/// sampled square of the complex plane.
pub const SIDE_BITS: u32 = 0x4040_0000;

/// Bit pattern of the single-precision value eight hundred: the dimension
/// that the side length is divided by to get the sampling scale.
pub const DIM_BITS: u32 = 0x4448_0000;

/// Bit pattern of the single-precision value three halves: the offset that
/// centres the sampled square on the origin.
pub const HALF_SIDE_BITS: u32 = 0x3FC0_0000;

/// Bit pattern of the single-precision value two: the escape radius.
pub const ESCAPE_RADIUS_BITS: u32 = 0x4000_0000;

/// Bit pattern of the single-precision value three tenths: the slope of the
/// red and blue channel ramps.
pub const CHANNEL_SLOPE_BITS: u32 = 0x3E99_999A;

/// Bit pattern of the single-precision value minus two fifths: the real part
/// of the parameter `c` of the iterated map.
pub const C_RE_BITS: u32 = 0xBECC_CCCD;

/// Bit pattern of the single-precision value three fifths: the imaginary
/// part of the parameter `c` of the iterated map.
pub const C_IM_BITS: u32 = 0x3F19_999A;

/// The sampling scale: the side length divided by the dimension.
pub open spec fn scale_bits() -> u32 {
    f32_div_bits(SIDE_BITS, DIM_BITS)
}

/// The complex-plane sample of the pixel in column `x` and row `y`, as
/// (real bits, imaginary bits). The real part comes from the row index and
/// the imaginary part from the column index: the axes are deliberately
/// swapped, and the swap is part of the image's definition.
pub open spec fn seed_bits(x: u32, y: u32) -> (u32, u32) {
    (
        f32_sub_bits(f32_mul_bits(f32_from_u32_bits(y), scale_bits()), HALF_SIDE_BITS),
        f32_sub_bits(f32_mul_bits(f32_from_u32_bits(x), scale_bits()), HALF_SIDE_BITS),
    )
}

/// One step of the iterated map: `z * z + c`.
pub open spec fn step_bits(z: (u32, u32)) -> (u32, u32) {
    complex_add_bits(complex_mul_bits(z, z), (C_RE_BITS, C_IM_BITS))
}

/// Whether `z` still lies within the escape radius: its norm compares `<=`
/// to two.
pub open spec fn within_radius(z: (u32, u32)) -> bool {
    f32_le_bits(complex_norm_bits(z.0, z.1), ESCAPE_RADIUS_BITS)
}

/// How many steps the escape loop takes from `z` with `budget` steps left:
/// it stops as soon as the budget is spent or `z` leaves the escape radius.
pub open spec fn escape_steps(z: (u32, u32), budget: nat) -> nat
    decreases budget,
{
    if budget == 0 || !within_radius(z) {
        0
    } else {
        1 + escape_steps(step_bits(z), (budget - 1) as nat)
    }
}

/// The green channel of the pixel in column `x` and row `y`: the number of
/// steps the escape loop takes from the pixel's sample.
pub open spec fn green_spec(x: u32, y: u32) -> u8 {
    escape_steps(seed_bits(x, y), MAX_ITER as nat) as u8
}

/// The red channel of the pixel in column `x`: three tenths of `x`,
/// truncated to an integer.
pub open spec fn red_spec(x: u32) -> u8 {
    u8_from_f32_bits(f32_mul_bits(CHANNEL_SLOPE_BITS, f32_from_u32_bits(x)))
}

/// The blue channel of the pixel in row `y`: three tenths of `y`, truncated
/// to an integer.
pub open spec fn blue_spec(y: u32) -> u8 {
    u8_from_f32_bits(f32_mul_bits(CHANNEL_SLOPE_BITS, f32_from_u32_bits(y)))
}

/// The colour of the pixel in column `x` and row `y`.
pub open spec fn pixel_spec(x: u32, y: u32) -> Rgb {
    Rgb { red: red_spec(x), green: green_spec(x, y), blue: blue_spec(y) }
}

/// The finished raster: exactly `WIDTH` times `HEIGHT` cells in row-major
/// order (rows of `WIDTH` cells, `HEIGHT` rows), each holding the colour of
/// its coordinates.
pub open spec fn is_fractal_grid(s: Seq<Rgb>) -> bool {
    &&& s.len() == WIDTH * HEIGHT
    &&& forall|i: int|
        0 <= i < s.len() ==> s[i] == pixel_spec(
            (i % (WIDTH as int)) as u32,
            (i / (WIDTH as int)) as u32,
        )
}

/// The escape loop never takes more steps than its budget allows; with the
/// budget of `MAX_ITER`, every green value lies in `0 ..= MAX_ITER`.
pub proof fn lemma_escape_steps_bounded(z: (u32, u32), budget: nat)
    ensures
        escape_steps(z, budget) <= budget,
    decreases budget,
{
    if budget != 0 && within_radius(z) {
        lemma_escape_steps_bounded(step_bits(z), (budget - 1) as nat);
    }
}

/// The green channel is the exact escape count: the cast in `green_spec`
/// loses nothing, and the count never exceeds the iteration cap.
pub proof fn lemma_green_exact(x: u32, y: u32)
    ensures
        green_spec(x, y) as nat == escape_steps(seed_bits(x, y), MAX_ITER as nat),
        green_spec(x, y) <= MAX_ITER,
{
    lemma_escape_steps_bounded(seed_bits(x, y), MAX_ITER as nat);
}

/// Determinism: the grid description pins every cell down, so any two
/// rasters that satisfy it are equal.
pub proof fn lemma_grid_deterministic(a: Seq<Rgb>, b: Seq<Rgb>)
    requires
        is_fractal_grid(a),
        is_fractal_grid(b),
    ensures
        a == b,
{
    assert(a =~= b);
}

/// Reading the grid by coordinates: the cell of the pixel in column `x` and
/// row `y` stands at index `y * WIDTH + x`.
pub proof fn lemma_grid_pixel(s: Seq<Rgb>, x: u32, y: u32)
    requires
        is_fractal_grid(s),
        x < WIDTH,
        y < HEIGHT,
    ensures
        s[y as int * WIDTH as int + x as int] == pixel_spec(x, y),
{
    let i = y as int * WIDTH as int + x as int;
    lemma_fundamental_div_mod_converse(i, WIDTH as int, y as int, x as int);
}

/// The complex-plane sample of the pixel in column `x` and row `y`.
fn seed(x: u32, y: u32) -> (r: (u32, u32))
    ensures
        r == seed_bits(x, y),
{
    let s = f32_div(SIDE_BITS, DIM_BITS);
    let re = f32_sub(f32_mul(f32_from_u32(y), s), HALF_SIDE_BITS);
    let im = f32_sub(f32_mul(f32_from_u32(x), s), HALF_SIDE_BITS);
    (re, im)
}

/// One step of the iterated map.
fn step(zr: u32, zi: u32) -> (r: (u32, u32))
    ensures
        r == step_bits((zr, zi)),
{
    let m = complex_mul(zr, zi, zr, zi);
    complex_add(m.0, m.1, C_RE_BITS, C_IM_BITS)
}

/// Whether `z` still lies within the escape radius.
fn check_within(zr: u32, zi: u32) -> (r: bool)
    ensures
        r == within_radius((zr, zi)),
{
    let n = complex_norm(zr, zi);
    f32_le(n, ESCAPE_RADIUS_BITS)
}

/// The escape loop: iterate the map from the sample `(sr, si)` and count the
/// steps taken before the iterate leaves the escape radius, up to the cap.
fn escape_green(sr: u32, si: u32) -> (green: u8)
    ensures
        green as nat == escape_steps((sr, si), MAX_ITER as nat),
{
    let mut zr = sr;
    let mut zi = si;
    let mut green: u8 = 0;
    let mut within = check_within(zr, zi);
    while green < MAX_ITER && within
        invariant
            green <= MAX_ITER,
            within == within_radius((zr, zi)),
            escape_steps((sr, si), MAX_ITER as nat) == green + escape_steps(
                (zr, zi),
                (MAX_ITER - green) as nat,
            ),
        decreases MAX_ITER - green,
    {
        assert(escape_steps((zr, zi), (MAX_ITER - green) as nat) == 1 + escape_steps(
            step_bits((zr, zi)),
            (MAX_ITER - green - 1) as nat,
        ));
        let w = step(zr, zi);
        zr = w.0;
        zi = w.1;
        green = green + 1;
        within = check_within(zr, zi);
    }
    assert(escape_steps((zr, zi), (MAX_ITER - green) as nat) == 0);
    green
}

/// The colour of the pixel in column `x` and row `y`: a pure function of the
/// coordinates alone.
pub fn fractal_pixel(x: u32, y: u32) -> (p: Rgb)
    ensures
        p == pixel_spec(x, y),
{
    let s = seed(x, y);
    let green = escape_green(s.0, s.1);
    let red = u8_from_f32(f32_mul(CHANNEL_SLOPE_BITS, f32_from_u32(x)));
    let blue = u8_from_f32(f32_mul(CHANNEL_SLOPE_BITS, f32_from_u32(y)));
    proof {
        lemma_green_exact(x, y);
    }
    Rgb { red, green, blue }
}

/// Render the whole raster: `HEIGHT` rows of `WIDTH` pixels in row-major
/// order, each cell the colour of its coordinates.
pub fn render() -> (img: Vec<Rgb>)
    ensures
        is_fractal_grid(img@),
{
    let mut img: Vec<Rgb> = Vec::new();
    let mut y: u32 = 0;
    while y < HEIGHT
        invariant
            y <= HEIGHT,
            img@.len() == y * WIDTH,
            forall|i: int|
                0 <= i < img@.len() ==> img@[i] == pixel_spec(
                    (i % (WIDTH as int)) as u32,
                    (i / (WIDTH as int)) as u32,
                ),
        decreases HEIGHT - y,
    {
        let mut x: u32 = 0;
        while x < WIDTH
            invariant
                x <= WIDTH,
                y < HEIGHT,
                img@.len() == y * WIDTH + x,
                forall|i: int|
                    0 <= i < img@.len() ==> img@[i] == pixel_spec(
                        (i % (WIDTH as int)) as u32,
                        (i / (WIDTH as int)) as u32,
                    ),
            decreases WIDTH - x,
        {
            let p = fractal_pixel(x, y);
            img.push(p);
            proof {
                lemma_fundamental_div_mod_converse(
                    y as int * WIDTH as int + x as int,
                    WIDTH as int,
                    y as int,
                    x as int,
                );
            }
            x = x + 1;
        }
        y = y + 1;
    }
    img
}

} // verus!
