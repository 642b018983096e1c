//! The solid-colour generator: a raster of the fixed dimensions filled with
//! one colour everywhere.
use vstd::prelude::*;

use crate::fractal::HEIGHT;
use crate::fractal::WIDTH;
use crate::Rgb;

verus! {

/// A raster of exactly `WIDTH` times `HEIGHT` cells, every one of which
/// holds `colour`.
pub open spec fn is_solid_grid(s: Seq<Rgb>, colour: Rgb) -> bool {
    &&& s.len() == WIDTH * HEIGHT
    &&& forall|i: int| 0 <= i < s.len() ==> s[i] == colour
}

/// Fill the whole raster with the colour given by the three channel values.
pub fn solid_image(red: u8, green: u8, blue: u8) -> (img: Vec<Rgb>)
    ensures
        is_solid_grid(img@, Rgb { red, green, blue }),
{
    let total = WIDTH * HEIGHT;
    let mut img: Vec<Rgb> = Vec::new();
    let mut i: u32 = 0;
    while i < total
        invariant
            total == WIDTH * HEIGHT,
            i <= total,
            img@.len() == i,
            forall|j: int| 0 <= j < img@.len() ==> img@[j] == (Rgb { red, green, blue }),
        decreases total - i,
    {
        img.push(Rgb { red, green, blue });
        i = i + 1;
    }
    img
}

} // verus!
