//! Verified raster generators: an escape-time fractal and a solid-colour
//! fill, each producing a fixed 800 by 800 grid of RGB cells whose contents
//! the contracts pin down cell by cell.
use vstd::prelude::*;

pub mod fractal;
pub mod ops;
pub mod solid;

verus! {

/// One cell of the raster: an ordered triple of 8-bit channel intensities.
#[derive(Clone, Copy, Debug, PartialEq, Eq, Structural)]
pub struct Rgb {
    pub red: u8,
    pub green: u8,
    pub blue: u8,
}

} // verus!
