//! Configuration types of the font importer.
//!
//! The rasterisation itself (glyph outlines to bitmaps, and bitmaps to
//! signed-distance fields) lives outside this core: it is floating-point
//! image processing on an outside rasteriser.

use vstd::prelude::*;

verus! {

/// Options for importing a font.
#[derive(Debug, Clone)]
pub struct FontOptions {
    /// Size at which glyphs are sampled before distance-field reduction.
    pub sdf_sample: u32,
    /// Size of the reduced distance-field tile.
    pub sdf_size: u32,
    /// Margin around each distance-field tile.
    pub sdf_margin: u16,
    /// Plain bitmap font sizes to generate alongside.
    pub bitmap_sizes: Vec<u32>,
}

/// Parameters of signed-distance-field generation for one font.
#[derive(Debug, Clone, Copy, PartialEq, Eq, Structural)]
pub struct Sdf {
    pub sample_size: u32,
    pub sdf_size: u32,
    pub sdf_margin: u16,
}

impl Sdf {
    /// Bundle the generation parameters.
    pub fn new(sample_size: u32, sdf_size: u32, sdf_margin: u16) -> (r: Sdf)
        ensures
            r == (Sdf { sample_size, sdf_size, sdf_margin }),
    {
        Sdf { sample_size, sdf_size, sdf_margin }
    }
}

} // verus!
