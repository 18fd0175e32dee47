//! Pixel colors: a generic three-channel triple.

use vstd::prelude::*;

verus! {

/// An RGB color with one value per channel.
///
/// The channel type is generic: the renderer accumulates radiance in a
/// floating-point channel type of its own and narrows to `u8` for the
/// framebuffer that is serialized.
#[derive(Clone, Copy, PartialEq, Eq, Structural)]
pub struct RGB<C> {
    pub r: C,
    pub g: C,
    pub b: C,
}

/// The 8-bit color triple stored in the framebuffer that is written out.
pub type RGBu8 = RGB<u8>;

impl<C> RGB<C> {
    /// Packs three channel values into a color.
    pub fn new(r: C, g: C, b: C) -> (c: Self)
        ensures
            c == (RGB { r, g, b }),
    {
        Self { r, g, b }
    }
}

impl RGB<u8> {
    /// The color with every channel at zero.
    pub fn black() -> (c: Self)
        ensures
            c == (RGB { r: 0u8, g: 0u8, b: 0u8 }),
    {
        Self { r: 0, g: 0, b: 0 }
    }
}

} // verus!
