//! 24-bit RGB colour.

use vstd::prelude::*;
use crate::lcd::lcd_colors::{rgb565, spec_rgb565};

verus! {

/// A colour with 8 bits per channel.
#[derive(Clone, Copy, Debug, PartialEq, Eq, Structural)]
pub struct Color {
    pub r: u8,
    pub g: u8,
    pub b: u8,
}

impl Color {
    pub fn new(r: u8, g: u8, b: u8) -> (c: Color)
        ensures
            c == (Color { r, g, b }),
    {
        Color { r, g, b }
    }

    pub open spec fn spec_to_rgb565(self) -> u16 {
        spec_rgb565(self.r, self.g, self.b)
    }

    /// The colour packed as RGB565.
    pub fn to_rgb565(&self) -> (c: u16)
        ensures
            c == self.spec_to_rgb565(),
    {
        rgb565(self.r, self.g, self.b)
    }
}

/// A colour packs as RGB565 with the top bits of red highest, then green,
/// then blue.
pub proof fn lemma_color_packing(c: Color)
    ensures
        c.spec_to_rgb565() == spec_rgb565(c.r, c.g, c.b),
        c.spec_to_rgb565() / 2048 == c.r / 8,
        (c.spec_to_rgb565() / 32) % 64 == c.g / 4,
        c.spec_to_rgb565() % 32 == c.b / 8,
{
    crate::lcd::lcd_colors::lemma_rgb565_fields(c.r, c.g, c.b);
}

} // verus!
