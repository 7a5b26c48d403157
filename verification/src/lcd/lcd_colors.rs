//! RGB565 colour packing used by the LCD.

use vstd::prelude::*;

verus! {

/// RGB565 packing of an 8-bit-per-channel colour: the top 5 bits of red,
/// the top 6 bits of green and the top 5 bits of blue, red in the high bits.
pub open spec fn spec_rgb565(r: u8, g: u8, b: u8) -> u16 {
    ((r as int / 8) * 2048 + (g as int / 4) * 32 + b as int / 8) as u16
}

pub fn rgb565(r: u8, g: u8, b: u8) -> (c: u16)
    ensures
        c == spec_rgb565(r, g, b),
{
    let rr: u16 = r as u16;
    let gg: u16 = g as u16;
    let bb: u16 = b as u16;
    let c: u16 = ((rr >> 3u16) << 11u16) | ((gg >> 2u16) << 5u16) | (bb >> 3u16);
    assert(c == (rr / 8) * 2048 + (gg / 4) * 32 + bb / 8) by (bit_vector)
        requires
            rr < 256,
            gg < 256,
            bb < 256,
            c == ((rr >> 3u16) << 11u16) | ((gg >> 2u16) << 5u16) | (bb >> 3u16),
    ;
    c
}

/// The packed colour keeps the top five bits of red in bits 11..16, the top
/// six bits of green in bits 5..11 and the top five bits of blue in bits
/// 0..5, and nothing else.
pub proof fn lemma_rgb565_fields(r: u8, g: u8, b: u8)
    ensures
        spec_rgb565(r, g, b) / 2048 == r / 8,
        (spec_rgb565(r, g, b) / 32) % 64 == g / 4,
        spec_rgb565(r, g, b) % 32 == b / 8,
{
    let v = (r as int / 8) * 2048 + (g as int / 4) * 32 + b as int / 8;
    assert(0 <= v < 65536);
    assert(spec_rgb565(r, g, b) == v);
}

} // verus!
