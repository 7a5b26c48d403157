//! The xterm 256-colour palette, packed as RGB565.
//!
//! Entries 0..16 are the sixteen system colours, 16..232 the 6x6x6 colour
//! cube and 232..256 the grey ramp.

use vstd::prelude::*;
use crate::lcd::lcd_colors::{rgb565, spec_rgb565};

verus! {

/// The sixteen system colours as (red, green, blue).
pub open spec fn system_rgb(i: int) -> (u8, u8, u8) {
    if i == 0 { (0, 0, 0) }
    else if i == 1 { (128, 0, 0) }
    else if i == 2 { (0, 128, 0) }
    else if i == 3 { (128, 128, 0) }
    else if i == 4 { (0, 0, 128) }
    else if i == 5 { (128, 0, 128) }
    else if i == 6 { (0, 128, 128) }
    else if i == 7 { (192, 192, 192) }
    else if i == 8 { (128, 128, 128) }
    else if i == 9 { (255, 0, 0) }
    else if i == 10 { (0, 255, 0) }
    else if i == 11 { (255, 255, 0) }
    else if i == 12 { (0, 0, 255) }
    else if i == 13 { (255, 0, 255) }
    else if i == 14 { (0, 255, 255) }
    else { (255, 255, 255) }
}

/// Intensity of step `v` (0..6) of a colour-cube axis.
pub open spec fn cube_level(v: int) -> int {
    if v == 0 { 0 } else { 55 + 40 * v }
}

/// Entry `i` of the palette as (red, green, blue).
pub open spec fn xterm_rgb(i: u8) -> (u8, u8, u8) {
    if i < 16 {
        system_rgb(i as int)
    } else if i < 232 {
        let n = i - 16;
        (cube_level(n / 36) as u8, cube_level((n / 6) % 6) as u8, cube_level(n % 6) as u8)
    } else {
        let v = (8 + 10 * (i - 232)) as u8;
        (v, v, v)
    }
}

/// Entry `i` of the palette packed as RGB565.
#[verifier::opaque]
pub open spec fn spec_palette(i: u8) -> u16 {
    spec_rgb565(xterm_rgb(i).0, xterm_rgb(i).1, xterm_rgb(i).2)
}

fn system_color(i: u8) -> (c: (u8, u8, u8))
    requires
        i < 16,
    ensures
        c == system_rgb(i as int),
{
    match i {
        0 => (0, 0, 0),
        1 => (128, 0, 0),
        2 => (0, 128, 0),
        3 => (128, 128, 0),
        4 => (0, 0, 128),
        5 => (128, 0, 128),
        6 => (0, 128, 128),
        7 => (192, 192, 192),
        8 => (128, 128, 128),
        9 => (255, 0, 0),
        10 => (0, 255, 0),
        11 => (255, 255, 0),
        12 => (0, 0, 255),
        13 => (255, 0, 255),
        14 => (0, 255, 255),
        _ => (255, 255, 255),
    }
}

fn level(v: u8) -> (l: u8)
    requires
        v < 6,
    ensures
        l == cube_level(v as int),
{
    if v == 0 { 0 } else { 55 + 40 * v }
}

/// Entry `i` of the xterm 256-colour palette, packed as RGB565.
pub fn xterm_palette(i: u8) -> (c: u16)
    ensures
        c == spec_palette(i),
{
    reveal(spec_palette);
    let (r, g, b) = if i < 16 {
        system_color(i)
    } else if i < 232 {
        let n: u8 = i - 16;
        (level(n / 36), level((n / 6) % 6), level(n % 6))
    } else {
        let v: u8 = 8 + 10 * (i - 232);
        (v, v, v)
    };
    rgb565(r, g, b)
}

/// The sixteen system colours are the standard xterm ones, packed as
/// RGB565: black, maroon, green, olive, navy, purple, teal, silver, grey,
/// red, lime, yellow, blue, fuchsia, aqua, white.
pub proof fn lemma_system_colours()
    ensures
        spec_palette(0) == 0x0000, // black
        spec_palette(1) == 0x8000, // maroon
        spec_palette(2) == 0x0400, // green
        spec_palette(3) == 0x8400, // olive
        spec_palette(4) == 0x0010, // navy
        spec_palette(5) == 0x8010, // purple
        spec_palette(6) == 0x0410, // teal
        spec_palette(7) == 0xc618, // silver
        spec_palette(8) == 0x8410, // grey
        spec_palette(9) == 0xf800, // red
        spec_palette(10) == 0x07e0, // lime
        spec_palette(11) == 0xffe0, // yellow
        spec_palette(12) == 0x001f, // blue
        spec_palette(13) == 0xf81f, // fuchsia
        spec_palette(14) == 0x07ff, // aqua
        spec_palette(15) == 0xffff, // white
{
    reveal(spec_palette);
}

/// The intensities of the six steps of a colour-cube axis.
pub open spec fn cube_steps() -> Seq<u8> {
    seq![0u8, 95u8, 135u8, 175u8, 215u8, 255u8]
}

/// Entries 16..232 form the 6x6x6 colour cube: entry 16 + 36 r + 6 g + b
/// has red, green and blue at steps r, g and b; entries 232..256 are the
/// grey ramp 8, 18, ..., 238.
pub proof fn lemma_cube_and_ramp(r: int, g: int, b: int, k: int)
    requires
        0 <= r < 6,
        0 <= g < 6,
        0 <= b < 6,
        0 <= k < 24,
    ensures
        spec_palette((16 + 36 * r + 6 * g + b) as u8) == spec_rgb565(
            cube_steps()[r],
            cube_steps()[g],
            cube_steps()[b],
        ),
        spec_palette((232 + k) as u8) == spec_rgb565((8 + 10 * k) as u8, (8 + 10 * k) as u8, (8 + 10 * k) as u8),
{
    reveal(spec_palette);
    let n: int = 36 * r + 6 * g + b;
    assert(n / 36 == r && (n / 6) % 6 == g && n % 6 == b);
}

} // verus!
