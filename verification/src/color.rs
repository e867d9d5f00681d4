//! Accent-color arithmetic: unpacking a color integer into its three 8-bit
//! channels, and dimming a channel for a legible dark overlay.

use vstd::prelude::*;

verus! {

/// An 8-bit-per-channel RGB color.
#[derive(Clone, Copy, Debug, PartialEq, Eq, Structural)]
pub struct Rgb {
    pub r: u8,
    pub g: u8,
    pub b: u8,
}

/// Unpacks a color given as `0xRRGGBB` in the low 24 bits of a signed
/// 32-bit integer into its red, green and blue channels.
pub fn decode_color(color: i32) -> (rgb: (u8, u8, u8))
    ensures
        rgb.0 == (((color as u32) >> 16) & 0xFF) as u8,
        rgb.1 == (((color as u32) >> 8) & 0xFF) as u8,
        rgb.2 == ((color as u32) & 0xFF) as u8,
{
    let c = color as u32;

    assert((c >> 16) & 0xFF < 256 && (c >> 8) & 0xFF < 256 && c & 0xFF < 256) by (bit_vector);

    let r = ((c >> 16) & 0xFF) as u8;
    let g = ((c >> 8) & 0xFF) as u8;
    let b = (c & 0xFF) as u8;

    (r, g, b)
}

/// The dimmed accent color derived from a packed background-color value:
/// each unpacked channel divided by 3, so the color stays readable behind
/// light text.
pub open spec fn spec_accent_color(color: i32) -> Rgb {
    Rgb {
        r: ((((color as u32) >> 16) & 0xFF) as u8 / 3) as u8,
        g: ((((color as u32) >> 8) & 0xFF) as u8 / 3) as u8,
        b: (((color as u32) & 0xFF) as u8 / 3) as u8,
    }
}

/// Decodes a packed background color and dims each channel by a factor of 3.
pub fn accent_color(color: i32) -> (rgb: Rgb)
    ensures
        rgb == spec_accent_color(color),
{
    let (r, g, b) = decode_color(color);
    Rgb { r: r / 3, g: g / 3, b: b / 3 }
}

} // verus!
