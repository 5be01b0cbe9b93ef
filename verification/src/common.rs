//! Color-space conversions between RGB888 and RGB565.
//!
//! RGB565 packs red into bits 15..11, green into bits 10..5 and blue into
//! bits 4..0. Expanding a 5- or 6-bit channel to 8 bits replicates its top
//! bits into the low positions, which makes the expand-then-truncate round
//! trip the identity on 16-bit colors.

use vstd::prelude::*;

verus! {

/// The RGB565 word packed from three 8-bit channels: the top 5 bits of
/// red, the top 6 of green and the top 5 of blue.
pub open spec fn rgb888_to_rgb565_spec(r: u8, g: u8, b: u8) -> u16 {
    ((((r >> 3) as u16) << 11) | (((g >> 2) as u16) << 5)) | ((b >> 3) as u16)
}

/// The 8-bit red channel recovered from an RGB565 word: the 5 stored bits,
/// replicated into the low positions.
pub open spec fn red_from_rgb565(c: u16) -> u8 {
    let r5 = ((c >> 11) & 0x1F) as u8;
    (r5 << 3) | (r5 >> 2)
}

/// The 8-bit green channel recovered from an RGB565 word.
pub open spec fn green_from_rgb565(c: u16) -> u8 {
    let g6 = ((c >> 5) & 0x3F) as u8;
    (g6 << 2) | (g6 >> 4)
}

/// The 8-bit blue channel recovered from an RGB565 word.
pub open spec fn blue_from_rgb565(c: u16) -> u8 {
    let b5 = (c & 0x1F) as u8;
    (b5 << 3) | (b5 >> 2)
}

/// All three channels recovered from an RGB565 word.
pub open spec fn rgb565_to_rgb888_spec(c: u16) -> (u8, u8, u8) {
    (red_from_rgb565(c), green_from_rgb565(c), blue_from_rgb565(c))
}

/// Convert an RGB888 color to RGB565 format.
pub fn rgb888_to_rgb565(r: u8, g: u8, b: u8) -> (c: u16)
    ensures
        c == rgb888_to_rgb565_spec(r, g, b),
{
    let r5 = (r >> 3) as u16;
    let g6 = (g >> 2) as u16;
    let b5 = (b >> 3) as u16;
    (r5 << 11) | (g6 << 5) | b5
}

/// Convert an RGB565 color to RGB888 format.
pub fn rgb565_to_rgb888(color: u16) -> (rgb: (u8, u8, u8))
    ensures
        rgb == rgb565_to_rgb888_spec(color),
{
    let r = ((color >> 11) & 0x1F) as u8;
    let g = ((color >> 5) & 0x3F) as u8;
    let b = (color & 0x1F) as u8;
    let r8 = (r << 3) | (r >> 2);
    let g8 = (g << 2) | (g >> 4);
    let b8 = (b << 3) | (b >> 2);
    (r8, g8, b8)
}

/// Law: expanding an RGB565 color to RGB888 and packing it back yields the
/// original 16-bit value, for every 16-bit value.
pub proof fn lemma_rgb565_round_trip(c: u16)
    ensures
        rgb888_to_rgb565_spec(
            red_from_rgb565(c),
            green_from_rgb565(c),
            blue_from_rgb565(c),
        ) == c,
{
    assert(rgb888_to_rgb565_spec(
        red_from_rgb565(c),
        green_from_rgb565(c),
        blue_from_rgb565(c),
    ) == c) by (bit_vector);
}

/// Common colors in RGB565 format.
pub const BLACK: u16 = 0x0000;

pub const WHITE: u16 = 0xFFFF;

pub const RED: u16 = 0xF800;

pub const GREEN: u16 = 0x07E0;

pub const BLUE: u16 = 0x001F;

pub const YELLOW: u16 = 0xFFE0;

pub const CYAN: u16 = 0x07FF;

pub const MAGENTA: u16 = 0xF81F;

} // verus!
