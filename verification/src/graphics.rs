//! Plotting single pixels into the 2-bits-per-pixel framebuffer.
use vstd::prelude::*;

use crate::utils::{clamp, clamped};

verus! {

/// Side of the square screen, in pixels.
pub const SCREEN_SIZE: i32 = 160;

/// Bytes in the framebuffer: four pixels per byte.
pub const FRAMEBUFFER_SIZE: usize = 6400;

/// The byte of the framebuffer that holds pixel (`x`, `y`).
pub open spec fn pixel_byte(x: int, y: int) -> int {
    (y * 160 + x) / 4
}

/// The position of pixel `x`'s two bits within its byte.
pub open spec fn pixel_shift(x: i32) -> u8 {
    ((x as u8) & 3u8) << 1u8
}

/// A byte with the two bits at `shift` replaced by `color` (bits of `color`
/// beyond the byte are dropped).
pub open spec fn with_pixel(byte: u8, shift: u8, color: u8) -> u8 {
    ((color << shift) | (byte & !(3u8 << shift))) as u8
}

/// Sets pixel (`x`, `y`) of `framebuffer` to `color`. Pixels off the screen
/// are skipped, and so is every pixel while the first draw color
/// (`draw_colors & 0xf`) is 0, which means transparent.
pub fn pixel(framebuffer: &mut [u8], draw_colors: u16, x: i32, y: i32, color: u8)
    requires
        old(framebuffer)@.len() == FRAMEBUFFER_SIZE,
    ensures
        final(framebuffer)@ == (if 0 <= x < SCREEN_SIZE && 0 <= y < SCREEN_SIZE && draw_colors & 0xf != 0 {
            old(framebuffer)@.update(
                pixel_byte(x as int, y as int),
                with_pixel(old(framebuffer)@[pixel_byte(x as int, y as int)], pixel_shift(x), color),
            )
        } else {
            old(framebuffer)@
        }),
{
    if x < 0 || x > 159 {
        return;
    }
    if y < 0 || y > 159 {
        return;
    }
    // the byte that holds (x, y)
    let position: usize = y as usize * 160 + x as usize;
    let idx = position >> 2;
    assert(idx == position / 4) by (bit_vector)
        requires
            idx == position >> 2,
    ;

    // the bits within that byte
    let shift = (x as u8 & 0b11) << 1;
    assert(shift < 8) by (bit_vector)
        requires
            shift == ((x as u8) & 3u8) << 1u8,
    ;
    let mask = 0b11u8 << shift;

    let palette_color: u8 = (draw_colors & 0xf) as u8;
    assert((draw_colors & 0xf != 0) == (palette_color != 0)) by (bit_vector)
        requires
            palette_color == (draw_colors & 0xf) as u8,
    ;
    if palette_color == 0 {
        // transparent
        return;
    }
    let updated = (color << shift) | (framebuffer[idx] & !mask);
    framebuffer[idx] = updated;
}

/// Writing a two-bit color into a pixel leaves the other three pixels of its
/// byte as they were, and the color is read back from the pixel's bits.
pub proof fn lemma_pixel_bits(byte: u8, x: i32, color: u8)
    requires
        color < 4,
    ensures
        with_pixel(byte, pixel_shift(x), color) & !(3u8 << pixel_shift(x)) == byte & !(3u8 << pixel_shift(x)),
        (with_pixel(byte, pixel_shift(x), color) >> pixel_shift(x)) & 3u8 == color,
{
    let shift = pixel_shift(x);
    assert(shift == 0 || shift == 2 || shift == 4 || shift == 6) by (bit_vector)
        requires
            shift == ((x as u8) & 3u8) << 1u8,
    ;
    assert(((color << shift) | (byte & !(3u8 << shift))) & !(3u8 << shift) == byte & !(3u8 << shift)) by (bit_vector)
        requires
            shift == 0 || shift == 2 || shift == 4 || shift == 6,
            color < 4,
    ;
    assert((((color << shift) | (byte & !(3u8 << shift))) >> shift) & 3u8 == color) by (bit_vector)
        requires
            shift == 0 || shift == 2 || shift == 4 || shift == 6,
            color < 4,
    ;
}

/// The arrow drawn at the screen's edge toward a target centred at
/// (`center_x`, `center_y`) when the target is off the screen: its glyph and
/// where it goes. Left of the screen wins over above, above over right, and
/// right over below; a target on the screen gets no arrow.
pub open spec fn indicator_for(center_x: i32, center_y: i32) -> Option<(u8, i32, i32)> {
    if center_x < 0 {
        Some((0x84u8, 2i32, clamped(0, center_y as int, 150) as i32))
    } else if center_y < 0 {
        Some((0x86u8, clamped(0, center_x as int, 150) as i32, 2i32))
    } else if center_x > 160 {
        Some((0x85u8, 151i32, clamped(0, center_y as int, 150) as i32))
    } else if center_y > 160 {
        Some((0x87u8, clamped(0, center_x as int, 150) as i32, 151i32))
    } else {
        None
    }
}

/// The edge arrow for a target centred at (`center_x`, `center_y`), as
/// `indicator_for` says.
pub fn targeting_indicator(center_x: i32, center_y: i32) -> (r: Option<(u8, i32, i32)>)
    ensures
        r == indicator_for(center_x, center_y),
{
    match (center_x, center_y) {
        (x, _) if x < 0 => Some((0x84, 2, clamp(0, center_y, 150))),
        (_, y) if y < 0 => Some((0x86, clamp(0, center_x, 150), 2)),
        (x, _) if x > 160 => Some((0x85, 151, clamp(0, center_y, 150))),
        (_, y) if y > 160 => Some((0x87, clamp(0, center_x, 150), 151)),
        (_, _) => None,
    }
}

/// An arrow toward a target is always drawn on the screen.
pub proof fn lemma_indicator_on_screen(center_x: i32, center_y: i32)
    ensures
        indicator_for(center_x, center_y) matches Some((_, x, y)) ==> 0 <= x <= 151 && 0 <= y <= 151,
{
}

} // verus!
