//! Conversion of a frame into the pixels of a display surface.
use vstd::prelude::*;

use crate::ppu::{Color, Frame};

verus! {

/// The number of pixels of a frame
pub const FRAME_PIXELS: usize = 23040;

/// The gray level of white
const MAX_LEVEL: u8 = 255;

/// The size of each pixel of a surface, in bytes
pub const PIXEL_SIZE: usize = 4;

/// The gray level of a color: 255 for white, 170, 85 and 0 for black.
pub open spec fn gray_level(c: Color) -> u8 {
    match c {
        Color::White => 255,
        Color::LightGrey => 170,
        Color::DarkGrey => 85,
        Color::Black => 0,
    }
}

/// The pixel `k` of a frame, line after line.
pub open spec fn frame_pixel(frame: Frame, k: int) -> Color {
    frame@[k / 160]@[k % 160]
}

fn gray(c: Color) -> (r: u8)
    ensures
        r == gray_level(c),
{
    match c {
        Color::White => MAX_LEVEL,
        Color::LightGrey => MAX_LEVEL / 3 * 2,
        Color::DarkGrey => MAX_LEVEL / 3,
        Color::Black => 0,
    }
}

/// The number of whole pixels of 4 bytes of a surface that a frame fills.
pub open spec fn pixels_drawn(len: int) -> int {
    if len / 4 < 23040 {
        len / 4
    } else {
        23040
    }
}

/// Draws the frame on an ARGB8888 surface: the first pixels of 4 bytes get the gray level of
/// the pixels of the frame in their blue, green and red bytes, and an opaque alpha byte.
pub fn draw_surface_argb8888(surface: &mut [u8], frame: &Frame)
    requires
        old(surface)@.len() % 4 == 0 || old(surface)@.len() >= 4 * 23040,
    ensures
        final(surface)@.len() == old(surface)@.len(),
        forall|i: int|
            0 <= i < final(surface)@.len() ==> #[trigger] final(surface)@[i] == if i / 4
                < pixels_drawn(old(surface)@.len() as int) {
                if i % 4 == 3 {
                    0xFFu8
                } else {
                    gray_level(frame_pixel(*frame, i / 4))
                }
            } else {
                old(surface)@[i]
            },
{
    let n = if surface.len() / PIXEL_SIZE < FRAME_PIXELS {
        surface.len() / PIXEL_SIZE
    } else {
        FRAME_PIXELS
    };
    let mut k: usize = 0;
    while k < n
        invariant
            k <= n,
            n == pixels_drawn(old(surface)@.len() as int),
            surface@.len() == old(surface)@.len(),
            forall|i: int|
                0 <= i < surface@.len() ==> #[trigger] surface@[i] == if i / 4 < k {
                    if i % 4 == 3 {
                        0xFFu8
                    } else {
                        gray_level(frame_pixel(*frame, i / 4))
                    }
                } else {
                    old(surface)@[i]
                },
        decreases n - k,
    {
        let color = gray(frame[k / 160][k % 160]);
        surface[4 * k] = color;  // B
        surface[4 * k + 1] = color;  // G
        surface[4 * k + 2] = color;  // R
        surface[4 * k + 3] = 0xFF;  // A
        k = k + 1;
    }
}

/// Draws the frame on an RGB888 surface: the first pixels of 4 bytes (the last byte unused)
/// get the gray level of the pixels of the frame in their blue, green and red bytes; a last
/// pixel of 3 bytes is drawn too.
pub fn draw_surface_rgb888(surface: &mut [u8], frame: &Frame)
    requires
        old(surface)@.len() % 4 == 0 || old(surface)@.len() % 4 == 3 || old(surface)@.len() >= 4
            * 23040,
    ensures
        final(surface)@.len() == old(surface)@.len(),
        forall|i: int|
            0 <= i < final(surface)@.len() ==> #[trigger] final(surface)@[i] == if i / 4
                < pixels_drawn(old(surface)@.len() as int + 1) && i % 4 != 3 {
                gray_level(frame_pixel(*frame, i / 4))
            } else {
                old(surface)@[i]
            },
{
    let len = surface.len();
    let n = if len / PIXEL_SIZE < FRAME_PIXELS {
        if len % PIXEL_SIZE == 3 {
            len / PIXEL_SIZE + 1
        } else {
            len / PIXEL_SIZE
        }
    } else {
        FRAME_PIXELS
    };
    assert(n == pixels_drawn(len as int + 1));
    let mut k: usize = 0;
    while k < n
        invariant
            k <= n,
            n == pixels_drawn(old(surface)@.len() as int + 1),
            len == old(surface)@.len(),
            n <= 23040,
            4 * n <= len + 1,
            surface@.len() == old(surface)@.len(),
            forall|i: int|
                0 <= i < surface@.len() ==> #[trigger] surface@[i] == if i / 4 < k && i % 4 != 3 {
                    gray_level(frame_pixel(*frame, i / 4))
                } else {
                    old(surface)@[i]
                },
        decreases n - k,
    {
        let color = gray(frame[k / 160][k % 160]);
        surface[4 * k] = color;  // B
        surface[4 * k + 1] = color;  // G
        surface[4 * k + 2] = color;  // R
        k = k + 1;
    }
}

/// The gray levels of the pixels of a frame, line after line: an 8-bit grayscale image.
pub fn gray_pixels(frame: &Frame) -> (r: Vec<u8>)
    ensures
        r@.len() == 23040,
        forall|k: int| 0 <= k < 23040 ==> #[trigger] r@[k] == gray_level(frame_pixel(*frame, k)),
{
    let mut pixels: Vec<u8> = Vec::new();
    let mut k: usize = 0;
    while k < FRAME_PIXELS
        invariant
            k <= 23040,
            pixels@.len() == k,
            forall|j: int| 0 <= j < k ==> #[trigger] pixels@[j] == gray_level(frame_pixel(*frame, j)),
        decreases 23040 - k,
    {
        pixels.push(gray(frame[k / 160][k % 160]));
        k = k + 1;
    }
    pixels
}

} // verus!
