//! The tray icon bitmap: a filled square centred on a transparent 16×16
//! canvas, produced as raw RGBA bytes ready for the tray's icon constructor.

use vstd::prelude::*;

verus! {

/// Side length of the square icon, in pixels.
pub const ICON_SIDE: usize = 16;

/// Whether the pixel at (x, y) belongs to the filled square: both
/// coordinates within 5 of the centre at (8, 8).
pub open spec fn pixel_filled(x: int, y: int) -> bool {
    3 <= x <= 13 && 3 <= y <= 13
}

/// The RGBA channel byte at (x, y): an opaque accent blue inside the
/// square, fully transparent outside.
pub open spec fn pixel_byte(x: int, y: int, channel: int) -> u8 {
    if pixel_filled(x, y) {
        if channel == 0 {
            0u8
        } else if channel == 1 {
            120u8
        } else if channel == 2 {
            212u8
        } else {
            255u8
        }
    } else {
        0u8
    }
}

/// Index of the channel byte of pixel (x, y) in a row-major RGBA buffer.
pub open spec fn rgba_index(x: int, y: int, channel: int) -> int {
    (y * 16 + x) * 4 + channel
}

/// The 16×16 icon as row-major RGBA bytes: 1024 bytes, each channel of each
/// pixel as `pixel_byte` paints it.
pub fn tray_icon_rgba() -> (v: Vec<u8>)
    ensures
        v@.len() == 1024,
        forall|x: int, y: int, ch: int|
            0 <= x < 16 && 0 <= y < 16 && 0 <= ch < 4 ==> v@[#[trigger] rgba_index(x, y, ch)]
                == pixel_byte(x, y, ch),
{
    let mut v: Vec<u8> = Vec::new();
    let mut y: usize = 0;
    while y < 16
        invariant
            y <= 16,
            v@.len() == y * 64,
            forall|x2: int, y2: int, ch2: int|
                0 <= x2 < 16 && 0 <= y2 < y && 0 <= ch2 < 4 ==> v@[#[trigger] rgba_index(
                    x2,
                    y2,
                    ch2,
                )] == pixel_byte(x2, y2, ch2),
        decreases 16 - y,
    {
        let mut x: usize = 0;
        while x < 16
            invariant
                y < 16,
                x <= 16,
                v@.len() == y * 64 + x * 4,
                forall|x2: int, y2: int, ch2: int|
                    0 <= x2 < 16 && 0 <= y2 < y && 0 <= ch2 < 4 ==> v@[#[trigger] rgba_index(
                        x2,
                        y2,
                        ch2,
                    )] == pixel_byte(x2, y2, ch2),
                forall|x2: int, ch2: int|
                    0 <= x2 < x && 0 <= ch2 < 4 ==> v@[#[trigger] rgba_index(x2, y as int, ch2)]
                        == pixel_byte(x2, y as int, ch2),
            decreases 16 - x,
        {
            let filled = 3 <= x && x <= 13 && 3 <= y && y <= 13;
            if filled {
                v.push(0);
                v.push(120);
                v.push(212);
                v.push(255);
            } else {
                v.push(0);
                v.push(0);
                v.push(0);
                v.push(0);
            }
            x = x + 1;
        }
        y = y + 1;
    }
    v
}

} // verus!
