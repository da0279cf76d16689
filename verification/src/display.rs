//! The 64×32 monochrome display and sprite drawing.
//!
//! The framebuffer holds one `bool` per pixel, row by row: the pixel at
//! column `px` and row `py` is cell `py * 64 + px`. A sprite is a run of
//! bytes, one per row, the most significant bit leftmost. Drawing flips
//! every framebuffer pixel under a set sprite bit; sprite pixels that fall
//! outside the screen are dropped.

use vstd::prelude::*;

verus! {

/// Columns of the display.
pub const VIDEO_WIDTH: usize = 64;

/// Rows of the display.
pub const VIDEO_HEIGHT: usize = 32;

/// Pixels of the display.
pub const VIDEO_SIZE: usize = 2048;

/// The pixel at column `px` and row `py` of a framebuffer.
pub open spec fn pixel(video: Seq<bool>, px: int, py: int) -> bool {
    video[py * 64 + px]
}

/// Whether bit `col` of a sprite row is set, counting from the most
/// significant bit.
pub open spec fn sprite_bit(row: u8, col: u8) -> bool {
    row & (0x80u8 >> col) != 0
}

/// Whether the sprite, placed with its top left corner at `(x0, y0)`, has a
/// set bit at the screen position `(px, py)`.
pub open spec fn sprite_lit(sprite: Seq<u8>, x0: int, y0: int, px: int, py: int) -> bool {
    &&& x0 <= px < x0 + 8
    &&& y0 <= py < y0 + sprite.len()
    &&& sprite_bit(sprite[py - y0], (px - x0) as u8)
}

/// Whether `(px, py)` is a screen pixel that is on and lies under a set bit
/// of the sprite: drawing turns such a pixel off.
pub open spec fn sprite_hits(video: Seq<bool>, sprite: Seq<u8>, x0: int, y0: int, px: int, py: int)
    -> bool {
    &&& 0 <= px < 64
    &&& 0 <= py < 32
    &&& sprite_lit(sprite, x0, y0, px, py)
    &&& pixel(video, px, py)
}

/// Whether drawing the sprite at `(x0, y0)` turns any pixel off.
pub open spec fn collides(video: Seq<bool>, sprite: Seq<u8>, x0: int, y0: int) -> bool {
    exists|px: int, py: int| #[trigger] sprite_hits(video, sprite, x0, y0, px, py)
}

/// The framebuffer after drawing the sprite at `(x0, y0)`: each pixel under
/// a set sprite bit is flipped, every other pixel is kept.
pub open spec fn blit(video: Seq<bool>, sprite: Seq<u8>, x0: int, y0: int) -> Seq<bool> {
    Seq::new(2048, |i: int| video[i] != sprite_lit(sprite, x0, y0, i % 64, i / 64))
}

/// The framebuffer with every pixel off.
pub open spec fn blank() -> Seq<bool> {
    Seq::new(2048, |i: int| false)
}

/// What `draw_sprite` has done once the sprite pixels before row `rows`,
/// and in row `rows` before column `cols`, are drawn.
spec fn drawn_before(x0: int, y0: int, rows: int, cols: int, px: int, py: int) -> bool {
    py < y0 + rows || (py == y0 + rows && px < x0 + cols)
}

/// Draws the sprite held in `memory[start..start + rows]` onto the
/// framebuffer with its top left corner at `(x0, y0)`, and tells whether a
/// pixel was turned off.
pub fn draw_sprite(
    video: &mut [bool; 2048],
    memory: &[u8; 4096],
    start: usize,
    rows: usize,
    x0: usize,
    y0: usize,
) -> (collision: bool)
    requires
        start + rows <= 4096,
        x0 < 64,
        y0 < 32,
    ensures
        final(video)@ == blit(
            old(video)@,
            memory@.subrange(start as int, start + rows),
            x0 as int,
            y0 as int,
        ),
        collision == collides(
            old(video)@,
            memory@.subrange(start as int, start + rows),
            x0 as int,
            y0 as int,
        ),
{
    let ghost before = video@;
    let ghost sprite = memory@.subrange(start as int, start + rows);
    let mut collision = false;
    let mut row: usize = 0;
    while row < rows
        invariant
            row <= rows,
            start + rows <= 4096,
            x0 < 64,
            y0 < 32,
            before.len() == 2048,
            sprite == memory@.subrange(start as int, start + rows),
            forall|i: int|
                0 <= i < 2048 ==> video@[i] == (before[i] != (sprite_lit(
                    sprite,
                    x0 as int,
                    y0 as int,
                    i % 64,
                    i / 64,
                ) && drawn_before(x0 as int, y0 as int, row as int, 0, i % 64, i / 64))),
            collision <==> exists|px: int, py: int|
                #[trigger] sprite_hits(before, sprite, x0 as int, y0 as int, px, py)
                    && drawn_before(x0 as int, y0 as int, row as int, 0, px, py),
        decreases rows - row,
    {
        if y0 + row < VIDEO_HEIGHT {
            let bits: u8 = memory[start + row];
            let mut col: u8 = 0;
            while col < 8
                invariant
                    col <= 8,
                    row < rows,
                    start + rows <= 4096,
                    x0 < 64,
                    y0 + row < 32,
                    before.len() == 2048,
                    sprite == memory@.subrange(start as int, start + rows),
                    bits == sprite[row as int],
                    forall|i: int|
                        0 <= i < 2048 ==> video@[i] == (before[i] != (sprite_lit(
                            sprite,
                            x0 as int,
                            y0 as int,
                            i % 64,
                            i / 64,
                        ) && drawn_before(
                            x0 as int,
                            y0 as int,
                            row as int,
                            col as int,
                            i % 64,
                            i / 64,
                        ))),
                    collision <==> exists|px: int, py: int|
                        #[trigger] sprite_hits(before, sprite, x0 as int, y0 as int, px, py)
                            && drawn_before(x0 as int, y0 as int, row as int, col as int, px, py),
                decreases 8 - col,
            {
                let px: usize = x0 + col as usize;
                let py: usize = y0 + row;
                if px < VIDEO_WIDTH && bits & (0x80u8 >> col) != 0 {
                    let cell: usize = py * VIDEO_WIDTH + px;
                    if video[cell] {
                        assert(sprite_hits(
                            before,
                            sprite,
                            x0 as int,
                            y0 as int,
                            px as int,
                            py as int,
                        ));
                        collision = true;
                    }
                    video[cell] = !video[cell];
                }
                col += 1;
            }
        }
        row += 1;
    }
    collision
}

/// Bytes of the display as a picture of four bytes to the pixel.
pub const RGBA_SIZE: usize = 8192;

/// Writes the display as a picture of 64×32 pixels of four bytes each, row
/// by row: `0xFF` four times for a pixel that is on, `0x00` four times for
/// one that is off. In the format RGBA8888 these are opaque white and
/// transparent black.
pub fn render_rgba(video: &[bool; 2048], pixels: &mut [u8; 8192])
    ensures
        forall|i: int|
            0 <= i < 8192 ==> final(pixels)@[i] == if video@[i / 4] {
                0xFFu8
            } else {
                0x00u8
            },
{
    let mut i: usize = 0;
    while i < RGBA_SIZE
        invariant
            i <= 8192,
            forall|j: int|
                0 <= j < i ==> pixels@[j] == if video@[j / 4] {
                    0xFFu8
                } else {
                    0x00u8
                },
        decreases 8192 - i,
    {
        pixels[i] = if video[i / 4] {
            0xFF
        } else {
            0x00
        };
        i += 1;
    }
}

/// Turns every pixel off.
pub fn clear(video: &mut [bool; 2048])
    ensures
        final(video)@ == blank(),
{
    let mut i: usize = 0;
    while i < VIDEO_SIZE
        invariant
            i <= 2048,
            forall|j: int| 0 <= j < i ==> !video@[j],
        decreases 2048 - i,
    {
        video[i] = false;
        i += 1;
    }
}

} // verus!
