//! The 64 by 32 monochrome display and the drawing of sprites onto it.
//!
//! The display is a row-major sequence of cells, pixel `(px, py)` at index
//! `py * 64 + px`. A cell is lit when it is not zero; drawing only ever
//! writes `0` and `1`. A sprite is a sequence of row bytes, the left pixel of
//! a row in the high bit. Sprite pixels that would fall past the right or
//! the bottom edge are clipped, not wrapped.

use vstd::prelude::*;

verus! {

/// Pixels per row.
pub const WIDTH: usize = 64;

/// Rows of pixels.
pub const HEIGHT: usize = 32;

/// Cells in the display.
pub const PIXELS: usize = 2048;

/// Every cell is `0` or `1`.
pub open spec fn is_bitmap(screen: Seq<u8>) -> bool {
    forall|p: int| 0 <= p < screen.len() ==> #[trigger] screen[p] <= 1
}

/// The blank display.
pub open spec fn blank() -> Seq<u8> {
    Seq::new(2048, |p: int| 0u8)
}

/// Bit `col` of a sprite row, counted from the left.
pub open spec fn sprite_bit(row: u8, col: int) -> bool {
    row & (0x80u8 >> (col as u8)) != 0
}

/// The sprite placed with its top left corner at `(x0, y0)` has a set bit
/// over pixel `(px, py)`.
pub open spec fn sprite_lit(sprite: Seq<u8>, x0: int, y0: int, px: int, py: int) -> bool {
    &&& y0 <= py < y0 + sprite.len()
    &&& x0 <= px < x0 + 8
    &&& sprite_bit(sprite[py - y0], px - x0)
}

/// Cell `p` after the sprite is drawn: flipped where the sprite has a set
/// bit over it, else as before.
pub open spec fn drawn_cell(screen: Seq<u8>, sprite: Seq<u8>, x0: int, y0: int, p: int) -> u8 {
    if sprite_lit(sprite, x0, y0, p % 64, p / 64) {
        if screen[p] != 0 {
            0
        } else {
            1
        }
    } else {
        screen[p]
    }
}

/// The display after the sprite is drawn at `(x0, y0)`.
pub open spec fn drawn(screen: Seq<u8>, sprite: Seq<u8>, x0: int, y0: int) -> Seq<u8> {
    Seq::new(2048, |p: int| drawn_cell(screen, sprite, x0, y0, p))
}

/// Drawing the sprite turns the lit cell `p` off.
pub open spec fn erases(screen: Seq<u8>, sprite: Seq<u8>, x0: int, y0: int, p: int) -> bool {
    0 <= p < 2048 && screen[p] != 0 && sprite_lit(sprite, x0, y0, p % 64, p / 64)
}

/// Drawing the sprite turns at least one lit cell off.
pub open spec fn collides(screen: Seq<u8>, sprite: Seq<u8>, x0: int, y0: int) -> bool {
    exists|p: int| erases(screen, sprite, x0, y0, p)
}

/// Cell `p` lies before column `x0 + col` of row `y0 + row` in drawing order.
spec fn reached(x0: int, y0: int, row: int, col: int, p: int) -> bool {
    p / 64 < y0 + row || (p / 64 == y0 + row && p % 64 < x0 + col)
}

/// The display with the sprite drawn as far as column `col` of its row `row`.
spec fn drawn_until(
    before: Seq<u8>,
    screen: Seq<u8>,
    sprite: Seq<u8>,
    x0: int,
    y0: int,
    row: int,
    col: int,
) -> bool {
    &&& screen.len() == 2048
    &&& forall|p: int|
        0 <= p < 2048 ==> #[trigger] screen[p] == if reached(x0, y0, row, col, p) {
            drawn_cell(before, sprite, x0, y0, p)
        } else {
            before[p]
        }
}

/// `collision` tells whether a lit cell was turned off as far as column
/// `col` of sprite row `row`.
spec fn collided_until(
    before: Seq<u8>,
    sprite: Seq<u8>,
    x0: int,
    y0: int,
    row: int,
    col: int,
    collision: bool,
) -> bool {
    &&& collision ==> collides(before, sprite, x0, y0)
    &&& !collision ==> forall|p: int|
        reached(x0, y0, row, col, p) ==> !erases(before, sprite, x0, y0, p)
}

/// Blanks the display.
pub fn clear(screen: &mut [u8; 2048])
    ensures
        final(screen)@ == blank(),
{
    let mut p: usize = 0;
    while p < 2048
        invariant
            p <= 2048,
            forall|q: int| 0 <= q < p ==> screen@[q] == 0,
        decreases 2048 - p,
    {
        screen[p] = 0;
        p += 1;
    }
}

/// Draws the sprite held in `memory[base .. base + rows]` with its top left
/// corner at `(x0, y0)`: every cell under a set sprite bit is flipped, every
/// other cell is kept. Returns whether a lit cell was turned off.
pub fn draw_sprite(
    screen: &mut [u8; 2048],
    memory: &[u8; 4096],
    base: usize,
    rows: usize,
    x0: usize,
    y0: usize,
) -> (collision: bool)
    requires
        base + rows <= 4096,
        x0 < 64,
        y0 < 32,
    ensures
        final(screen)@ == drawn(
            old(screen)@,
            memory@.subrange(base as int, base + rows),
            x0 as int,
            y0 as int,
        ),
        collision == collides(
            old(screen)@,
            memory@.subrange(base as int, base + rows),
            x0 as int,
            y0 as int,
        ),
{
    let ghost before = screen@;
    let ghost sprite = memory@.subrange(base as int, base + rows);
    let mut collision = false;
    let mut row: usize = 0;
    while row < rows && y0 + row < 32
        invariant
            row <= rows,
            y0 + row <= 32,
            x0 < 64,
            y0 < 32,
            base + rows <= 4096,
            before.len() == 2048,
            sprite == memory@.subrange(base as int, base + rows),
            drawn_until(before, screen@, sprite, x0 as int, y0 as int, row as int, 0),
            collided_until(before, sprite, x0 as int, y0 as int, row as int, 0, collision),
        decreases rows - row,
    {
        let bits: u8 = memory[base + row];
        let mut col: usize = 0;
        while col < 8 && x0 + col < 64
            invariant
                row < rows,
                y0 + row < 32,
                col <= 8,
                x0 + col <= 64,
                x0 < 64,
                y0 < 32,
                before.len() == 2048,
                sprite.len() == rows,
                bits == sprite[row as int],
                drawn_until(before, screen@, sprite, x0 as int, y0 as int, row as int, col as int),
                collided_until(
                    before,
                    sprite,
                    x0 as int,
                    y0 as int,
                    row as int,
                    col as int,
                    collision,
                ),
            decreases 8 - col,
        {
            let p: usize = (y0 + row) * 64 + x0 + col;
            let mask: u8 = 0x80u8 >> (col as u8);
            if bits & mask != 0 {
                if screen[p] != 0 {
                    screen[p] = 0;
                    collision = true;
                    assert(erases(before, sprite, x0 as int, y0 as int, p as int));
                } else {
                    screen[p] = 1;
                }
            }
            col += 1;
        }
        row += 1;
    }
    collision
}

} // verus!
