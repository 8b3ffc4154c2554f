//! Drawing a sprite onto the display.

use vstd::prelude::*;
use crate::machine::{cell, column_weight, sprite_bit, Sprite};

verus! {

impl Sprite {
    /// A sprite as the draw instruction makes it: at most fifteen rows and
    /// a corner on the display.
    pub open spec fn well_formed(self) -> bool {
        &&& self.memory.len() == 4096
        &&& 0 <= self.rows < 16
        &&& 0 <= self.x0 < 64
        &&& 0 <= self.y0 < 32
    }

    /// The display cell under the sprite's pixel in row `r`, column `c`;
    /// both coordinates wrap around the display's edges.
    pub open spec fn cell_under(self, r: int, c: int) -> int {
        ((self.y0 + r) % 32) * 64 + (self.x0 + c) % 64
    }

    /// Whether the sprite's pixel over cell `p` comes before pixel
    /// (`r`, `c`) when the sprite is painted row by row, left to right.
    pub open spec fn painted_before(self, p: int, r: int, c: int) -> bool {
        self.covers(p) && (self.row_at(p) < r || (self.row_at(p) == r && self.column_at(p) < c))
    }
}

/// Each sprite pixel lies over exactly one display cell, and that cell lies
/// under no other pixel of the sprite.
pub proof fn lemma_cell_under(sprite: Sprite, r: int, c: int)
    requires
        sprite.well_formed(),
        0 <= r < 32,
        0 <= c < 64,
    ensures
        0 <= sprite.cell_under(r, c) < 2048,
        sprite.row_at(sprite.cell_under(r, c)) == r,
        sprite.column_at(sprite.cell_under(r, c)) == c,
        forall|q: int|
            0 <= q < 2048 && sprite.row_at(q) == r && sprite.column_at(q) == c
                ==> q == sprite.cell_under(r, c),
{
}

/// XORs the sprite of `rows` bytes at address `i` onto the display with its
/// top-left pixel at (`x0`, `y0`), wrapping around the display's edges, and
/// reports whether a lit pixel was turned off.
pub fn draw_sprite(
    display: &mut [u8; 2048],
    memory: &[u8; 4096],
    i: u16,
    x0: usize,
    y0: usize,
    rows: usize,
) -> (collision: bool)
    requires
        x0 < 64,
        y0 < 32,
        rows < 16,
        forall|p: int| 0 <= p < 2048 ==> #[trigger] old(display)[p] <= 1,
    ensures
        final(display)@ == (Sprite {
            memory: memory@,
            i,
            rows: rows as int,
            x0: x0 as int,
            y0: y0 as int,
        }).drawn_on(old(display)@),
        collision == (Sprite {
            memory: memory@,
            i,
            rows: rows as int,
            x0: x0 as int,
            y0: y0 as int,
        }).collides_with(old(display)@),
        forall|p: int| 0 <= p < 2048 ==> #[trigger] final(display)[p] <= 1,
{
    let ghost sprite = Sprite {
        memory: memory@,
        i,
        rows: rows as int,
        x0: x0 as int,
        y0: y0 as int,
    };
    let ghost before = display@;
    let mut collision = false;
    let mut r: usize = 0;
    while r < rows
        invariant
            r <= rows,
            rows < 16,
            x0 < 64,
            y0 < 32,
            sprite == (Sprite {
                memory: memory@,
                i,
                rows: rows as int,
                x0: x0 as int,
                y0: y0 as int,
            }),
            before.len() == 2048,
            forall|p: int| 0 <= p < 2048 ==> #[trigger] before[p] <= 1,
            forall|p: int|
                0 <= p < 2048 ==> #[trigger] display[p] == (if sprite.painted_before(
                    p,
                    r as int,
                    0,
                ) {
                    ((before[p] as int + sprite.pixel(p)) % 2) as u8
                } else {
                    before[p]
                }),
            collision ==> sprite.collides_with(before),
            !collision ==> forall|p: int|
                0 <= p < 2048 && sprite.painted_before(p, r as int, 0) ==> !(before[p] != 0
                    && #[trigger] sprite.pixel(p) == 1),
        decreases rows - r,
    {
        let byte = memory[(i as usize + r) % 4096];
        let py = (y0 + r) % 32;
        let mut c: usize = 0;
        let mut weight: u8 = 128;
        while c < 8
            invariant
                c <= 8,
                r < rows,
                rows < 16,
                x0 < 64,
                y0 < 32,
                py == (y0 + r) % 32,
                byte == memory@[cell(i as int + r as int)],
                c < 8 ==> weight as int == column_weight(c as int),
                sprite == (Sprite {
                    memory: memory@,
                    i,
                    rows: rows as int,
                    x0: x0 as int,
                    y0: y0 as int,
                }),
                before.len() == 2048,
                forall|p: int| 0 <= p < 2048 ==> #[trigger] before[p] <= 1,
                forall|p: int|
                    0 <= p < 2048 ==> #[trigger] display[p] == (if sprite.painted_before(
                        p,
                        r as int,
                        c as int,
                    ) {
                        ((before[p] as int + sprite.pixel(p)) % 2) as u8
                    } else {
                        before[p]
                    }),
                collision ==> sprite.collides_with(before),
                !collision ==> forall|p: int|
                    0 <= p < 2048 && sprite.painted_before(p, r as int, c as int) ==> !(before[p]
                        != 0 && #[trigger] sprite.pixel(p) == 1),
            decreases 8 - c,
        {
            let bit = (byte / weight) % 2;
            let px = (x0 + c) % 64;
            let here = py * 64 + px;
            proof {
                lemma_cell_under(sprite, r as int, c as int);
                assert(here as int == sprite.cell_under(r as int, c as int));
                assert(sprite.covers(here as int));
                assert(sprite.pixel(here as int) == bit as int);
                assert(!sprite.painted_before(here as int, r as int, c as int));
                assert(display[here as int] == before[here as int]);
            }
            if bit == 1 {
                if display[here] != 0 {
                    collision = true;
                }
                display[here] = 1 - display[here];
            }
            c += 1;
            if c < 8 {
                weight = weight / 2;
            }
            proof {
                assert forall|p: int| 0 <= p < 2048 implies #[trigger] display[p] == (if sprite.painted_before(
                    p,
                    r as int,
                    c as int,
                ) {
                    ((before[p] as int + sprite.pixel(p)) % 2) as u8
                } else {
                    before[p]
                }) by {
                    if p != here as int {
                        assert(sprite.painted_before(p, r as int, c as int)
                            == sprite.painted_before(p, r as int, c as int - 1));
                    }
                }
            }
        }
        r += 1;
        proof {
            assert forall|p: int| 0 <= p < 2048 implies sprite.painted_before(p, r as int, 0)
                == sprite.painted_before(p, r as int - 1, 8) by {}
        }
    }
    proof {
        assert forall|p: int| 0 <= p < 2048 implies sprite.painted_before(p, rows as int, 0)
            == sprite.covers(p) by {}
        assert(display@ =~= sprite.drawn_on(before));
    }
    collision
}

} // verus!
