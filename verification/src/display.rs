//! The logical pixel grid sprites are composed onto.
//!
//! Pixels are binary and XOR-composited: drawing a set sprite bit over a
//! set pixel unsets it, and such a transition is reported as a collision.
//! Rendering the grid to an actual screen is the host's concern; the core
//! only maintains the grid and the collision flag semantics.

use vstd::prelude::*;

verus! {

/// Width of the pixel grid, in pixels.
pub const DISPLAY_WIDTH: usize = 64;
/// Height of the pixel grid, in pixels.
pub const DISPLAY_HEIGHT: usize = 32;
/// Number of pixels in the grid.
pub const DISPLAY_LEN: usize = 2048;

/// The linear index of the pixel at column `x`, row `y`.
pub open spec fn spec_coord(x: int, y: int) -> int {
    y * 64 + x
}

/// The value of sprite-row bit `c`, counted from the most significant
/// (leftmost drawn) bit: 1 if set, 0 if clear.
pub open spec fn spec_sprite_bit(row: u8, c: int) -> u8 {
    if (row >> ((7 - c) as u8)) % 2 == 1 {
        1u8
    } else {
        0u8
    }
}

/// The value of the pixel at `(cx, cy)` after XOR-compositing the sprite
/// `rows` with its top-left corner at `(px, py)`, over the old `screen`.
/// Pixels outside the sprite's footprint keep their old value; the sprite
/// clips at the right and bottom edges.
pub open spec fn spec_drawn_pixel(
    screen: Seq<u8>,
    rows: Seq<u8>,
    px: int,
    py: int,
    cx: int,
    cy: int,
) -> u8 {
    let r = cy - py;
    let c = cx - px;
    if 0 <= r < rows.len() && 0 <= c < 8 && spec_sprite_bit(rows[r], c) == 1 {
        if screen[spec_coord(cx, cy)] == 1 {
            0u8
        } else {
            1u8
        }
    } else {
        screen[spec_coord(cx, cy)]
    }
}

/// Whether some sprite bit among the rows before `r`, or in row `r` before
/// column `c`, lands on an in-bounds pixel that is already set.
pub open spec fn spec_collision_upto(
    screen: Seq<u8>,
    rows: Seq<u8>,
    px: int,
    py: int,
    r: int,
    c: int,
) -> bool {
    exists|rr: int, cc: int|
        0 <= rr < rows.len() && 0 <= cc < 8 && (rr < r || (rr == r && cc < c)) && py + rr < 32
            && px + cc < 64 && spec_sprite_bit(rows[rr], cc) == 1 && screen[spec_coord(
            px + cc,
            py + rr,
        )] == 1
}

/// Whether XOR-compositing the sprite `rows` at `(px, py)` turns any set
/// pixel unset.
pub open spec fn spec_collision(screen: Seq<u8>, rows: Seq<u8>, px: int, py: int) -> bool {
    spec_collision_upto(screen, rows, px, py, rows.len() as int, 0)
}

/// The pixel at `(cx, cy)` once the sprite bits among the rows before
/// `r`, and in row `r` before column `c`, have been composed; the
/// remaining bits are still pending.
pub open spec fn spec_drawn_upto(
    screen: Seq<u8>,
    rows: Seq<u8>,
    px: int,
    py: int,
    r: int,
    c: int,
    cx: int,
    cy: int,
) -> u8 {
    let rr = cy - py;
    let cc = cx - px;
    if 0 <= rr < rows.len() && 0 <= cc < 8 && (rr < r || (rr == r && cc < c)) && spec_sprite_bit(
        rows[rr],
        cc,
    ) == 1 {
        if screen[spec_coord(cx, cy)] == 1 {
            0u8
        } else {
            1u8
        }
    } else {
        screen[spec_coord(cx, cy)]
    }
}

/// Advancing the processed region by one sprite bit adds exactly that
/// bit's possible collision.
proof fn lemma_coll_step(screen: Seq<u8>, rows: Seq<u8>, px: int, py: int, r: int, c: int)
    requires
        0 <= r < rows.len(),
        0 <= c < 8,
    ensures
        spec_collision_upto(screen, rows, px, py, r, c + 1) <==> (spec_collision_upto(
            screen,
            rows,
            px,
            py,
            r,
            c,
        ) || (py + r < 32 && px + c < 64 && spec_sprite_bit(rows[r], c) == 1 && screen[spec_coord(
            px + c,
            py + r,
        )] == 1)),
{
    if spec_collision_upto(screen, rows, px, py, r, c + 1) {
        let (rr, cc): (int, int) = choose|rr: int, cc: int|
            0 <= rr < rows.len() && 0 <= cc < 8 && (rr < r || (rr == r && cc < c + 1)) && py + rr
                < 32 && px + cc < 64 && spec_sprite_bit(rows[rr], cc) == 1 && screen[spec_coord(
                px + cc,
                py + rr,
            )] == 1;
        if rr < r || (rr == r && cc < c) {
            assert(spec_collision_upto(screen, rows, px, py, r, c));
        } else {
            assert(rr == r && cc == c);
        }
    }
    if spec_collision_upto(screen, rows, px, py, r, c) {
        let (rr, cc): (int, int) = choose|rr: int, cc: int|
            0 <= rr < rows.len() && 0 <= cc < 8 && (rr < r || (rr == r && cc < c)) && py + rr < 32
                && px + cc < 64 && spec_sprite_bit(rows[rr], cc) == 1 && screen[spec_coord(
                px + cc,
                py + rr,
            )] == 1;
        assert(0 <= rr < rows.len() && 0 <= cc < 8 && (rr < r || (rr == r && cc < c + 1)) && py + rr
            < 32 && px + cc < 64 && spec_sprite_bit(rows[rr], cc) == 1 && screen[spec_coord(
            px + cc,
            py + rr,
        )] == 1);
    }
}

/// A fully processed row and the start of the next row bound the same
/// collision region.
proof fn lemma_coll_row(screen: Seq<u8>, rows: Seq<u8>, px: int, py: int, r: int)
    requires
        0 <= r <= rows.len(),
    ensures
        spec_collision_upto(screen, rows, px, py, r + 1, 0) <==> spec_collision_upto(
            screen,
            rows,
            px,
            py,
            r,
            8,
        ),
{
    if spec_collision_upto(screen, rows, px, py, r + 1, 0) {
        let (rr, cc): (int, int) = choose|rr: int, cc: int|
            0 <= rr < rows.len() && 0 <= cc < 8 && (rr < r + 1 || (rr == r + 1 && cc < 0)) && py
                + rr < 32 && px + cc < 64 && spec_sprite_bit(rows[rr], cc) == 1 && screen[spec_coord(
                px + cc,
                py + rr,
            )] == 1;
        assert(rr < r || (rr == r && cc < 8));
        assert(spec_collision_upto(screen, rows, px, py, r, 8));
    }
    if spec_collision_upto(screen, rows, px, py, r, 8) {
        let (rr, cc): (int, int) = choose|rr: int, cc: int|
            0 <= rr < rows.len() && 0 <= cc < 8 && (rr < r || (rr == r && cc < 8)) && py + rr < 32
                && px + cc < 64 && spec_sprite_bit(rows[rr], cc) == 1 && screen[spec_coord(
                px + cc,
                py + rr,
            )] == 1;
        assert(0 <= rr < rows.len() && 0 <= cc < 8 && (rr < r + 1 || (rr == r + 1 && cc < 0)) && py
            + rr < 32 && px + cc < 64 && spec_sprite_bit(rows[rr], cc) == 1 && screen[spec_coord(
            px + cc,
            py + rr,
        )] == 1);
    }
}

/// The pixel grid: one byte per pixel, each 0 (unset) or 1 (set), in
/// row-major order.
pub struct Display {
    /// Pixel states, `DISPLAY_LEN` entries, each 0 or 1.
    pub screen: Vec<u8>,
}

impl Display {
    /// The grid is the right size and every pixel is binary.
    pub open spec fn wf(&self) -> bool {
        &&& self.screen@.len() == 2048
        &&& forall|k: int| 0 <= k < 2048 ==> self.screen@[k] <= 1
    }

    /// A grid with every pixel unset.
    pub fn new() -> (d: Display)
        ensures
            d.wf(),
            d.screen@ == Seq::new(2048, |k: int| 0u8),
    {
        Display { screen: vec![0u8; 2048] }
    }

    /// Maps coordinate `(x, y)` into the one-dimensional pixel index.
    pub fn get_coord(x: usize, y: usize) -> (idx: usize)
        requires
            x < 64,
            y < 32,
        ensures
            idx == spec_coord(x as int, y as int),
            idx < 2048,
    {
        y * DISPLAY_WIDTH + x
    }

    /// XOR-composites the sprite `rows` with its top-left corner at
    /// `(px, py)`: each set sprite bit flips its pixel, the sprite clips
    /// at the right and bottom edges, and the result reports whether any
    /// pixel went from set to unset.
    pub fn draw_sprite(&mut self, px: u8, py: u8, rows: &Vec<u8>) -> (collision: bool)
        requires
            old(self).wf(),
            px < 64,
            py < 32,
            rows@.len() <= 16,
        ensures
            final(self).wf(),
            forall|cx: int, cy: int|
                0 <= cx < 64 && 0 <= cy < 32 ==> final(self).screen@[spec_coord(cx, cy)]
                    == spec_drawn_pixel(
                    old(self).screen@,
                    rows@,
                    px as int,
                    py as int,
                    cx,
                    cy,
                ),
            collision == spec_collision(old(self).screen@, rows@, px as int, py as int),
    {
        let mut collision: bool = false;
        let mut r: usize = 0;
        while r < rows.len()
            invariant
                old(self).wf(),
                px < 64,
                py < 32,
                rows@.len() <= 16,
                r <= rows@.len(),
                self.screen@.len() == 2048,
                forall|k: int| 0 <= k < 2048 ==> self.screen@[k] <= 1,
                forall|cx: int, cy: int|
                    0 <= cx < 64 && 0 <= cy < 32 ==> self.screen@[spec_coord(cx, cy)]
                        == spec_drawn_upto(
                        old(self).screen@,
                        rows@,
                        px as int,
                        py as int,
                        r as int,
                        0,
                        cx,
                        cy,
                    ),
                collision == spec_collision_upto(
                    old(self).screen@,
                    rows@,
                    px as int,
                    py as int,
                    r as int,
                    0,
                ),
            decreases rows@.len() - r,
        {
            let row: u8 = rows[r];
            let mut c: usize = 0;
            while c < 8
                invariant
                    old(self).wf(),
                    px < 64,
                    py < 32,
                    rows@.len() <= 16,
                    r < rows@.len(),
                    row == rows@[r as int],
                    c <= 8,
                    self.screen@.len() == 2048,
                    forall|k: int| 0 <= k < 2048 ==> self.screen@[k] <= 1,
                    forall|cx: int, cy: int|
                        0 <= cx < 64 && 0 <= cy < 32 ==> self.screen@[spec_coord(cx, cy)]
                            == spec_drawn_upto(
                            old(self).screen@,
                            rows@,
                            px as int,
                            py as int,
                            r as int,
                            c as int,
                            cx,
                            cy,
                        ),
                    collision == spec_collision_upto(
                        old(self).screen@,
                        rows@,
                        px as int,
                        py as int,
                        r as int,
                        c as int,
                    ),
                decreases 8 - c,
            {
                let ghost pre_screen: Seq<u8> = self.screen@;
                if py as usize + r < 32 && px as usize + c < 64 {
                    let cx: usize = px as usize + c;
                    let cy: usize = py as usize + r;
                    let idx: usize = cy * 64 + cx;
                    let bit: u8 = (row >> ((7 - c) as u8)) % 2;
                    if bit == 1 {
                        let oldpix: u8 = self.screen[idx];
                        if oldpix == 1 {
                            collision = true;
                            self.screen.set(idx, 0);
                        } else {
                            self.screen.set(idx, 1);
                        }
                    }
                }
                proof {
                    lemma_coll_step(
                        old(self).screen@,
                        rows@,
                        px as int,
                        py as int,
                        r as int,
                        c as int,
                    );
                    let updated = py + r < 32 && px + c < 64 && spec_sprite_bit(
                        rows@[r as int],
                        c as int,
                    ) == 1;
                    assert forall|cx: int, cy: int| 0 <= cx < 64 && 0 <= cy < 32 implies
                        self.screen@[spec_coord(cx, cy)] == spec_drawn_upto(
                        old(self).screen@,
                        rows@,
                        px as int,
                        py as int,
                        r as int,
                        c + 1,
                        cx,
                        cy,
                    ) by {
                        assert(pre_screen[spec_coord(cx, cy)] == spec_drawn_upto(
                            old(self).screen@,
                            rows@,
                            px as int,
                            py as int,
                            r as int,
                            c as int,
                            cx,
                            cy,
                        ));
                        if updated {
                            if cx == px + c && cy == py + r {
                            } else {
                                assert(spec_coord(cx, cy) != spec_coord(px + c, py + r));
                                assert(self.screen@[spec_coord(cx, cy)] == pre_screen[spec_coord(
                                    cx,
                                    cy,
                                )]);
                            }
                        } else {
                            assert(self.screen@ == pre_screen);
                        }
                    }
                }
                c += 1;
            }
            proof {
                lemma_coll_row(old(self).screen@, rows@, px as int, py as int, r as int);
                assert forall|cx: int, cy: int| 0 <= cx < 64 && 0 <= cy < 32 implies
                    self.screen@[spec_coord(cx, cy)] == spec_drawn_upto(
                    old(self).screen@,
                    rows@,
                    px as int,
                    py as int,
                    r + 1,
                    0,
                    cx,
                    cy,
                ) by {
                    assert(self.screen@[spec_coord(cx, cy)] == spec_drawn_upto(
                        old(self).screen@,
                        rows@,
                        px as int,
                        py as int,
                        r as int,
                        8,
                        cx,
                        cy,
                    ));
                }
            }
            r += 1;
        }
        proof {
            assert forall|cx: int, cy: int| 0 <= cx < 64 && 0 <= cy < 32 implies spec_drawn_upto(
                old(self).screen@,
                rows@,
                px as int,
                py as int,
                rows@.len() as int,
                0,
                cx,
                cy,
            ) == spec_drawn_pixel(
                old(self).screen@,
                rows@,
                px as int,
                py as int,
                cx,
                cy,
            ) by {}
        }
        collision
    }

    /// Unsets every pixel.
    pub fn clear(&mut self)
        ensures
            final(self).wf(),
            final(self).screen@ == Seq::new(2048, |k: int| 0u8),
    {
        self.screen = vec![0u8; 2048];
    }
}

} // verus!
