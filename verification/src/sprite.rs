//! Sprites: what drawing one does to the framebuffer, cell by cell, and the
//! scan that does it.

use vstd::prelude::*;
use crate::machine::Chip8;
use crate::model::State;

verus! {

/// Whether column `col` (0 is leftmost) of a sprite row is set.
pub open spec fn row_bit(row: u8, col: int) -> bool {
    row & (0x80u8 >> (col as u8)) != 0
}

/// Whether the `n`-row sprite stored at `i`, drawn with its top left corner
/// at (`vx`, `vy`), has a set bit on the screen position (`px`, `py`).
pub open spec fn sprite_covers(
    memory: Seq<u8>,
    i: int,
    vx: int,
    vy: int,
    n: int,
    px: int,
    py: int,
) -> bool {
    &&& vx <= px < vx + 8
    &&& vy <= py < vy + n
    &&& row_bit(memory[i + (py - vy)], px - vx)
}

/// Whether the sprite has a set bit on framebuffer cell `k`, which is the
/// screen position (`k % 64`, `k / 64`).
pub open spec fn cell_covered(memory: Seq<u8>, i: int, vx: int, vy: int, n: int, k: int) -> bool {
    sprite_covers(memory, i, vx, vy, n, k % 64, k / 64)
}

/// The framebuffer after the sprite is drawn: every covered cell is XOR-ed
/// with 1, every other cell is as it was. Bits that would land right of
/// column 63 or below row 31 cover no cell, so they touch nothing.
pub open spec fn sprite_drawn(
    gfx: Seq<u8>,
    memory: Seq<u8>,
    i: int,
    vx: int,
    vy: int,
    n: int,
) -> Seq<u8> {
    Seq::new(
        2048,
        |k: int|
            if cell_covered(memory, i, vx, vy, n, k) {
                gfx[k] ^ 1
            } else {
                gfx[k]
            },
    )
}

/// Whether drawing the sprite turns a lit cell off.
pub open spec fn sprite_collides(
    gfx: Seq<u8>,
    memory: Seq<u8>,
    i: int,
    vx: int,
    vy: int,
    n: int,
) -> bool {
    exists|k: int| 0 <= k < 2048 && #[trigger] cell_covered(memory, i, vx, vy, n, k) && gfx[k] == 1
}

/// Whether cell `k` is covered by a sprite bit that a row-by-row scan has
/// passed when it stands at row `r`, column `c` of the sprite.
spec fn covered_before(
    memory: Seq<u8>,
    i: int,
    vx: int,
    vy: int,
    n: int,
    k: int,
    r: int,
    c: int,
) -> bool {
    &&& cell_covered(memory, i, vx, vy, n, k)
    &&& (k / 64 - vy < r || (k / 64 - vy == r && k % 64 - vx < c))
}

/// Whether the part of the sprite that the scan has passed covers a lit cell.
spec fn collides_before(
    gfx: Seq<u8>,
    memory: Seq<u8>,
    i: int,
    vx: int,
    vy: int,
    n: int,
    r: int,
    c: int,
) -> bool {
    exists|k: int|
        0 <= k < 2048 && #[trigger] covered_before(memory, i, vx, vy, n, k, r, c) && gfx[k] == 1
}

/// Moving the scan from the end of one row to the start of the next passes no bit.
proof fn lemma_next_row(gfx: Seq<u8>, memory: Seq<u8>, i: int, vx: int, vy: int, n: int, r: int)
    ensures
        forall|k: int|
            covered_before(memory, i, vx, vy, n, k, r, 8) == covered_before(
                memory,
                i,
                vx,
                vy,
                n,
                k,
                r + 1,
                0,
            ),
        collides_before(gfx, memory, i, vx, vy, n, r, 8) == collides_before(
            gfx,
            memory,
            i,
            vx,
            vy,
            n,
            r + 1,
            0,
        ),
{
    if collides_before(gfx, memory, i, vx, vy, n, r, 8) {
        let k = choose|k: int|
            0 <= k < 2048 && #[trigger] covered_before(memory, i, vx, vy, n, k, r, 8) && gfx[k]
                == 1;
        assert(covered_before(memory, i, vx, vy, n, k, r + 1, 0));
    }
    if collides_before(gfx, memory, i, vx, vy, n, r + 1, 0) {
        let k = choose|k: int|
            0 <= k < 2048 && #[trigger] covered_before(memory, i, vx, vy, n, k, r + 1, 0) && gfx[k]
                == 1;
        assert(covered_before(memory, i, vx, vy, n, k, r, 8));
    }
}

/// A scan that has passed every row has passed the whole sprite.
proof fn lemma_scan_done(gfx: Seq<u8>, memory: Seq<u8>, i: int, vx: int, vy: int, n: int)
    ensures
        forall|k: int|
            covered_before(memory, i, vx, vy, n, k, n, 0) == cell_covered(memory, i, vx, vy, n, k),
        collides_before(gfx, memory, i, vx, vy, n, n, 0) == sprite_collides(
            gfx,
            memory,
            i,
            vx,
            vy,
            n,
        ),
{
    if collides_before(gfx, memory, i, vx, vy, n, n, 0) {
        let k = choose|k: int|
            0 <= k < 2048 && #[trigger] covered_before(memory, i, vx, vy, n, k, n, 0) && gfx[k]
                == 1;
        assert(cell_covered(memory, i, vx, vy, n, k));
    }
    if sprite_collides(gfx, memory, i, vx, vy, n) {
        let k = choose|k: int|
            0 <= k < 2048 && #[trigger] cell_covered(memory, i, vx, vy, n, k) && gfx[k] == 1;
        assert(covered_before(memory, i, vx, vy, n, k, n, 0));
    }
}

/// Passing one sprite position that covers no cell changes nothing: its bit
/// is clear, or it lies off the screen.
proof fn lemma_pass_blank(
    gfx: Seq<u8>,
    memory: Seq<u8>,
    i: int,
    vx: int,
    vy: int,
    n: int,
    r: int,
    c: int,
)
    requires
        0 <= r < n,
        0 <= c < 8,
        0 <= vx,
        0 <= vy,
        !row_bit(memory[i + r], c) || vx + c >= 64 || vy + r >= 32,
    ensures
        forall|k: int|
            0 <= k < 2048 ==> covered_before(memory, i, vx, vy, n, k, r, c + 1) == covered_before(
                memory,
                i,
                vx,
                vy,
                n,
                k,
                r,
                c,
            ),
        collides_before(gfx, memory, i, vx, vy, n, r, c + 1) == collides_before(
            gfx,
            memory,
            i,
            vx,
            vy,
            n,
            r,
            c,
        ),
{
    assert forall|k: int| 0 <= k < 2048 implies covered_before(memory, i, vx, vy, n, k, r, c + 1)
        == covered_before(memory, i, vx, vy, n, k, r, c) by {
        if k / 64 - vy == r && k % 64 - vx == c {
            assert(!cell_covered(memory, i, vx, vy, n, k));
        }
    }
    if collides_before(gfx, memory, i, vx, vy, n, r, c + 1) {
        let k = choose|k: int|
            0 <= k < 2048 && #[trigger] covered_before(memory, i, vx, vy, n, k, r, c + 1) && gfx[k]
                == 1;
        assert(covered_before(memory, i, vx, vy, n, k, r, c));
    }
    if collides_before(gfx, memory, i, vx, vy, n, r, c) {
        let k = choose|k: int|
            0 <= k < 2048 && #[trigger] covered_before(memory, i, vx, vy, n, k, r, c) && gfx[k]
                == 1;
        assert(covered_before(memory, i, vx, vy, n, k, r, c + 1));
    }
}

/// Passing one sprite position with a set bit on the screen covers exactly
/// the cell under it, and collides there if that cell is lit.
proof fn lemma_pass_set(
    gfx: Seq<u8>,
    memory: Seq<u8>,
    i: int,
    vx: int,
    vy: int,
    n: int,
    r: int,
    c: int,
)
    requires
        0 <= r < n,
        0 <= c < 8,
        0 <= vx,
        0 <= vy,
        row_bit(memory[i + r], c),
        vx + c < 64,
        vy + r < 32,
    ensures
        forall|k: int|
            0 <= k < 2048 ==> covered_before(memory, i, vx, vy, n, k, r, c + 1) == (k == (vy + r)
                * 64 + vx + c || covered_before(memory, i, vx, vy, n, k, r, c)),
        !covered_before(memory, i, vx, vy, n, (vy + r) * 64 + vx + c, r, c),
        collides_before(gfx, memory, i, vx, vy, n, r, c + 1) == (gfx[(vy + r) * 64 + vx + c] == 1
            || collides_before(gfx, memory, i, vx, vy, n, r, c)),
{
    let cell = (vy + r) * 64 + vx + c;
    assert(cell % 64 == vx + c && cell / 64 == vy + r);
    assert(covered_before(memory, i, vx, vy, n, cell, r, c + 1));
    assert forall|k: int| 0 <= k < 2048 implies covered_before(memory, i, vx, vy, n, k, r, c + 1)
        == (k == cell || covered_before(memory, i, vx, vy, n, k, r, c)) by {
        if k / 64 - vy == r && k % 64 - vx == c {
            assert(k == cell);
        }
    }
    if collides_before(gfx, memory, i, vx, vy, n, r, c + 1) {
        let k = choose|k: int|
            0 <= k < 2048 && #[trigger] covered_before(memory, i, vx, vy, n, k, r, c + 1) && gfx[k]
                == 1;
        if k != cell {
            assert(covered_before(memory, i, vx, vy, n, k, r, c));
        }
    }
    if collides_before(gfx, memory, i, vx, vy, n, r, c) {
        let k = choose|k: int|
            0 <= k < 2048 && #[trigger] covered_before(memory, i, vx, vy, n, k, r, c) && gfx[k]
                == 1;
        assert(covered_before(memory, i, vx, vy, n, k, r, c + 1));
    }
}

impl Chip8 {
    /// Draws the `n`-row sprite stored at `I` with its top left corner at
    /// (`vx`, `vy`): XORs it onto the framebuffer, dropping what falls off
    /// the screen, records in VF whether a lit cell went dark, and raises the
    /// draw flag.
    pub fn draw_sprite(&mut self, vx: u8, vy: u8, n: u8)
        requires
            n == 0 || old(self).i + n <= 4096,
        ensures
            final(self)@ == (State {
                gfx: sprite_drawn(
                    old(self)@.gfx,
                    old(self)@.memory,
                    old(self).i as int,
                    vx as int,
                    vy as int,
                    n as int,
                ),
                v: old(self)@.v.update(
                    15,
                    if sprite_collides(
                        old(self)@.gfx,
                        old(self)@.memory,
                        old(self).i as int,
                        vx as int,
                        vy as int,
                        n as int,
                    ) {
                        1u8
                    } else {
                        0u8
                    },
                ),
                draw_flag: true,
                ..old(self)@
            }),
    {
        let ghost before = self@;
        let ghost i = self.i as int;
        let mut hit = false;
        let mut row: u8 = 0;
        while row < n
            invariant
                row <= n,
                i == before.i,
                n == 0 || i + n <= 4096,
                before.shaped(),
                self@ == (State { gfx: self.gfx@, ..before }),
                forall|k: int|
                    0 <= k < 2048 ==> self.gfx@[k] == (if covered_before(
                        before.memory,
                        i,
                        vx as int,
                        vy as int,
                        n as int,
                        k,
                        row as int,
                        0,
                    ) {
                        before.gfx[k] ^ 1
                    } else {
                        before.gfx[k]
                    }),
                hit == collides_before(
                    before.gfx,
                    before.memory,
                    i,
                    vx as int,
                    vy as int,
                    n as int,
                    row as int,
                    0,
                ),
            decreases n - row,
        {
            let bits = self.memory[self.i as usize + row as usize];
            let mut col: u8 = 0;
            while col < 8
                invariant
                    col <= 8,
                    row < n,
                    i == before.i,
                    i + n <= 4096,
                    before.shaped(),
                    bits == before.memory[i + row],
                    self@ == (State { gfx: self.gfx@, ..before }),
                    forall|k: int|
                        0 <= k < 2048 ==> self.gfx@[k] == (if covered_before(
                            before.memory,
                            i,
                            vx as int,
                            vy as int,
                            n as int,
                            k,
                            row as int,
                            col as int,
                        ) {
                            before.gfx[k] ^ 1
                        } else {
                            before.gfx[k]
                        }),
                    hit == collides_before(
                        before.gfx,
                        before.memory,
                        i,
                        vx as int,
                        vy as int,
                        n as int,
                        row as int,
                        col as int,
                    ),
                decreases 8 - col,
            {
                let x: u16 = vx as u16 + col as u16;
                let y: u16 = vy as u16 + row as u16;
                if bits & (0x80u8 >> col) != 0 && x < 64 && y < 32 {
                    let cell: usize = (x + y * 64) as usize;
                    proof {
                        lemma_pass_set(
                            before.gfx,
                            before.memory,
                            i,
                            vx as int,
                            vy as int,
                            n as int,
                            row as int,
                            col as int,
                        );
                    }
                    if self.gfx[cell] == 1 {
                        hit = true;
                    }
                    self.gfx[cell] ^= 1;
                } else {
                    proof {
                        lemma_pass_blank(
                            before.gfx,
                            before.memory,
                            i,
                            vx as int,
                            vy as int,
                            n as int,
                            row as int,
                            col as int,
                        );
                    }
                }
                col += 1;
            }
            proof {
                lemma_next_row(
                    before.gfx,
                    before.memory,
                    i,
                    vx as int,
                    vy as int,
                    n as int,
                    row as int,
                );
            }
            row += 1;
        }
        proof {
            lemma_scan_done(before.gfx, before.memory, i, vx as int, vy as int, n as int);
        }
        self.v[0xF] = if hit { 1 } else { 0 };
        self.draw_flag = true;
    }
}

} // verus!
