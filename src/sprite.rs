use vstd::prelude::*;

use crate::chip::{Chip, ChipError, ChipState, FLAG, MEMORY_SIZE, SCREEN_HEIGHT, SCREEN_WIDTH, TEXTURE_SIZE};
use crate::model::outcome;

verus! {

/// Pixel `p` is turned over by the sprite and comes before (`row`, `col`)
/// in the order in which the sprite is drawn: row by row, left to right.
pub open spec fn drawn_before(
    s: ChipState,
    rx: int,
    ry: int,
    n: int,
    p: int,
    row: int,
    col: int,
) -> bool {
    let dy = p / SCREEN_WIDTH as int - ry;
    let dx = p % SCREEN_WIDTH as int - rx;
    &&& s.sprite_covers(rx, ry, n, p)
    &&& (dy < row || (dy == row && dx < col))
}

/// A pixel's column and row are those from which its index was formed.
proof fn lemma_pixel_position(p: int, px: int, py: int)
    requires
        0 <= p < TEXTURE_SIZE,
        0 <= px,
        0 <= py,
    ensures
        (p % 64 == px && p / 64 == py) <==> (px < 64 && py < 32 && p == py * 64 + px),
{
    assert(p == 64 * (p / 64) + p % 64) by (nonlinear_arith);
    assert(0 <= p % 64 < 64) by (nonlinear_arith);
    if px < 64 && py < 32 && p == py * 64 + px {
        vstd::arithmetic::div_mod::lemma_fundamental_div_mod_converse(p, 64, py, px);
    }
    if p / 64 == py {
        assert(p / 64 < 32) by (nonlinear_arith)
            requires
                0 <= p < 2048,
        ;
    }
}

impl Chip {
    /// 0xDXYN: XORs the N-row sprite at the index register onto the
    /// framebuffer at (register X, register Y), then sets the flag to 1 if
    /// any pixel went from on to off, else 0. A start outside the screen or
    /// a sprite read past the end of memory is refused; what runs past the
    /// right or bottom edge is clipped.
    pub fn draw_sprite(&mut self) -> (r: Result<(), ChipError>)
        requires
            old(self)@.wf(),
        ensures
            outcome(
                old(self)@.drawn(
                    old(self).oppcode_data.x as int,
                    old(self).oppcode_data.y as int,
                    old(self).oppcode_data.n as int,
                ),
                r,
                old(self)@,
                final(self)@,
            ),
    {
        let rx = self.registers[self.oppcode_data.x as usize] as usize;
        let ry = self.registers[self.oppcode_data.y as usize] as usize;
        let n = self.oppcode_data.n as usize;
        let base = self.index_register as usize;
        if rx >= SCREEN_WIDTH || ry >= SCREEN_HEIGHT || base + n > MEMORY_SIZE {
            return Err(ChipError::OutOfBoundsAccess);
        }
        let ghost s0 = self@;
        let mut collision = false;
        let mut row: usize = 0;
        while row < n
            invariant
                s0 == old(self)@,
                s0.wf(),
                rx < SCREEN_WIDTH,
                ry < SCREEN_HEIGHT,
                n < 16,
                base + n <= MEMORY_SIZE,
                base == s0.index_register,
                row <= n,
                self@ == (ChipState { texture: self.texture@, ..s0 }),
                self.texture@.len() == TEXTURE_SIZE,
                forall|p: int|
                    0 <= p < TEXTURE_SIZE ==> self.texture@[p] == if drawn_before(
                        s0,
                        rx as int,
                        ry as int,
                        n as int,
                        p,
                        row as int,
                        0,
                    ) {
                        s0.texture[p] ^ 1u8
                    } else {
                        s0.texture[p]
                    },
                collision == exists|p: int|
                    0 <= p < TEXTURE_SIZE && drawn_before(
                        s0,
                        rx as int,
                        ry as int,
                        n as int,
                        p,
                        row as int,
                        0,
                    ) && s0.texture[p] == 1,
            decreases n - row,
        {
            let bits = self.memory[base + row];
            let mut col: usize = 0;
            while col < 8
                invariant
                    s0 == old(self)@,
                    s0.wf(),
                    rx < SCREEN_WIDTH,
                    ry < SCREEN_HEIGHT,
                    n < 16,
                    base + n <= MEMORY_SIZE,
                    base == s0.index_register,
                    row < n,
                    col <= 8,
                    bits == s0.memory[base + row],
                    self@ == (ChipState { texture: self.texture@, ..s0 }),
                    self.texture@.len() == TEXTURE_SIZE,
                    forall|p: int|
                        0 <= p < TEXTURE_SIZE ==> self.texture@[p] == if drawn_before(
                            s0,
                            rx as int,
                            ry as int,
                            n as int,
                            p,
                            row as int,
                            col as int,
                        ) {
                            s0.texture[p] ^ 1u8
                        } else {
                            s0.texture[p]
                        },
                    collision == exists|p: int|
                        0 <= p < TEXTURE_SIZE && drawn_before(
                            s0,
                            rx as int,
                            ry as int,
                            n as int,
                            p,
                            row as int,
                            col as int,
                        ) && s0.texture[p] == 1,
                decreases 8 - col,
            {
                let px = rx + col;
                let py = ry + row;
                let set = bits & (0x80u8 >> (col as u8)) != 0;
                let ghost q = py * 64 + px;
                assert forall|p: int| 0 <= p < TEXTURE_SIZE implies drawn_before(
                    s0,
                    rx as int,
                    ry as int,
                    n as int,
                    p,
                    row as int,
                    col + 1,
                ) == (drawn_before(s0, rx as int, ry as int, n as int, p, row as int, col as int)
                    || (p == q && px < SCREEN_WIDTH && py < SCREEN_HEIGHT && set)) by {
                    lemma_pixel_position(p, px as int, py as int);
                }
                if px < SCREEN_WIDTH && py < SCREEN_HEIGHT && set {
                    let p = py * SCREEN_WIDTH + px;
                    proof {
                        lemma_pixel_position(q, px as int, py as int);
                    }
                    if self.texture[p] == 1 {
                        collision = true;
                    }
                    self.texture[p] = self.texture[p] ^ 1;
                }
                col = col + 1;
            }
            assert forall|p: int| 0 <= p < TEXTURE_SIZE implies drawn_before(
                s0,
                rx as int,
                ry as int,
                n as int,
                p,
                row as int,
                8,
            ) == drawn_before(s0, rx as int, ry as int, n as int, p, row + 1, 0) by {}
            row = row + 1;
        }
        let ghost expected = old(self)@.drawn(
            old(self).oppcode_data.x as int,
            old(self).oppcode_data.y as int,
            n as int,
        )->Ok_0;
        assert forall|p: int| 0 <= p < TEXTURE_SIZE implies drawn_before(
            s0,
            rx as int,
            ry as int,
            n as int,
            p,
            n as int,
            0,
        ) == s0.sprite_covers(rx as int, ry as int, n as int, p) by {}
        assert(self.texture@ =~= expected.texture);
        assert(collision == s0.collides(rx as int, ry as int, n as int));
        self.registers[FLAG] = if collision { 1 } else { 0 };
        Ok(())
    }
}

} // verus!
