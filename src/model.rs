use vstd::prelude::*;

use crate::chip::{ChipError, ChipState, FLAG, MEMORY_SIZE, SCREEN_HEIGHT, SCREEN_WIDTH, STACK_SIZE, TEXTURE_SIZE};
use crate::keys::{any_pressed, first_pressed};

verus! {

/// Whether bit `col` of a sprite row is set, counting from the most
/// significant bit.
pub open spec fn sprite_bit(row: u8, col: int) -> bool {
    row & (0x80u8 >> (col as u8)) != 0
}

/// `r` and the final state `after` are what `expected` says: on success the
/// new state, on failure its error with the state left as `before`.
pub open spec fn outcome(
    expected: Result<ChipState, ChipError>,
    r: Result<(), ChipError>,
    before: ChipState,
    after: ChipState,
) -> bool {
    match expected {
        Ok(s) => r is Ok && after == s,
        Err(e) => r == Err::<(), ChipError>(e) && after == before,
    }
}

impl ChipState {
    /// Register `i` set to `v`.
    pub open spec fn with_register(self, i: int, v: u8) -> ChipState {
        ChipState { registers: self.registers.update(i, v), ..self }
    }

    /// Register `x` set to `v`, then the flag register to `flag`.
    pub open spec fn with_flagged(self, x: int, v: u8, flag: u8) -> ChipState {
        self.with_register(x, v).with_register(FLAG as int, flag)
    }

    /// The program counter set to `pc`.
    pub open spec fn with_pc(self, pc: int) -> ChipState {
        ChipState { program_counter: pc as u16, ..self }
    }

    /// The next instruction skipped where `cond` holds.
    pub open spec fn skipped_if(self, cond: bool) -> ChipState {
        if cond {
            self.with_pc(self.program_counter + 2)
        } else {
            self
        }
    }

    /// Every pixel off.
    pub open spec fn cleared(self) -> ChipState {
        ChipState { texture: Seq::new(TEXTURE_SIZE as nat, |i: int| 0u8), ..self }
    }

    /// The top return address popped into the program counter.
    pub open spec fn returned(self) -> Result<ChipState, ChipError> {
        if self.stack_pointer == 0 {
            Err(ChipError::CallStackUnderflow)
        } else {
            let sp = self.stack_pointer - 1;
            Ok(ChipState { stack_pointer: sp as u16, program_counter: self.stack[sp], ..self })
        }
    }

    /// The program counter pushed as return address, then set to `nnn`.
    pub open spec fn called(self, nnn: u16) -> Result<ChipState, ChipError> {
        if self.stack_pointer >= STACK_SIZE {
            Err(ChipError::CallStackOverflow)
        } else {
            Ok(
                ChipState {
                    stack: self.stack.update(self.stack_pointer as int, self.program_counter),
                    stack_pointer: (self.stack_pointer + 1) as u16,
                    program_counter: nnn,
                    ..self
                },
            )
        }
    }

    /// Register `x` plus register `y`, modulo 256; flag 1 exactly where the
    /// sum reaches 256.
    pub open spec fn added(self, x: int, y: int) -> ChipState {
        let a = self.registers[x];
        let b = self.registers[y];
        self.with_flagged(
            x,
            ((a + b) % 256) as u8,
            if a + b >= 256 {
                1
            } else {
                0
            },
        )
    }

    /// Register `x` set to `a - b` modulo 256, for `a`, `b` the registers
    /// `from` and `sub`; flag 1 exactly where `a < b`.
    pub open spec fn subtracted(self, x: int, from: int, sub: int) -> ChipState {
        let a = self.registers[from];
        let b = self.registers[sub];
        self.with_flagged(
            x,
            ((a - b) % 256) as u8,
            if a < b {
                1
            } else {
                0
            },
        )
    }

    /// Register `x` halved; flag its least significant bit before.
    pub open spec fn shifted_right(self, x: int) -> ChipState {
        let a = self.registers[x];
        self.with_flagged(x, (a / 2) as u8, (a % 2) as u8)
    }

    /// Register `x` doubled modulo 256; flag its most significant bit before.
    pub open spec fn shifted_left(self, x: int) -> ChipState {
        let a = self.registers[x];
        self.with_flagged(x, ((a * 2) % 256) as u8, (a / 128) as u8)
    }

    /// Pixel `p` is among those a sprite of `n` rows from the index register,
    /// drawn at column `rx` and row `ry`, turns over: within the sprite's
    /// 8-by-`n` box and on a set bit. Pixels past the screen's edges are
    /// never reached.
    pub open spec fn sprite_covers(self, rx: int, ry: int, n: int, p: int) -> bool {
        let px = p % SCREEN_WIDTH as int;
        let py = p / SCREEN_WIDTH as int;
        &&& rx <= px < rx + 8
        &&& ry <= py < ry + n
        &&& sprite_bit(self.memory[self.index_register + (py - ry)], px - rx)
    }

    /// Some pixel that the sprite turns over is on.
    pub open spec fn collides(self, rx: int, ry: int, n: int) -> bool {
        exists|p: int|
            0 <= p < TEXTURE_SIZE && self.sprite_covers(rx, ry, n, p) && self.texture[p] == 1
    }

    /// The sprite of `n` rows at the index register XORed onto the
    /// framebuffer at (register `x`, register `y`), with the flag set to the
    /// collision. A start outside the screen or a sprite read past the end
    /// of memory is refused; the parts of a sprite past the right or bottom
    /// edge are clipped.
    pub open spec fn drawn(self, x: int, y: int, n: int) -> Result<ChipState, ChipError> {
        let rx = self.registers[x] as int;
        let ry = self.registers[y] as int;
        if rx >= SCREEN_WIDTH || ry >= SCREEN_HEIGHT || self.index_register + n > MEMORY_SIZE {
            Err(ChipError::OutOfBoundsAccess)
        } else {
            let texture = Seq::new(
                TEXTURE_SIZE as nat,
                |p: int|
                    if self.sprite_covers(rx, ry, n, p) {
                        self.texture[p] ^ 1u8
                    } else {
                        self.texture[p]
                    },
            );
            Ok(
                ChipState { texture, ..self }.with_register(
                    FLAG as int,
                    if self.collides(rx, ry, n) {
                        1
                    } else {
                        0
                    },
                ),
            )
        }
    }

    /// The next instruction skipped where the key named by register `x` is
    /// pressed (`pressed`) or not (`!pressed`); a register naming no key is
    /// refused.
    pub open spec fn skipped_on_key(self, x: int, pressed: bool) -> Result<ChipState, ChipError> {
        let k = self.registers[x] as int;
        if k >= 16 {
            Err(ChipError::OutOfBoundsAccess)
        } else {
            Ok(self.skipped_if(self.keys[k] == pressed))
        }
    }

    /// Register `x` set to the lowest pressed key; with no key pressed, the
    /// program counter moved back so that the instruction runs again.
    pub open spec fn waited_for_key(self, x: int) -> ChipState {
        if any_pressed(self.keys) {
            self.with_register(x, first_pressed(self.keys) as u8)
        } else {
            self.with_pc(self.program_counter - 2)
        }
    }

    /// The index register plus register `x`, modulo 65536; flag 1 exactly
    /// where the sum reaches 65536.
    pub open spec fn added_to_index(self, x: int) -> ChipState {
        let sum = self.index_register + self.registers[x];
        ChipState { index_register: (sum % 0x10000) as u16, ..self }.with_register(
            FLAG as int,
            if sum >= 0x10000 {
                1
            } else {
                0
            },
        )
    }

    /// The decimal digits of register `x` stored at the index register,
    /// most significant first.
    pub open spec fn stored_bcd(self, x: int) -> Result<ChipState, ChipError> {
        let i = self.index_register as int;
        let v = self.registers[x];
        if i + 3 > MEMORY_SIZE {
            Err(ChipError::OutOfBoundsAccess)
        } else {
            Ok(
                ChipState {
                    memory: self.memory.update(i, (v / 100) as u8).update(
                        i + 1,
                        ((v / 10) % 10) as u8,
                    ).update(i + 2, (v % 10) as u8),
                    ..self
                },
            )
        }
    }

    /// Registers 0 to `x` copied to memory from the index register on.
    pub open spec fn dumped(self, x: int) -> Result<ChipState, ChipError> {
        let i = self.index_register as int;
        if i + x + 1 > MEMORY_SIZE {
            Err(ChipError::OutOfBoundsAccess)
        } else {
            Ok(
                ChipState {
                    memory: Seq::new(
                        self.memory.len(),
                        |a: int|
                            if i <= a <= i + x {
                                self.registers[a - i]
                            } else {
                                self.memory[a]
                            },
                    ),
                    ..self
                },
            )
        }
    }

    /// Registers 0 to `x` loaded from memory from the index register on.
    pub open spec fn loaded(self, x: int) -> Result<ChipState, ChipError> {
        let i = self.index_register as int;
        if i + x + 1 > MEMORY_SIZE {
            Err(ChipError::OutOfBoundsAccess)
        } else {
            Ok(
                ChipState {
                    registers: Seq::new(
                        self.registers.len(),
                        |r: int|
                            if r <= x {
                                self.memory[i + r]
                            } else {
                                self.registers[r]
                            },
                    ),
                    ..self
                },
            )
        }
    }
}

} // verus!
