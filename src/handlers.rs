use vstd::prelude::*;

use crate::chip::{Chip, ChipError, ChipState, FLAG, MEMORY_SIZE, STACK_SIZE};
use crate::keys::{get_first_pressed_key, was_key_pressed};
use crate::model::outcome;

verus! {

impl Chip {
    /// 0x00E0: turns every pixel off.
    pub fn clear_screen(&mut self)
        ensures
            final(self)@ == old(self)@.cleared(),
    {
        self.texture = [0; 2048];
        assert(self.texture@ =~= old(self)@.cleared().texture);
    }

    /// 0x00EE: returns from a subroutine.
    pub fn return_from_subroutine(&mut self) -> (r: Result<(), ChipError>)
        requires
            old(self)@.wf(),
        ensures
            outcome(old(self)@.returned(), r, old(self)@, final(self)@),
    {
        if self.stack_pointer == 0 {
            return Err(ChipError::CallStackUnderflow);
        }
        self.stack_pointer = self.stack_pointer - 1;
        self.program_counter = self.stack[self.stack_pointer as usize];
        Ok(())
    }

    /// 0x1NNN: jumps to NNN.
    pub fn jump_to_address(&mut self)
        ensures
            final(self)@ == old(self)@.with_pc(old(self).oppcode_data.nnn as int),
    {
        self.program_counter = self.oppcode_data.nnn;
    }

    /// 0x2NNN: calls the subroutine at NNN; the return address is the
    /// program counter, which already points past this instruction.
    pub fn call_subroutine(&mut self) -> (r: Result<(), ChipError>)
        requires
            old(self)@.wf(),
        ensures
            outcome(old(self)@.called(old(self).oppcode_data.nnn), r, old(self)@, final(self)@),
    {
        if self.stack_pointer >= STACK_SIZE {
            return Err(ChipError::CallStackOverflow);
        }
        self.stack[self.stack_pointer as usize] = self.program_counter;
        self.stack_pointer = self.stack_pointer + 1;
        self.program_counter = self.oppcode_data.nnn;
        Ok(())
    }

    /// 0x3XNN: skips the next instruction if register X equals NN.
    pub fn skip_if_x_equal(&mut self)
        requires
            old(self)@.wf(),
            old(self).program_counter + 2 <= u16::MAX,
        ensures
            final(self)@ == old(self)@.skipped_if(
                old(self)@.registers[old(self).oppcode_data.x as int] == old(self).oppcode_data.nn,
            ),
    {
        if self.registers[self.oppcode_data.x as usize] == self.oppcode_data.nn {
            self.program_counter = self.program_counter + 2;
        }
    }

    /// 0x4XNN: skips the next instruction if register X differs from NN.
    pub fn skip_if_x_not_equal(&mut self)
        requires
            old(self)@.wf(),
            old(self).program_counter + 2 <= u16::MAX,
        ensures
            final(self)@ == old(self)@.skipped_if(
                old(self)@.registers[old(self).oppcode_data.x as int] != old(self).oppcode_data.nn,
            ),
    {
        if self.registers[self.oppcode_data.x as usize] != self.oppcode_data.nn {
            self.program_counter = self.program_counter + 2;
        }
    }

    /// 0x5XY0: skips the next instruction if registers X and Y are equal.
    pub fn skip_if_x_y_equal(&mut self)
        requires
            old(self)@.wf(),
            old(self).program_counter + 2 <= u16::MAX,
        ensures
            final(self)@ == old(self)@.skipped_if(
                old(self)@.registers[old(self).oppcode_data.x as int] == old(
                    self,
                )@.registers[old(self).oppcode_data.y as int],
            ),
    {
        if self.registers[self.oppcode_data.x as usize]
            == self.registers[self.oppcode_data.y as usize] {
            self.program_counter = self.program_counter + 2;
        }
    }

    /// 0x6XNN: sets register X to NN.
    pub fn assign_nn(&mut self)
        requires
            old(self)@.wf(),
        ensures
            final(self)@ == old(self)@.with_register(
                old(self).oppcode_data.x as int,
                old(self).oppcode_data.nn,
            ),
    {
        self.registers[self.oppcode_data.x as usize] = self.oppcode_data.nn;
    }

    /// 0x7XNN: adds NN to register X modulo 256, leaving the flag alone.
    pub fn add_nnn(&mut self)
        requires
            old(self)@.wf(),
        ensures
            final(self)@ == old(self)@.with_register(
                old(self).oppcode_data.x as int,
                ((old(self)@.registers[old(self).oppcode_data.x as int] + old(
                    self,
                ).oppcode_data.nn) % 256) as u8,
            ),
    {
        let x = self.oppcode_data.x as usize;
        self.registers[x] = self.registers[x].wrapping_add(self.oppcode_data.nn);
    }

    /// 0x8XY0: sets register X to register Y.
    pub fn assign(&mut self)
        requires
            old(self)@.wf(),
        ensures
            final(self)@ == old(self)@.with_register(
                old(self).oppcode_data.x as int,
                old(self)@.registers[old(self).oppcode_data.y as int],
            ),
    {
        self.registers[self.oppcode_data.x as usize] = self.registers[self.oppcode_data.y as usize];
    }

    /// 0x8XY1: sets register X to X OR Y.
    pub fn or(&mut self)
        requires
            old(self)@.wf(),
        ensures
            final(self)@ == old(self)@.with_register(
                old(self).oppcode_data.x as int,
                old(self)@.registers[old(self).oppcode_data.x as int] | old(
                    self,
                )@.registers[old(self).oppcode_data.y as int],
            ),
    {
        let x = self.oppcode_data.x as usize;
        self.registers[x] = self.registers[x] | self.registers[self.oppcode_data.y as usize];
    }

    /// 0x8XY2: sets register X to X AND Y.
    pub fn and(&mut self)
        requires
            old(self)@.wf(),
        ensures
            final(self)@ == old(self)@.with_register(
                old(self).oppcode_data.x as int,
                old(self)@.registers[old(self).oppcode_data.x as int] & old(
                    self,
                )@.registers[old(self).oppcode_data.y as int],
            ),
    {
        let x = self.oppcode_data.x as usize;
        self.registers[x] = self.registers[x] & self.registers[self.oppcode_data.y as usize];
    }

    /// 0x8XY3: sets register X to X XOR Y.
    pub fn xor(&mut self)
        requires
            old(self)@.wf(),
        ensures
            final(self)@ == old(self)@.with_register(
                old(self).oppcode_data.x as int,
                old(self)@.registers[old(self).oppcode_data.x as int] ^ old(
                    self,
                )@.registers[old(self).oppcode_data.y as int],
            ),
    {
        let x = self.oppcode_data.x as usize;
        self.registers[x] = self.registers[x] ^ self.registers[self.oppcode_data.y as usize];
    }

    /// 0x8XY4: adds register Y to register X modulo 256, then sets the flag
    /// to 1 on a carry, else 0.
    pub fn add(&mut self)
        requires
            old(self)@.wf(),
        ensures
            final(self)@ == old(self)@.added(
                old(self).oppcode_data.x as int,
                old(self).oppcode_data.y as int,
            ),
    {
        let x = self.oppcode_data.x as usize;
        let x_value = self.registers[x];
        let y_value = self.registers[self.oppcode_data.y as usize];
        let overflow = x_value > 255 - y_value;
        self.registers[x] = x_value.wrapping_add(y_value);
        self.registers[FLAG] = if overflow { 1 } else { 0 };
    }

    /// 0x8XY5: sets register X to X - Y modulo 256, then the flag to 1 on a
    /// borrow, else 0.
    pub fn subtract_y_from_x(&mut self)
        requires
            old(self)@.wf(),
        ensures
            final(self)@ == old(self)@.subtracted(
                old(self).oppcode_data.x as int,
                old(self).oppcode_data.x as int,
                old(self).oppcode_data.y as int,
            ),
    {
        let x = self.oppcode_data.x as usize;
        let x_value = self.registers[x];
        let y_value = self.registers[self.oppcode_data.y as usize];
        self.registers[x] = x_value.wrapping_sub(y_value);
        self.registers[FLAG] = if x_value < y_value { 1 } else { 0 };
    }

    /// 0x8XY6: shifts register X right by one; the flag takes the bit
    /// shifted out.
    pub fn shift_x_right(&mut self)
        requires
            old(self)@.wf(),
        ensures
            final(self)@ == old(self)@.shifted_right(old(self).oppcode_data.x as int),
    {
        let x = self.oppcode_data.x as usize;
        let value = self.registers[x];
        let least_significant_bit: u8 = value & 1;
        assert(value & 1 == value % 2) by (bit_vector);
        assert(value >> 1 == value / 2) by (bit_vector);
        self.registers[x] = value >> 1;
        self.registers[FLAG] = least_significant_bit;
    }

    /// 0x8XY7: sets register X to Y - X modulo 256, then the flag to 1 on a
    /// borrow, else 0.
    pub fn subtract_x_from_y(&mut self)
        requires
            old(self)@.wf(),
        ensures
            final(self)@ == old(self)@.subtracted(
                old(self).oppcode_data.x as int,
                old(self).oppcode_data.y as int,
                old(self).oppcode_data.x as int,
            ),
    {
        let x = self.oppcode_data.x as usize;
        let x_value = self.registers[x];
        let y_value = self.registers[self.oppcode_data.y as usize];
        self.registers[x] = y_value.wrapping_sub(x_value);
        self.registers[FLAG] = if y_value < x_value { 1 } else { 0 };
    }

    /// 0x8XYE: shifts register X left by one; the flag takes the bit
    /// shifted out.
    pub fn shift_x_left(&mut self)
        requires
            old(self)@.wf(),
        ensures
            final(self)@ == old(self)@.shifted_left(old(self).oppcode_data.x as int),
    {
        let x = self.oppcode_data.x as usize;
        let value = self.registers[x];
        let most_significant_bit: u8 = value >> 7;
        assert(value >> 7 == value / 128) by (bit_vector);
        assert(value << 1 == (value * 2) % 256) by (bit_vector);
        self.registers[x] = value << 1;
        self.registers[FLAG] = most_significant_bit;
    }

    /// 0x9XY0: skips the next instruction if registers X and Y differ.
    pub fn skip_if_equals(&mut self)
        requires
            old(self)@.wf(),
            old(self).program_counter + 2 <= u16::MAX,
        ensures
            final(self)@ == old(self)@.skipped_if(
                old(self)@.registers[old(self).oppcode_data.x as int] != old(
                    self,
                )@.registers[old(self).oppcode_data.y as int],
            ),
    {
        if self.registers[self.oppcode_data.x as usize]
            != self.registers[self.oppcode_data.y as usize] {
            self.program_counter = self.program_counter + 2;
        }
    }

    /// 0xANNN: sets the index register to NNN.
    pub fn set_index_register(&mut self)
        ensures
            final(self)@ == (ChipState {
                index_register: old(self).oppcode_data.nnn,
                ..old(self)@
            }),
    {
        self.index_register = self.oppcode_data.nnn;
    }

    /// 0xBNNN: jumps to NNN plus register 0.
    pub fn jump_to_address_plus_register_0(&mut self)
        requires
            old(self)@.wf(),
        ensures
            final(self)@ == old(self)@.with_pc(
                old(self).oppcode_data.nnn + old(self)@.registers[0],
            ),
    {
        self.program_counter = self.oppcode_data.nnn + self.registers[0] as u16;
    }

    /// 0xCXNN: sets register X to `random_byte` AND NN; the caller supplies
    /// the random byte.
    pub fn set_x_to_random_and(&mut self, random_byte: u8)
        requires
            old(self)@.wf(),
        ensures
            final(self)@ == old(self)@.with_register(
                old(self).oppcode_data.x as int,
                random_byte & old(self).oppcode_data.nn,
            ),
    {
        self.registers[self.oppcode_data.x as usize] = random_byte & self.oppcode_data.nn;
    }

    /// 0xEX9E: skips the next instruction if the key named by register X is
    /// pressed.
    pub fn skip_if_key_is_pressed(&mut self) -> (r: Result<(), ChipError>)
        requires
            old(self)@.wf(),
            old(self).program_counter + 2 <= u16::MAX,
        ensures
            outcome(
                old(self)@.skipped_on_key(old(self).oppcode_data.x as int, true),
                r,
                old(self)@,
                final(self)@,
            ),
    {
        let key = self.registers[self.oppcode_data.x as usize] as usize;
        if key >= 16 {
            return Err(ChipError::OutOfBoundsAccess);
        }
        if self.keys[key] {
            self.program_counter = self.program_counter + 2;
        }
        Ok(())
    }

    /// 0xEXA1: skips the next instruction if the key named by register X is
    /// not pressed.
    pub fn skip_if_key_is_not_pressed(&mut self) -> (r: Result<(), ChipError>)
        requires
            old(self)@.wf(),
            old(self).program_counter + 2 <= u16::MAX,
        ensures
            outcome(
                old(self)@.skipped_on_key(old(self).oppcode_data.x as int, false),
                r,
                old(self)@,
                final(self)@,
            ),
    {
        let key = self.registers[self.oppcode_data.x as usize] as usize;
        if key >= 16 {
            return Err(ChipError::OutOfBoundsAccess);
        }
        if !self.keys[key] {
            self.program_counter = self.program_counter + 2;
        }
        Ok(())
    }

    /// 0xFX07: sets register X to the delay timer.
    pub fn get_delay_timer(&mut self)
        requires
            old(self)@.wf(),
        ensures
            final(self)@ == old(self)@.with_register(
                old(self).oppcode_data.x as int,
                old(self).delay_timer,
            ),
    {
        self.registers[self.oppcode_data.x as usize] = self.delay_timer;
    }

    /// 0xFX0A: sets register X to the lowest pressed key; with none pressed,
    /// moves the program counter back so that this instruction runs again.
    pub fn wait_for_key_press(&mut self)
        requires
            old(self)@.wf(),
            old(self).program_counter >= 2,
        ensures
            final(self)@ == old(self)@.waited_for_key(old(self).oppcode_data.x as int),
    {
        if was_key_pressed(&self.keys) {
            self.registers[self.oppcode_data.x as usize] = get_first_pressed_key(&self.keys);
        } else {
            self.program_counter = self.program_counter - 2;
        }
    }

    /// 0xFX15: sets the delay timer to register X.
    pub fn set_delay_timer(&mut self)
        requires
            old(self)@.wf(),
        ensures
            final(self)@ == (ChipState {
                delay_timer: old(self)@.registers[old(self).oppcode_data.x as int],
                ..old(self)@
            }),
    {
        self.delay_timer = self.registers[self.oppcode_data.x as usize];
    }

    /// 0xFX18: sets the sound timer to register X.
    pub fn set_sound_timer(&mut self)
        requires
            old(self)@.wf(),
        ensures
            final(self)@ == (ChipState {
                sound_timer: old(self)@.registers[old(self).oppcode_data.x as int],
                ..old(self)@
            }),
    {
        self.sound_timer = self.registers[self.oppcode_data.x as usize];
    }

    /// 0xFX1E: adds register X to the index register modulo 65536, then sets
    /// the flag to 1 on a carry, else 0.
    pub fn add_to_index(&mut self)
        requires
            old(self)@.wf(),
        ensures
            final(self)@ == old(self)@.added_to_index(old(self).oppcode_data.x as int),
    {
        let value = self.registers[self.oppcode_data.x as usize] as u16;
        let overflow = self.index_register > u16::MAX - value;
        self.index_register = self.index_register.wrapping_add(value);
        self.registers[FLAG] = if overflow { 1 } else { 0 };
    }

    /// 0xFX29: points the index register at the font glyph of the digit in
    /// register X.
    pub fn set_sprite_address(&mut self)
        requires
            old(self)@.wf(),
        ensures
            final(self)@ == (ChipState {
                index_register: (old(self)@.registers[old(self).oppcode_data.x as int] * 5) as u16,
                ..old(self)@
            }),
    {
        self.index_register = self.registers[self.oppcode_data.x as usize] as u16 * 5;
    }

    /// 0xFX33: stores the hundreds, tens and ones digits of register X at
    /// the index register and the two bytes after it.
    pub fn binary_coded_decimal(&mut self) -> (r: Result<(), ChipError>)
        requires
            old(self)@.wf(),
        ensures
            outcome(
                old(self)@.stored_bcd(old(self).oppcode_data.x as int),
                r,
                old(self)@,
                final(self)@,
            ),
    {
        let base = self.index_register as usize;
        if base + 3 > MEMORY_SIZE {
            return Err(ChipError::OutOfBoundsAccess);
        }
        let value = self.registers[self.oppcode_data.x as usize];
        self.memory[base] = value / 100;
        self.memory[base + 1] = (value / 10) % 10;
        self.memory[base + 2] = value % 10;
        Ok(())
    }

    /// 0xFX55: stores registers 0 to X in memory from the index register on.
    pub fn register_dump(&mut self) -> (r: Result<(), ChipError>)
        requires
            old(self)@.wf(),
        ensures
            outcome(
                old(self)@.dumped(old(self).oppcode_data.x as int),
                r,
                old(self)@,
                final(self)@,
            ),
    {
        let base = self.index_register as usize;
        let last = self.oppcode_data.x as usize;
        if base + last + 1 > MEMORY_SIZE {
            return Err(ChipError::OutOfBoundsAccess);
        }
        let ghost start = self.memory@;
        let mut i: usize = 0;
        while i <= last
            invariant
                last < 16,
                base + last + 1 <= MEMORY_SIZE,
                base == old(self).index_register,
                last == old(self).oppcode_data.x,
                start == old(self)@.memory,
                self@ == (ChipState { memory: self.memory@, ..old(self)@ }),
                self.memory@.len() == MEMORY_SIZE,
                i <= last + 1,
                forall|a: int|
                    0 <= a < MEMORY_SIZE ==> self.memory@[a] == if base <= a < base + i {
                        self.registers@[a - base]
                    } else {
                        start[a]
                    },
            decreases last + 1 - i,
        {
            self.memory[base + i] = self.registers[i];
            i = i + 1;
        }
        assert(self.memory@ =~= old(self)@.dumped(last as int)->Ok_0.memory);
        Ok(())
    }

    /// 0xFX65: loads registers 0 to X from memory from the index register on.
    pub fn register_load(&mut self) -> (r: Result<(), ChipError>)
        requires
            old(self)@.wf(),
        ensures
            outcome(
                old(self)@.loaded(old(self).oppcode_data.x as int),
                r,
                old(self)@,
                final(self)@,
            ),
    {
        let base = self.index_register as usize;
        let last = self.oppcode_data.x as usize;
        if base + last + 1 > MEMORY_SIZE {
            return Err(ChipError::OutOfBoundsAccess);
        }
        let ghost start = self.registers@;
        let mut i: usize = 0;
        while i <= last
            invariant
                last < 16,
                base + last + 1 <= MEMORY_SIZE,
                base == old(self).index_register,
                last == old(self).oppcode_data.x,
                start == old(self)@.registers,
                self@ == (ChipState { registers: self.registers@, ..old(self)@ }),
                self.registers@.len() == 16,
                i <= last + 1,
                forall|r: int|
                    0 <= r < 16 ==> self.registers@[r] == if r < i {
                        self.memory@[base + r]
                    } else {
                        start[r]
                    },
            decreases last + 1 - i,
        {
            self.registers[i] = self.memory[base + i];
            i = i + 1;
        }
        assert(self.registers@ =~= old(self)@.loaded(last as int)->Ok_0.registers);
        Ok(())
    }
}

} // verus!
