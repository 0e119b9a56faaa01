use vstd::prelude::*;

use crate::chip::{Chip, ChipError, ChipState, MEMORY_SIZE};
use crate::opcode::decoded;

verus! {

/// The instruction word at the program counter, high byte first.
pub open spec fn fetched(s: ChipState) -> u16 {
    (s.memory[s.program_counter as int] * 256 + s.memory[s.program_counter + 1]) as u16
}

impl ChipState {
    /// The effect of the current instruction, whose fields are in
    /// `oppcode_data` and whose successor the program counter already points
    /// at. `random_byte` is what the random instruction draws.
    pub open spec fn executed(self, random_byte: u8) -> Result<ChipState, ChipError> {
        let op = self.current_opcode;
        let d = self.oppcode_data;
        let x = d.x as int;
        let y = d.y as int;
        let unsupported = Err(
            ChipError::UnsupportedInstruction {
                opcode: op,
                pc: (self.program_counter - 2) as u16,
            },
        );
        let group = op / 0x1000;
        if group == 0x0 {
            if d.n == 0x0 {
                Ok(self.cleared())
            } else if d.n == 0xE {
                self.returned()
            } else {
                unsupported
            }
        } else if group == 0x1 {
            Ok(self.with_pc(d.nnn as int))
        } else if group == 0x2 {
            self.called(d.nnn)
        } else if group == 0x3 {
            Ok(self.skipped_if(self.registers[x] == d.nn))
        } else if group == 0x4 {
            Ok(self.skipped_if(self.registers[x] != d.nn))
        } else if group == 0x5 {
            Ok(self.skipped_if(self.registers[x] == self.registers[y]))
        } else if group == 0x6 {
            Ok(self.with_register(x, d.nn))
        } else if group == 0x7 {
            Ok(self.with_register(x, ((self.registers[x] + d.nn) % 256) as u8))
        } else if group == 0x8 {
            if d.n == 0x0 {
                Ok(self.with_register(x, self.registers[y]))
            } else if d.n == 0x1 {
                Ok(self.with_register(x, self.registers[x] | self.registers[y]))
            } else if d.n == 0x2 {
                Ok(self.with_register(x, self.registers[x] & self.registers[y]))
            } else if d.n == 0x3 {
                Ok(self.with_register(x, self.registers[x] ^ self.registers[y]))
            } else if d.n == 0x4 {
                Ok(self.added(x, y))
            } else if d.n == 0x5 {
                Ok(self.subtracted(x, x, y))
            } else if d.n == 0x6 {
                Ok(self.shifted_right(x))
            } else if d.n == 0x7 {
                Ok(self.subtracted(x, y, x))
            } else if d.n == 0xE {
                Ok(self.shifted_left(x))
            } else {
                unsupported
            }
        } else if group == 0x9 {
            Ok(self.skipped_if(self.registers[x] != self.registers[y]))
        } else if group == 0xA {
            Ok(ChipState { index_register: d.nnn, ..self })
        } else if group == 0xB {
            Ok(self.with_pc(d.nnn + self.registers[0]))
        } else if group == 0xC {
            Ok(self.with_register(x, random_byte & d.nn))
        } else if group == 0xD {
            self.drawn(x, y, d.n as int)
        } else if group == 0xE {
            if d.n == 0xE {
                self.skipped_on_key(x, true)
            } else if d.n == 0x1 {
                self.skipped_on_key(x, false)
            } else {
                unsupported
            }
        } else {
            if d.nn == 0x07 {
                Ok(self.with_register(x, self.delay_timer))
            } else if d.nn == 0x0A {
                Ok(self.waited_for_key(x))
            } else if d.nn == 0x15 {
                Ok(ChipState { delay_timer: self.registers[x], ..self })
            } else if d.nn == 0x18 {
                Ok(ChipState { sound_timer: self.registers[x], ..self })
            } else if d.nn == 0x1E {
                Ok(self.added_to_index(x))
            } else if d.nn == 0x29 {
                Ok(ChipState { index_register: (self.registers[x] * 5) as u16, ..self })
            } else if d.nn == 0x33 {
                self.stored_bcd(x)
            } else if d.nn == 0x55 {
                self.dumped(x)
            } else if d.nn == 0x65 {
                self.loaded(x)
            } else {
                unsupported
            }
        }
    }

    /// One instruction: fetch the word at the program counter, decode it,
    /// advance the program counter past it and execute it. A word that
    /// would be read past the end of memory is refused.
    pub open spec fn stepped(self, random_byte: u8) -> Result<ChipState, ChipError> {
        if self.program_counter + 1 >= MEMORY_SIZE {
            Err(ChipError::OutOfBoundsAccess)
        } else {
            let op = fetched(self);
            ChipState {
                current_opcode: op,
                oppcode_data: decoded(op),
                program_counter: (self.program_counter + 2) as u16,
                ..self
            }.executed(random_byte)
        }
    }
}

/// Relies on rand::random::<u8>: a byte from the thread-local generator.
/// Nothing is known of its value.
#[verifier::external_body]
fn random_byte() -> (r: u8) {
    rand::random::<u8>()
}

impl Chip {
    /// Runs the handler that the current instruction selects. The program
    /// counter already points past the instruction.
    pub fn execute(&mut self, random_byte: u8) -> (r: Result<(), ChipError>)
        requires
            old(self)@.wf(),
            old(self).oppcode_data == decoded(old(self).current_opcode),
            2 <= old(self).program_counter <= MEMORY_SIZE,
        ensures
            crate::model::outcome(old(self)@.executed(random_byte), r, old(self)@, final(self)@),
    {
        let op = self.current_opcode;
        let group = op >> 12;
        assert(op >> 12 == op / 0x1000) by (bit_vector);
        let n = self.oppcode_data.n;
        let nn = self.oppcode_data.nn;
        let unsupported = Err(
            ChipError::UnsupportedInstruction { opcode: op, pc: self.program_counter - 2 },
        );
        match group {
            0x0 => match n {
                0x0 => {
                    self.clear_screen();
                    Ok(())
                },
                0xE => self.return_from_subroutine(),
                _ => unsupported,
            },
            0x1 => {
                self.jump_to_address();
                Ok(())
            },
            0x2 => self.call_subroutine(),
            0x3 => {
                self.skip_if_x_equal();
                Ok(())
            },
            0x4 => {
                self.skip_if_x_not_equal();
                Ok(())
            },
            0x5 => {
                self.skip_if_x_y_equal();
                Ok(())
            },
            0x6 => {
                self.assign_nn();
                Ok(())
            },
            0x7 => {
                self.add_nnn();
                Ok(())
            },
            0x8 => match n {
                0x0 => {
                    self.assign();
                    Ok(())
                },
                0x1 => {
                    self.or();
                    Ok(())
                },
                0x2 => {
                    self.and();
                    Ok(())
                },
                0x3 => {
                    self.xor();
                    Ok(())
                },
                0x4 => {
                    self.add();
                    Ok(())
                },
                0x5 => {
                    self.subtract_y_from_x();
                    Ok(())
                },
                0x6 => {
                    self.shift_x_right();
                    Ok(())
                },
                0x7 => {
                    self.subtract_x_from_y();
                    Ok(())
                },
                0xE => {
                    self.shift_x_left();
                    Ok(())
                },
                _ => unsupported,
            },
            0x9 => {
                self.skip_if_equals();
                Ok(())
            },
            0xA => {
                self.set_index_register();
                Ok(())
            },
            0xB => {
                self.jump_to_address_plus_register_0();
                Ok(())
            },
            0xC => {
                self.set_x_to_random_and(random_byte);
                Ok(())
            },
            0xD => self.draw_sprite(),
            0xE => match n {
                0xE => self.skip_if_key_is_pressed(),
                0x1 => self.skip_if_key_is_not_pressed(),
                _ => unsupported,
            },
            _ => match nn {
                0x07 => {
                    self.get_delay_timer();
                    Ok(())
                },
                0x0A => {
                    self.wait_for_key_press();
                    Ok(())
                },
                0x15 => {
                    self.set_delay_timer();
                    Ok(())
                },
                0x18 => {
                    self.set_sound_timer();
                    Ok(())
                },
                0x1E => {
                    self.add_to_index();
                    Ok(())
                },
                0x29 => {
                    self.set_sprite_address();
                    Ok(())
                },
                0x33 => self.binary_coded_decimal(),
                0x55 => self.register_dump(),
                0x65 => self.register_load(),
                _ => unsupported,
            },
        }
    }

    /// Fetches, decodes and executes one instruction, advancing the program
    /// counter as the instruction asks. On an error the machine is left as
    /// it was. `random_byte` is what the random instruction draws.
    pub fn step(&mut self, random_byte: u8) -> (r: Result<(), ChipError>)
        requires
            old(self)@.wf(),
        ensures
            crate::model::outcome(old(self)@.stepped(random_byte), r, old(self)@, final(self)@),
            final(self)@.wf(),
    {
        let pc = self.program_counter;
        if pc as usize + 1 >= MEMORY_SIZE {
            return Err(ChipError::OutOfBoundsAccess);
        }
        let high = self.memory[pc as usize];
        let low = self.memory[pc as usize + 1];
        let opcode: u16 = ((high as u16) << 8) | (low as u16);
        assert(((high as u16) << 8) | (low as u16) == high * 256 + low) by (bit_vector);
        let saved_opcode = self.current_opcode;
        let saved_data = self.oppcode_data;
        self.current_opcode = opcode;
        self.oppcode_data.init(opcode);
        self.program_counter = pc + 2;
        match self.execute(random_byte) {
            Ok(()) => Ok(()),
            Err(e) => {
                self.current_opcode = saved_opcode;
                self.oppcode_data = saved_data;
                self.program_counter = pc;
                Err(e)
            },
        }
    }

    /// One full cycle: one instruction, with a freshly drawn random byte,
    /// then one timer tick. Returns whether the tick beeps. On an error the
    /// machine is left as it was and the timers do not tick.
    pub fn emulate_cycle(&mut self) -> (r: Result<bool, ChipError>)
        requires
            old(self)@.wf(),
        ensures
            final(self)@.wf(),
            exists|b: u8|
                match #[trigger] old(self)@.stepped(b) {
                    Ok(s) => r == Ok::<bool, ChipError>(s.sound_timer == 1) && final(self)@
                        == s.ticked(),
                    Err(e) => r == Err::<bool, ChipError>(e) && final(self)@ == old(self)@,
                },
    {
        let b = random_byte();
        match self.step(b) {
            Ok(()) => Ok(self.tick_timers()),
            Err(e) => Err(e),
        }
    }
}

} // verus!
