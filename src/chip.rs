use vstd::prelude::*;

use crate::opcode::{decoded, OppCodeData};

verus! {

/// Bytes of addressable memory.
pub const MEMORY_SIZE: usize = 4096;

/// Address at which a program image starts, and the initial program counter.
pub const PROGRAM_START: u16 = 0x200;

/// Largest program image that fits between `PROGRAM_START` and the end of memory.
pub const MAX_PROGRAM_SIZE: usize = 3584;

/// Pixels per framebuffer row.
pub const SCREEN_WIDTH: usize = 64;

/// Framebuffer rows.
pub const SCREEN_HEIGHT: usize = 32;

/// Pixels in the framebuffer.
pub const TEXTURE_SIZE: usize = 2048;

/// Entries of the call stack.
pub const STACK_SIZE: u16 = 16;

/// Bytes of the built-in font: 16 glyphs of 5 bytes each.
pub const FONT_SIZE: usize = 80;

/// Index of the flag register.
pub const FLAG: usize = 15;

/// Why an operation of the machine could not be carried out.
#[derive(Clone, Copy, Debug, PartialEq, Eq, Structural)]
pub enum ChipError {
    /// The program image does not fit in memory.
    ProgramLoadError,
    /// No handler matches `opcode`, fetched from address `pc`.
    UnsupportedInstruction { opcode: u16, pc: u16 },
    /// A call found every stack entry in use.
    CallStackOverflow,
    /// A return found the stack empty.
    CallStackUnderflow,
    /// A memory, key-table or framebuffer index fell outside its range.
    OutOfBoundsAccess,
}

/// The built-in font, one 5-byte glyph per hexadecimal digit.
pub open spec fn font_glyphs() -> Seq<u8> {
    seq![
        0xF0, 0x90, 0x90, 0x90, 0xF0, 0x20, 0x60, 0x20, 0x20, 0x70,
        0xF0, 0x10, 0xF0, 0x80, 0xF0, 0xF0, 0x10, 0xF0, 0x10, 0xF0,
        0x90, 0x90, 0xF0, 0x10, 0x10, 0xF0, 0x80, 0xF0, 0x10, 0xF0,
        0xF0, 0x80, 0xF0, 0x90, 0xF0, 0xF0, 0x10, 0x20, 0x40, 0x40,
        0xF0, 0x90, 0xF0, 0x90, 0xF0, 0xF0, 0x90, 0xF0, 0x10, 0xF0,
        0xF0, 0x90, 0xF0, 0x90, 0x90, 0xE0, 0x90, 0xE0, 0x90, 0xE0,
        0xF0, 0x80, 0x80, 0x80, 0xF0, 0xE0, 0x90, 0x90, 0x90, 0xE0,
        0xF0, 0x80, 0xF0, 0x80, 0xF0, 0xF0, 0x80, 0xF0, 0x80, 0x80,
    ]
}

/// The built-in font as an array.
pub fn font_set() -> (r: [u8; 80])
    ensures
        r@ == font_glyphs(),
{
    let r: [u8; 80] = [
        0xF0, 0x90, 0x90, 0x90, 0xF0, // 0
        0x20, 0x60, 0x20, 0x20, 0x70, // 1
        0xF0, 0x10, 0xF0, 0x80, 0xF0, // 2
        0xF0, 0x10, 0xF0, 0x10, 0xF0, // 3
        0x90, 0x90, 0xF0, 0x10, 0x10, // 4
        0xF0, 0x80, 0xF0, 0x10, 0xF0, // 5
        0xF0, 0x80, 0xF0, 0x90, 0xF0, // 6
        0xF0, 0x10, 0x20, 0x40, 0x40, // 7
        0xF0, 0x90, 0xF0, 0x90, 0xF0, // 8
        0xF0, 0x90, 0xF0, 0x10, 0xF0, // 9
        0xF0, 0x90, 0xF0, 0x90, 0x90, // A
        0xE0, 0x90, 0xE0, 0x90, 0xE0, // B
        0xF0, 0x80, 0x80, 0x80, 0xF0, // C
        0xE0, 0x90, 0x90, 0x90, 0xE0, // D
        0xF0, 0x80, 0xF0, 0x80, 0xF0, // E
        0xF0, 0x80, 0xF0, 0x80, 0x80, // F
    ];
    assert(r@ =~= font_glyphs());
    r
}

/// The whole machine: memory, registers, timers, call stack, framebuffer,
/// key table, and the most recently fetched instruction with its fields.
pub struct Chip {
    pub current_opcode: u16,
    pub memory: [u8; 4096],
    pub registers: [u8; 16],
    pub index_register: u16,
    pub program_counter: u16,
    /// Row-major 64x32 framebuffer, one byte per pixel: 0 off, 1 on.
    pub texture: [u8; 2048],
    pub delay_timer: u8,
    pub sound_timer: u8,
    pub stack: [u16; 16],
    pub stack_pointer: u16,
    /// Pressed (`true`) or not, one entry per hexadecimal key.
    pub keys: [bool; 16],
    pub oppcode_data: OppCodeData,
}

/// The mathematical model of a `Chip`: its arrays as sequences.
pub struct ChipState {
    pub current_opcode: u16,
    pub memory: Seq<u8>,
    pub registers: Seq<u8>,
    pub index_register: u16,
    pub program_counter: u16,
    pub texture: Seq<u8>,
    pub delay_timer: u8,
    pub sound_timer: u8,
    pub stack: Seq<u16>,
    pub stack_pointer: u16,
    pub keys: Seq<bool>,
    pub oppcode_data: OppCodeData,
}

impl View for Chip {
    type V = ChipState;

    open spec fn view(&self) -> ChipState {
        ChipState {
            current_opcode: self.current_opcode,
            memory: self.memory@,
            registers: self.registers@,
            index_register: self.index_register,
            program_counter: self.program_counter,
            texture: self.texture@,
            delay_timer: self.delay_timer,
            sound_timer: self.sound_timer,
            stack: self.stack@,
            stack_pointer: self.stack_pointer,
            keys: self.keys@,
            oppcode_data: self.oppcode_data,
        }
    }
}

impl ChipState {
    /// The state invariant: sequence lengths match the machine's sizes, the
    /// stack pointer is within the stack, and the decoded fields are in range.
    pub open spec fn wf(&self) -> bool {
        &&& self.memory.len() == MEMORY_SIZE
        &&& self.registers.len() == 16
        &&& self.texture.len() == TEXTURE_SIZE
        &&& self.stack.len() == STACK_SIZE
        &&& self.keys.len() == 16
        &&& self.stack_pointer <= STACK_SIZE
        &&& self.oppcode_data.wf()
    }

    /// The state of a freshly created machine.
    pub open spec fn initial() -> ChipState {
        ChipState {
            current_opcode: 0,
            memory: Seq::new(
                MEMORY_SIZE as nat,
                |i: int|
                    if i < FONT_SIZE {
                        font_glyphs()[i]
                    } else {
                        0u8
                    },
            ),
            registers: Seq::new(16, |i: int| 0u8),
            index_register: 0,
            program_counter: PROGRAM_START,
            texture: Seq::new(TEXTURE_SIZE as nat, |i: int| 0u8),
            delay_timer: 0,
            sound_timer: 0,
            stack: Seq::new(STACK_SIZE as nat, |i: int| 0u16),
            stack_pointer: 0,
            keys: Seq::new(16, |i: int| false),
            oppcode_data: decoded(0),
        }
    }

    /// Memory with `image` copied in from `PROGRAM_START` on.
    pub open spec fn with_program(self, image: Seq<u8>) -> ChipState {
        ChipState {
            memory: Seq::new(
                self.memory.len(),
                |i: int|
                    if PROGRAM_START <= i < PROGRAM_START + image.len() {
                        image[i - PROGRAM_START]
                    } else {
                        self.memory[i]
                    },
            ),
            ..self
        }
    }

    /// Both timers one step nearer zero.
    pub open spec fn ticked(self) -> ChipState {
        ChipState {
            delay_timer: if self.delay_timer > 0 {
                (self.delay_timer - 1) as u8
            } else {
                0
            },
            sound_timer: if self.sound_timer > 0 {
                (self.sound_timer - 1) as u8
            } else {
                0
            },
            ..self
        }
    }
}

impl Chip {
    /// A machine with everything zeroed, the font loaded and the program
    /// counter at the start of the program area.
    pub fn new() -> (r: Chip)
        ensures
            r@ == ChipState::initial(),
            r@.wf(),
    {
        let mut chip = Chip {
            current_opcode: 0,
            memory: [0; 4096],
            registers: [0; 16],
            index_register: 0,
            program_counter: PROGRAM_START,
            texture: [0; 2048],
            delay_timer: 0,
            sound_timer: 0,
            stack: [0; 16],
            stack_pointer: 0,
            keys: [false; 16],
            oppcode_data: OppCodeData::new(0x0000),
        };
        let font = font_set();
        chip.load_font(&font);
        assert(chip.memory@ =~= ChipState::initial().memory);
        assert(chip.registers@ =~= ChipState::initial().registers);
        assert(chip.texture@ =~= ChipState::initial().texture);
        assert(chip.stack@ =~= ChipState::initial().stack);
        assert(chip.keys@ =~= ChipState::initial().keys);
        chip
    }

    /// Copies `font_set` into the first bytes of memory.
    pub fn load_font(&mut self, font_set: &[u8; 80])
        ensures
            final(self)@ == (ChipState {
                memory: font_set@ + old(self)@.memory.subrange(
                    FONT_SIZE as int,
                    MEMORY_SIZE as int,
                ),
                ..old(self)@
            }),
    {
        let ghost start = self.memory@;
        let mut i: usize = 0;
        while i < FONT_SIZE
            invariant
                i <= FONT_SIZE,
                self@ == (ChipState { memory: self.memory@, ..old(self)@ }),
                self.memory@.len() == MEMORY_SIZE,
                forall|j: int| 0 <= j < i ==> self.memory@[j] == font_set@[j],
                forall|j: int| i <= j < MEMORY_SIZE ==> self.memory@[j] == start[j],
            decreases FONT_SIZE - i,
        {
            self.memory[i] = font_set[i];
            i = i + 1;
        }
        assert(self.memory@ =~= font_set@ + start.subrange(FONT_SIZE as int, MEMORY_SIZE as int));
    }

    /// Copies a program image into memory from `PROGRAM_START` on; refuses an
    /// image too large to fit, leaving the machine unchanged.
    pub fn load_rom(&mut self, image: &[u8]) -> (r: Result<(), ChipError>)
        ensures
            image@.len() > MAX_PROGRAM_SIZE ==> r == Err::<(), ChipError>(
                ChipError::ProgramLoadError,
            ) && final(self)@ == old(self)@,
            image@.len() <= MAX_PROGRAM_SIZE ==> r is Ok && final(self)@ == old(
                self,
            )@.with_program(image@),
    {
        if image.len() > MAX_PROGRAM_SIZE {
            return Err(ChipError::ProgramLoadError);
        }
        let ghost start = self.memory@;
        let mut i: usize = 0;
        while i < image.len()
            invariant
                i <= image@.len() <= MAX_PROGRAM_SIZE,
                self@ == (ChipState { memory: self.memory@, ..old(self)@ }),
                self.memory@.len() == MEMORY_SIZE,
                start == old(self)@.memory,
                forall|j: int|
                    0 <= j < MEMORY_SIZE ==> self.memory@[j] == if PROGRAM_START <= j
                        < PROGRAM_START + i {
                        image@[j - PROGRAM_START]
                    } else {
                        start[j]
                    },
            decreases image@.len() - i,
        {
            self.memory[i + 0x200] = image[i];
            i = i + 1;
        }
        assert(self.memory@ =~= old(self)@.with_program(image@).memory);
        Ok(())
    }

    /// Moves each nonzero timer one step toward zero. Returns whether a beep
    /// is due: exactly when the sound timer goes from 1 to 0.
    pub fn tick_timers(&mut self) -> (beep: bool)
        ensures
            final(self)@ == old(self)@.ticked(),
            beep == (old(self).sound_timer == 1),
    {
        if self.delay_timer > 0 {
            self.delay_timer = self.delay_timer - 1;
        }
        let beep = self.sound_timer == 1;
        if self.sound_timer > 0 {
            self.sound_timer = self.sound_timer - 1;
        }
        beep
    }
}

} // verus!
