//! An interpreter for the CHIP-8 virtual machine: instruction decoding, the
//! machine state, the instruction handlers and the cycle driver, each with a
//! contract over a mathematical model of the machine.

pub mod opcode;
pub mod chip;
pub mod keys;
pub mod model;
pub mod handlers;
pub mod sprite;
pub mod cycle;
pub mod laws;

pub use chip::{Chip, ChipError};
pub use keys::{get_first_pressed_key, was_key_pressed};
pub use opcode::OppCodeData;
