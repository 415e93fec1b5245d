//! A CHIP-8 virtual machine: memory, registers, display, keypad and timers,
//! with a fetch-decode-execute cycle whose every instruction is specified
//! over an abstract machine state.

pub mod emu;
pub mod instruction;
pub mod laws;
pub mod state;


pub use emu::Emu;
pub use instruction::{decode, Instruction};
pub use state::{Chip8Error, EmuState, LOAD_ADDRESS, MEMORY_SIZE, SCREEN_HEIGHT, SCREEN_WIDTH};
