//! The items that most users need, under one short path.
//!
//! ```
//! use choccy_chip::prelude::{Emu, OpCode};
//! ```
pub use crate::emulator::emulator::Emu;
pub use crate::emulator::opcode::OpCode;
pub use crate::emulator::{SCREEN_HEIGHT, SCREEN_WIDTH, SPRITE_SET, SPRITE_SET_SIZE};
