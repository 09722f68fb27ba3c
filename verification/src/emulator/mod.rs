//! The emulator: the machine state, the instruction decoder and the executor.
use vstd::prelude::*;

/// Drawing sprites on the screen.
pub mod display;
/// The machine state and its accessors.
#[allow(clippy::module_inception)]
pub mod emulator;
/// Fetching and executing instructions.
pub mod execute;
/// The mapping from keyboard inputs to keys.
pub mod input;
/// Laws of the machine.
pub mod laws;
/// Instructions and their decoding.
pub mod opcode;
/// The register groups of the machine.
pub mod registers;
/// Checking program images and loading them.
pub mod rom_parser;
/// The mathematical model of the machine.
pub mod state;

verus! {

/// Width of the screen in pixels.
pub const SCREEN_WIDTH: usize = 64;

/// Height of the screen in pixels.
pub const SCREEN_HEIGHT: usize = 32;

/// Number of pixels of the screen.
pub const SCREEN_SIZE: usize = 2048;

/// Number of bytes of memory.
pub const RAM_SIZE: usize = 4096;

/// Number of return addresses the stack holds.
pub const STACK_SIZE: usize = 16;

/// Number of keys of the keypad.
pub const NUM_KEYS: usize = 16;

/// Number of general purpose registers.
pub const NUM_REGISTERS: usize = 16;

/// Number of bytes of the built-in font.
pub const SPRITE_SET_SIZE: usize = 80;

/// Number of bytes of one glyph of the built-in font.
pub const GLYPH_SIZE: usize = 5;

/// The built-in font: sixteen glyphs, `0` to `F`, five bytes each, each byte
/// one row of eight pixels of which the high four are used.
pub const SPRITE_SET: [u8; 80] = [
    0xF0, 0x90, 0x90, 0x90, 0xF0,
    0x20, 0x60, 0x20, 0x20, 0x70,
    0xF0, 0x10, 0xF0, 0x80, 0xF0,
    0xF0, 0x10, 0xF0, 0x10, 0xF0,
    0x90, 0x90, 0xF0, 0x10, 0x10,
    0xF0, 0x80, 0xF0, 0x10, 0xF0,
    0xF0, 0x80, 0xF0, 0x90, 0xF0,
    0xF0, 0x10, 0x20, 0x40, 0x40,
    0xF0, 0x90, 0xF0, 0x90, 0xF0,
    0xF0, 0x90, 0xF0, 0x10, 0xF0,
    0xF0, 0x90, 0xF0, 0x90, 0x90,
    0xE0, 0x90, 0xE0, 0x90, 0xE0,
    0xF0, 0x80, 0x80, 0x80, 0xF0,
    0xE0, 0x90, 0x90, 0x90, 0xE0,
    0xF0, 0x80, 0xF0, 0x80, 0xF0,
    0xF0, 0x80, 0xF0, 0x80, 0x80,
];

} // verus!
