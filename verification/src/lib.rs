//! A CHIP-8 virtual machine: instruction decoding, per-instruction execution
//! and the machine state they act upon, with every function proved against a
//! mathematical model of the machine.

/// The states of a front end and what key presses do to them.
pub mod choocy;
/// The virtual machine: state, decoder and executor.
pub mod emulator;
/// The drawing surface of the machine seen as a capability.
pub mod graphics;
/// Common re-exports.
pub mod prelude;
