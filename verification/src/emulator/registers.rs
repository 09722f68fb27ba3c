//! The register groups of the machine.
use vstd::prelude::*;

verus! {

/// Registers that programs cannot name but the interpreter keeps.
#[derive(Debug)]
pub struct PsuedoRegisters {
    /// Address of the next instruction to fetch.
    pub program_counter: u16,
    /// Number of return addresses on the stack.
    pub stack_pointer: u8,
}

/// The two timers.
#[derive(Debug)]
pub struct SpecialRegisters {
    /// Counts down to zero; programs read and write it for timing.
    pub delay_timer: u8,
    /// Counts down to zero; a tone sounds while it is nonzero.
    pub sound_timer: u8,
}

/// The sixteen general purpose registers, `V0` to `VF`.
/// `VF` doubles as the flag that several instructions write.
#[derive(Debug)]
pub struct GeneralRegisters {
    /// The registers, by index.
    pub v: [u8; 16],
}

impl Default for PsuedoRegisters {
    fn default() -> (r: Self)
        ensures
            r.program_counter == 0,
            r.stack_pointer == 0,
    {
        PsuedoRegisters { program_counter: 0, stack_pointer: 0 }
    }
}

impl Default for SpecialRegisters {
    fn default() -> (r: Self)
        ensures
            r.delay_timer == 0,
            r.sound_timer == 0,
    {
        SpecialRegisters { delay_timer: 0, sound_timer: 0 }
    }
}

impl Default for GeneralRegisters {
    fn default() -> (r: Self)
        ensures
            forall|i: int| 0 <= i < 16 ==> r.v@[i] == 0,
    {
        GeneralRegisters { v: [0; 16] }
    }
}

} // verus!
