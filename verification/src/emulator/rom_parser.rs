//! Checking program images and loading them into memory.
use vstd::prelude::*;

use super::emulator::Emu;
use super::state::MachineState;
use super::RAM_SIZE;

verus! {

/// A program image that has been accepted for loading.
#[derive(Debug, PartialEq)]
pub struct ValidRom(Vec<u8>);

/// Why a program image cannot be loaded.
#[derive(Debug, PartialEq, Eq, Clone, Copy)]
pub enum RomError {
    /// The image holds no byte.
    Empty,
    /// The image does not fit between the start address and the end of
    /// memory.
    TooLarge,
}

impl View for ValidRom {
    type V = Seq<u8>;

    closed spec fn view(&self) -> Seq<u8> {
        self.0@
    }
}

impl ValidRom {
    /// The bytes of the image.
    #[must_use]
    pub fn get_data(&self) -> (data: &Vec<u8>)
        ensures
            data@ == self@,
    {
        &self.0
    }
}

impl RomError {
    /// The text that describes the error.
    pub open spec fn message_spec(self) -> Seq<char> {
        match self {
            RomError::Empty => "rom is empty"@,
            RomError::TooLarge => "Rom size exceeds maximum limit"@,
        }
    }

    /// A short description of the error.
    pub fn message(&self) -> (text: String)
        ensures
            text@ == self.message_spec(),
    {
        match self {
            RomError::Empty => "rom is empty".to_string(),
            RomError::TooLarge => "Rom size exceeds maximum limit".to_string(),
        }
    }
}

/// The number of bytes between `start_address` and the end of memory.
pub open spec fn room_from(start_address: u16) -> int {
    if start_address <= 4096 {
        4096 - start_address
    } else {
        0
    }
}

/// What `validate_rom` answers for an image of `len` bytes that is to lie
/// at `start_address`: nothing if the image is accepted, else the complaint.
pub open spec fn rom_complaint(len: int, start_address: u16) -> Option<Seq<char>> {
    if len == 0 {
        Some("ROM file is too small"@)
    } else if len > room_from(start_address) {
        Some("ROM file is too large"@)
    } else {
        None
    }
}

/// Checks the image of a program file that is to be loaded at
/// `start_address`. An image without a byte is too small; one that reaches
/// past the end of memory is too large; any other is accepted as it is.
pub fn validate_rom(rom_data: Vec<u8>, start_address: u16) -> (r: Result<ValidRom, String>)
    ensures
        match rom_complaint(rom_data@.len() as int, start_address) {
            Some(text) => r is Err && r->Err_0@ == text,
            None => r is Ok && r->Ok_0@ == rom_data@,
        },
{
    if rom_data.len() == 0 {
        return Err("ROM file is too small".to_string());
    }
    if (start_address as usize) > RAM_SIZE || rom_data.len() > RAM_SIZE - start_address as usize {
        return Err("ROM file is too large".to_string());
    }
    Ok(new_valid_rom(rom_data))
}

/// Accepts an image without checking it.
pub fn new_valid_rom(rom_data: Vec<u8>) -> (rom: ValidRom)
    ensures
        rom@ == rom_data@,
{
    ValidRom(rom_data)
}

impl MachineState {
    /// The state with `rom` copied into memory from the program counter on.
    pub open spec fn loaded(self, rom: Seq<u8>) -> Self {
        let start = self.program_counter as int;
        MachineState {
            memory: Seq::new(
                4096,
                |a: int|
                    if start <= a < start + rom.len() {
                        rom[a - start]
                    } else {
                        self.memory[a]
                    },
            ),
            ..self
        }
    }
}

impl Emu {
    /// Copies a program into memory, from the start address on, which is
    /// where the program counter stands. An empty program, or one that
    /// reaches past the end of memory, is refused and nothing changes. After
    /// a successful load the bytes read back from memory are those of `rom`.
    pub fn load_rom(&mut self, rom: &[u8]) -> (r: Result<(), RomError>)
        ensures
            rom@.len() == 0 ==> r == Err::<(), RomError>(RomError::Empty) && final(self)@ == old(self)@,
            rom@.len() > room_from(old(self)@.program_counter) ==> r == Err::<(), RomError>(
                RomError::TooLarge,
            ) && final(self)@ == old(self)@,
            0 < rom@.len() <= room_from(old(self)@.program_counter) ==> r == Ok::<(), RomError>(())
                && final(self)@ == old(self)@.loaded(rom@) && final(self)@.memory.subrange(
                old(self)@.program_counter as int,
                old(self)@.program_counter + rom@.len(),
            ) == rom@,
            final(self)@.wf(),
    {
        proof {
            use_type_invariant(&*self);
        }
        let start = self.psuedo_registers.program_counter as usize;
        if rom.len() == 0 {
            return Err(RomError::Empty);
        }
        if start > RAM_SIZE || rom.len() > RAM_SIZE - start {
            return Err(RomError::TooLarge);
        }
        let mut i: usize = 0;
        while i < rom.len()
            invariant
                i <= rom@.len(),
                start + rom@.len() <= 4096,
                start == old(self)@.program_counter,
                self.inv(),
                self@ == (MachineState { memory: self@.memory, ..old(self)@ }),
                forall|a: int|
                    0 <= a < 4096 ==> self@.memory[a] == if start <= a < start + i {
                        rom@[a - start]
                    } else {
                        old(self)@.memory[a]
                    },
            decreases rom@.len() - i,
        {
            self.ram[start + i] = rom[i];
            i += 1;
        }
        proof {
            assert(self@.memory =~= old(self)@.loaded(rom@).memory);
            assert(self@.memory.subrange(start as int, start + rom@.len()) =~= rom@);
        }
        Ok(())
    }
}

} // verus!
