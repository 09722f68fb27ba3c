//! The mathematical model of the machine: its state as plain sequences and
//! the effect of each instruction as a function from state to state.
use vstd::prelude::*;

use super::display::{drawn, erases};
use super::input::Keymap;
use super::opcode::{OpCode, OpCodeError};

verus! {

/// The state of a machine as mathematical values.
pub struct MachineState {
    /// Address of the next instruction to fetch.
    pub program_counter: u16,
    /// Number of return addresses on the stack.
    pub stack_pointer: u8,
    /// The delay timer.
    pub delay_timer: u8,
    /// The sound timer.
    pub sound_timer: u8,
    /// The sixteen general purpose registers.
    pub registers: Seq<u8>,
    /// The index register.
    pub index: u16,
    /// The 4096 bytes of memory.
    pub memory: Seq<u8>,
    /// The sixteen slots of the stack.
    pub stack: Seq<u16>,
    /// Which of the sixteen keys are down.
    pub keys: Seq<bool>,
    /// The pixels of the screen, row by row.
    pub screen: Seq<bool>,
    /// Which keyboard input stands for which key.
    pub keymap: Keymap,
}

/// The value of a flag as a register holds it.
pub open spec fn flag(b: bool) -> u8 {
    if b {
        1
    } else {
        0
    }
}

/// The least index from `start` on at which `keys` holds `true`, or the
/// length of `keys` if there is none.
pub open spec fn lowest_pressed_from(keys: Seq<bool>, start: int) -> int
    decreases keys.len() - start,
{
    if start < 0 || start >= keys.len() {
        keys.len() as int
    } else if keys[start] {
        start
    } else {
        lowest_pressed_from(keys, start + 1)
    }
}

/// The least index at which `keys` holds `true`, or the length of `keys`.
pub open spec fn lowest_pressed(keys: Seq<bool>) -> int {
    lowest_pressed_from(keys, 0)
}

impl MachineState {
    /// Every component has the size the machine fixes and the stack pointer
    /// does not exceed the stack.
    pub open spec fn wf(self) -> bool {
        &&& self.registers.len() == 16
        &&& self.memory.len() == 4096
        &&& self.stack.len() == 16
        &&& self.keys.len() == 16
        &&& self.screen.len() == 2048
        &&& self.stack_pointer <= 16
    }

    /// The state with register `x` set to `val`.
    pub open spec fn with_register(self, x: u8, val: u8) -> Self {
        MachineState { registers: self.registers.update(x as int, val), ..self }
    }

    /// The state with the program counter set to `address`.
    pub open spec fn with_program_counter(self, address: u16) -> Self {
        MachineState { program_counter: address, ..self }
    }

    /// The state with the index register set to `address`.
    pub open spec fn with_index(self, address: u16) -> Self {
        MachineState { index: address, ..self }
    }

    /// The state with the program counter moved past one more instruction if
    /// `condition` holds, wrapping at 16 bits.
    pub open spec fn skip_if(self, condition: bool) -> Self {
        if condition {
            self.with_program_counter(((self.program_counter + 2) % 0x1_0000) as u16)
        } else {
            self
        }
    }

    /// The state after `address` is pushed: it is written at the stack
    /// pointer, which then moves up by one.
    pub open spec fn push(self, address: u16) -> Self {
        MachineState {
            stack: self.stack.update(self.stack_pointer as int, address),
            stack_pointer: (self.stack_pointer + 1) as u8,
            ..self
        }
    }

    /// The address the next pop gives: the one below the stack pointer.
    pub open spec fn top(self) -> u16 {
        self.stack[self.stack_pointer - 1]
    }

    /// The state after a pop: the stack pointer moves down by one.
    pub open spec fn pop(self) -> Self {
        MachineState { stack_pointer: (self.stack_pointer - 1) as u8, ..self }
    }

    /// The state after one tick of the timers: each moves down by one unless
    /// it is zero.
    pub open spec fn tick(self) -> Self {
        MachineState {
            delay_timer: if self.delay_timer > 0 {
                (self.delay_timer - 1) as u8
            } else {
                0
            },
            sound_timer: if self.sound_timer > 0 {
                (self.sound_timer - 1) as u8
            } else {
                0
            },
            ..self
        }
    }

    /// The 16-bit word at the program counter, high byte first.
    pub open spec fn word_at_pc(self) -> u16 {
        (self.memory[self.program_counter as int] * 0x100 + self.memory[self.program_counter
            + 1]) as u16
    }

    /// `3xkk`, `4xkk`, `5xy0`, `9xy0`: conditional skips. `operand` is `kk`
    /// for the first two and `y` for the last two.
    pub open spec fn cond(self, case: u8, x: u8, operand: u8) -> Result<Self, OpCodeError> {
        if x >= 16 {
            Err(OpCodeError::InvalidOpCode)
        } else if case == 3 {
            Ok(self.skip_if(self.registers[x as int] == operand))
        } else if case == 4 {
            Ok(self.skip_if(self.registers[x as int] != operand))
        } else if case == 5 && operand < 16 {
            Ok(self.skip_if(self.registers[x as int] == self.registers[operand as int]))
        } else if case == 9 && operand < 16 {
            Ok(self.skip_if(self.registers[x as int] != self.registers[operand as int]))
        } else {
            Err(OpCodeError::InvalidOpCode)
        }
    }

    /// `6xkk`: `Vx := kk`. `7xkk`: `Vx := Vx + kk` modulo 256; the flag
    /// register is not written.
    pub open spec fn constant(self, case: u8, x: u8, kk: u8) -> Result<Self, OpCodeError> {
        if x >= 16 {
            Err(OpCodeError::InvalidOpCode)
        } else if case == 6 {
            Ok(self.with_register(x, kk))
        } else if case == 7 {
            Ok(self.with_register(x, ((self.registers[x as int] + kk) % 256) as u8))
        } else {
            Err(OpCodeError::InvalidOpCode)
        }
    }

    /// `8xyz`: assignment, bitwise and arithmetic operations. Where an
    /// operation has a flag, `Vx` is written first and `VF` after it, except
    /// for the two shifts, which write `VF` first.
    pub open spec fn bit_op(self, x: u8, y: u8, case: u8) -> Result<Self, OpCodeError> {
        let vx = self.registers[x as int];
        let vy = self.registers[y as int];
        if x >= 16 || y >= 16 {
            Err(OpCodeError::InvalidOpCode)
        } else if case == 0x0 {
            Ok(self.with_register(x, vy))
        } else if case == 0x1 {
            Ok(self.with_register(x, vx | vy))
        } else if case == 0x2 {
            Ok(self.with_register(x, vx & vy))
        } else if case == 0x3 {
            Ok(self.with_register(x, vx ^ vy))
        } else if case == 0x4 {
            Ok(self.with_register(x, ((vx + vy) % 256) as u8).with_register(0xF, flag(vx + vy > 255)))
        } else if case == 0x5 {
            Ok(self.with_register(x, ((vx - vy) % 256) as u8).with_register(0xF, flag(vx >= vy)))
        } else if case == 0x6 {
            Ok(self.with_register(0xF, (vx % 2) as u8).with_register(x, (vx / 2) as u8))
        } else if case == 0x7 {
            Ok(self.with_register(x, ((vy - vx) % 256) as u8).with_register(0xF, flag(vy >= vx)))
        } else if case == 0xE {
            Ok(self.with_register(0xF, (vx / 128) as u8).with_register(x, ((vx * 2) % 256) as u8))
        } else {
            Err(OpCodeError::InvalidOpCode)
        }
    }

    /// `1nnn`: jump. `2nnn`: push the program counter and jump. `Bnnn`: jump
    /// to `nnn + V0`, wrapping at 16 bits.
    pub open spec fn flow(self, case: u8, address: u16) -> Result<Self, OpCodeError> {
        if case == 1 {
            Ok(self.with_program_counter(address))
        } else if case == 2 {
            if self.stack_pointer >= 16 {
                Err(OpCodeError::StackOverflow)
            } else {
                Ok(self.push(self.program_counter).with_program_counter(address))
            }
        } else if case == 11 {
            Ok(self.with_program_counter(((address + self.registers[0]) % 0x1_0000) as u16))
        } else {
            Err(OpCodeError::InvalidOpCode)
        }
    }

    /// `00EE`: pop the stack into the program counter.
    pub open spec fn ret(self) -> Result<Self, OpCodeError> {
        if self.stack_pointer == 0 {
            Err(OpCodeError::StackUnderflow)
        } else {
            Ok(self.pop().with_program_counter(self.top()))
        }
    }

    /// `Fx1E`: index `:=` index `+ Vx`, wrapping at 16 bits. `Fx29`: index
    /// `:= 5 * Vx`, the address of glyph `Vx`. `Fx55`: memory from the index on
    /// `:= V0..=Vx`. `Fx65`: `V0..=Vx :=` memory from the index on. The last
    /// two leave the index register as it was.
    pub open spec fn memory_op(self, x: u8, case: u8) -> Result<Self, OpCodeError> {
        let i = self.index as int;
        if x >= 16 {
            Err(OpCodeError::InvalidOpCode)
        } else if case == 0x1E {
            Ok(self.with_index(((self.index + self.registers[x as int]) % 0x1_0000) as u16))
        } else if case == 29 {
            Ok(self.with_index((self.registers[x as int] * 5) as u16))
        } else if case == 55 {
            if i + x >= 4096 {
                Err(OpCodeError::AddressOutOfRange)
            } else {
                Ok(
                    MachineState {
                        memory: Seq::new(
                            4096,
                            |a: int|
                                if i <= a <= i + x {
                                    self.registers[a - i]
                                } else {
                                    self.memory[a]
                                },
                        ),
                        ..self
                    },
                )
            }
        } else if case == 65 {
            if i + x >= 4096 {
                Err(OpCodeError::AddressOutOfRange)
            } else {
                Ok(
                    MachineState {
                        registers: Seq::new(
                            16,
                            |r: int|
                                if r <= x {
                                    self.memory[i + r]
                                } else {
                                    self.registers[r]
                                },
                        ),
                        ..self
                    },
                )
            }
        } else {
            Err(OpCodeError::InvalidOpCode)
        }
    }

    /// `Fx33`: the hundreds, tens and ones digit of `Vx` go to memory at the
    /// index register and the two bytes after it.
    pub open spec fn bcd(self, x: u8) -> Result<Self, OpCodeError> {
        let i = self.index as int;
        let v = self.registers[x as int] as int;
        if x >= 16 {
            Err(OpCodeError::InvalidOpCode)
        } else if i + 2 >= 4096 {
            Err(OpCodeError::AddressOutOfRange)
        } else {
            Ok(
                MachineState {
                    memory: self.memory.update(i, (v / 100) as u8).update(
                        i + 1,
                        ((v / 10) % 10) as u8,
                    ).update(i + 2, (v % 10) as u8),
                    ..self
                },
            )
        }
    }

    /// `Cxkk` for a given random byte: `Vx := random & kk`.
    pub open spec fn random(self, x: u8, kk: u8, random: u8) -> Result<Self, OpCodeError> {
        if x >= 16 {
            Err(OpCodeError::InvalidOpCode)
        } else {
            Ok(self.with_register(x, random & kk))
        }
    }

    /// `Ex9E`: skip if key `Vx` is down. `ExA1`: skip if key `Vx` is up.
    pub open spec fn keyop_skip(self, case: u8, x: u8) -> Result<Self, OpCodeError> {
        let key = self.registers[x as int];
        if x >= 16 || (case != 0x9E && case != 0xA1) {
            Err(OpCodeError::InvalidOpCode)
        } else if key >= 16 {
            Err(OpCodeError::InvalidKey)
        } else if case == 0x9E {
            Ok(self.skip_if(self.keys[key as int]))
        } else {
            Ok(self.skip_if(!self.keys[key as int]))
        }
    }

    /// `Fx0A`: if a key is down, `Vx :=` the least index of one; if none is,
    /// the program counter moves back by one instruction, wrapping at 16
    /// bits, so that the instruction is fetched again.
    pub open spec fn keyop_wait(self, x: u8) -> Result<Self, OpCodeError> {
        let key = lowest_pressed(self.keys);
        if x >= 16 {
            Err(OpCodeError::InvalidOpCode)
        } else if key < 16 {
            Ok(self.with_register(x, key as u8))
        } else {
            Ok(self.with_program_counter(((self.program_counter - 2) % 0x1_0000) as u16))
        }
    }

    /// `Fx07`: `Vx :=` delay timer. `Fx15`: delay timer `:= Vx`. `Fx18`:
    /// sound timer `:= Vx`.
    pub open spec fn timer(self, x: u8, case: u8) -> Result<Self, OpCodeError> {
        if x >= 16 {
            Err(OpCodeError::InvalidOpCode)
        } else if case == 7 {
            Ok(self.with_register(x, self.delay_timer))
        } else if case == 5 {
            Ok(MachineState { delay_timer: self.registers[x as int], ..self })
        } else if case == 8 {
            Ok(MachineState { sound_timer: self.registers[x as int], ..self })
        } else {
            Err(OpCodeError::InvalidOpCode)
        }
    }

    /// The `n` bytes of memory from the index register on: the sprite that
    /// `Dxyn` draws.
    pub open spec fn sprite(self, n: u8) -> Seq<u8> {
        self.memory.subrange(self.index as int, self.index + n)
    }

    /// `0000` (`None`): every pixel goes off. `Dxyn` (`Some((x, y, n))`):
    /// the sprite of `n` rows at the index register is drawn at (`Vx`, `Vy`),
    /// wrapped at the edges: each pixel on which an odd number of its rows
    /// has a set bit is flipped, and `VF` becomes 1 if a pixel went off while
    /// the rows were drawn, else 0. For a sprite of at most 32 rows, so for
    /// every sprite that a word can ask for, no two rows meet, and this is to
    /// say that each pixel under a set bit is flipped and that `VF` tells
    /// whether one of them was lit.
    pub open spec fn display(self, to_draw: Option<(u8, u8, u8)>) -> Result<Self, OpCodeError> {
        match to_draw {
            None => Ok(MachineState { screen: Seq::new(2048, |p: int| false), ..self }),
            Some((x, y, n)) => {
                let vx = self.registers[x as int];
                let vy = self.registers[y as int];
                if x >= 16 || y >= 16 {
                    Err(OpCodeError::InvalidOpCode)
                } else if n == 0 {
                    Ok(self.with_register(0xF, 0))
                } else if self.index + n > 4096 {
                    Err(OpCodeError::AddressOutOfRange)
                } else {
                    Ok(
                        MachineState {
                            screen: drawn(self.screen, self.sprite(n), vx, vy, n as int),
                            ..self
                        }.with_register(
                            0xF,
                            flag(erases(self.screen, self.sprite(n), vx, vy, n as int)),
                        ),
                    )
                }
            },
        }
    }

    /// The effect of one instruction, given the byte that the random number
    /// generator hands out (it matters to `Cxkk` alone): the next state, or
    /// the error with which the instruction fails.
    pub open spec fn execute(self, opcode: OpCode, random: u8) -> Result<Self, OpCodeError> {
        match opcode {
            OpCode::Nop => Err(OpCodeError::InvalidOpCode),
            OpCode::Call(_) => Err(OpCodeError::DeprecatedOpCode),
            OpCode::Unknown => Err(OpCodeError::UnknownOpCode),
            OpCode::SkipEquals((case, x, operand)) | OpCode::SkipRegEquals((case, x, operand)) => {
                self.cond(case, x, operand)
            },
            OpCode::Constant((case, x, kk)) => self.constant(case, x, kk),
            OpCode::Display(to_draw) => self.display(to_draw),
            OpCode::Return => self.ret(),
            OpCode::Flow(case, address) => self.flow(case, address),
            OpCode::BitOp((x, y, case)) => self.bit_op(x, y, case),
            OpCode::IOp(address) => Ok(self.with_index(address)),
            OpCode::MemoryOp((x, case)) => self.memory_op(x, case),
            OpCode::KeyOpSkip(case, x) => self.keyop_skip(case, x),
            OpCode::KeyOpWait(x) => self.keyop_wait(x),
            OpCode::Timer((x, case)) => self.timer(x, case),
            OpCode::RandomOp((x, kk)) => self.random(x, kk, random),
            OpCode::Bcd(x) => self.bcd(x),
        }
    }
}

} // verus!
