//! Instructions of the machine and their decoding from 16-bit words.
use vstd::prelude::*;

verus! {

/// A 16-bit memory address.
pub type Address = u16;

/// A number that selects one instruction of a family.
pub type Case = u8;

/// An 8-bit immediate.
pub type Constant = u8;

/// The index of a general purpose register, `0` to `15`.
pub type RegisterID = u8;

/// Why an instruction could not be fetched or executed.
#[derive(Debug, PartialEq, Eq, Clone, Copy)]
pub enum OpCodeError {
    /// The instruction names a register or a sub-case that does not exist,
    /// or is the no-operation, which no word stands for.
    InvalidOpCode,
    /// The instruction is the legacy machine-code call.
    DeprecatedOpCode,
    /// The word matches no instruction.
    UnknownOpCode,
    /// A subroutine call with sixteen return addresses already on the stack.
    StackOverflow,
    /// A return with no return address on the stack.
    StackUnderflow,
    /// A memory access that reaches past the end of memory.
    AddressOutOfRange,
    /// A key instruction with a key number above fifteen in its register.
    InvalidKey,
}

/// One decoded instruction. Instructions are grouped in families; where a
/// family has several members a `Case` tells them apart.
#[derive(Debug, PartialEq, Eq, Clone, Copy)]
pub enum OpCode {
    /// The no-operation. No word decodes to it, and executing it is refused
    /// as invalid.
    Nop,
    /// `0nnn`, but for `0000` and `00EE`: the legacy call into machine code
    /// at `nnn`.
    Call(Address),
    /// `0000` with `None`: clear the screen. `Dxyn` with `Some((x, y, n))`:
    /// draw the `n`-row sprite at the index register at (`Vx`, `Vy`).
    Display(Option<(Constant, Constant, Constant)>),
    /// `00EE`: return from a subroutine.
    Return,
    /// `1nnn`, `2nnn`, `Bnnn` with case `1`, `2`, `11`: jump, call a
    /// subroutine, jump to `nnn + V0`.
    Flow(Case, Address),
    /// `3xkk`, `4xkk` with case `3`, `4`: skip if `Vx == kk`, if `Vx != kk`.
    SkipEquals((Case, RegisterID, Constant)),
    /// `5xy0`, `9xy0` with case `5`, `9`: skip if `Vx == Vy`, if `Vx != Vy`.
    SkipRegEquals((Case, RegisterID, RegisterID)),
    /// `6xkk`, `7xkk` with case `6`, `7`: `Vx := kk`, `Vx := Vx + kk`.
    Constant((Case, RegisterID, Constant)),
    /// `8xyz`: assignment, bitwise and arithmetic operations on `Vx`, `Vy`.
    BitOp((RegisterID, RegisterID, Case)),
    /// `Annn`: index register `:= nnn`.
    IOp(Address),
    /// `Fx1E`, `Fx29`, `Fx55`, `Fx65` with case `0x1E`, `29`, `55`, `65`.
    MemoryOp((RegisterID, Case)),
    /// `Cxkk`: `Vx :=` a random byte `& kk`.
    RandomOp((RegisterID, Constant)),
    /// `Ex9E`, `ExA1` with case `0x9E`, `0xA1`: skip if key `Vx` is pressed,
    /// is not pressed.
    KeyOpSkip(Case, RegisterID),
    /// `Fx0A`: wait for a key and store it in `Vx`.
    KeyOpWait(RegisterID),
    /// `Fx07`, `Fx15`, `Fx18` with case `7`, `5`, `8`: read the delay timer,
    /// set the delay timer, set the sound timer.
    Timer((RegisterID, Case)),
    /// `Fx33`: store the decimal digits of `Vx`.
    Bcd(RegisterID),
    /// A word that matches no instruction.
    Unknown,
}

impl OpCodeError {
    /// The text that describes the error.
    pub open spec fn message_spec(self) -> Seq<char> {
        match self {
            OpCodeError::InvalidOpCode => "Invalid opcode"@,
            OpCodeError::DeprecatedOpCode => "Deprecated opcode"@,
            OpCodeError::UnknownOpCode => "Unknown opcode"@,
            OpCodeError::StackOverflow => "Stack overflow"@,
            OpCodeError::StackUnderflow => "Stack underflow"@,
            OpCodeError::AddressOutOfRange => "Address out of range"@,
            OpCodeError::InvalidKey => "Invalid key"@,
        }
    }

    /// A short description of the error.
    pub fn message(&self) -> (text: String)
        ensures
            text@ == self.message_spec(),
    {
        match self {
            OpCodeError::InvalidOpCode => "Invalid opcode".to_string(),
            OpCodeError::DeprecatedOpCode => "Deprecated opcode".to_string(),
            OpCodeError::UnknownOpCode => "Unknown opcode".to_string(),
            OpCodeError::StackOverflow => "Stack overflow".to_string(),
            OpCodeError::StackUnderflow => "Stack underflow".to_string(),
            OpCodeError::AddressOutOfRange => "Address out of range".to_string(),
            OpCodeError::InvalidKey => "Invalid key".to_string(),
        }
    }
}

/// The most significant of the four 4-bit digits of a word.
pub open spec fn digit0(word: u16) -> u8 {
    (word / 0x1000) as u8
}

/// The second 4-bit digit of a word, `x` in the instruction patterns.
pub open spec fn digit1(word: u16) -> u8 {
    ((word / 0x100) % 0x10) as u8
}

/// The third 4-bit digit of a word, `y` in the instruction patterns.
pub open spec fn digit2(word: u16) -> u8 {
    ((word / 0x10) % 0x10) as u8
}

/// The least significant 4-bit digit of a word, `n` in the patterns.
pub open spec fn digit3(word: u16) -> u8 {
    (word % 0x10) as u8
}

/// The low twelve bits of a word, `nnn` in the instruction patterns.
pub open spec fn low12(word: u16) -> u16 {
    (word % 0x1000) as u16
}

/// The low eight bits of a word, `kk` in the instruction patterns.
pub open spec fn low8(word: u16) -> u8 {
    (word % 0x100) as u8
}

/// The instruction that a word stands for.
pub open spec fn decode_spec(word: u16) -> OpCode {
    let d0 = digit0(word);
    let x = digit1(word);
    let y = digit2(word);
    let n = digit3(word);
    let nnn = low12(word);
    let kk = low8(word);
    if word == 0x0000 {
        OpCode::Display(None)
    } else if word == 0x00EE {
        OpCode::Return
    } else if d0 == 0x0 {
        OpCode::Call(nnn)
    } else if d0 == 0x1 || d0 == 0x2 || d0 == 0xB {
        OpCode::Flow(d0, nnn)
    } else if d0 == 0x3 || d0 == 0x4 {
        OpCode::SkipEquals((d0, x, kk))
    } else if (d0 == 0x5 || d0 == 0x9) && n == 0 {
        OpCode::SkipRegEquals((d0, x, y))
    } else if d0 == 0x6 || d0 == 0x7 {
        OpCode::Constant((d0, x, kk))
    } else if d0 == 0x8 {
        OpCode::BitOp((x, y, n))
    } else if d0 == 0xA {
        OpCode::IOp(nnn)
    } else if d0 == 0xC {
        OpCode::RandomOp((x, kk))
    } else if d0 == 0xD {
        OpCode::Display(Some((x, y, n)))
    } else if d0 == 0xE && (kk == 0x9E || kk == 0xA1) {
        OpCode::KeyOpSkip(kk, x)
    } else if d0 == 0xF && kk == 0x0A {
        OpCode::KeyOpWait(x)
    } else if d0 == 0xF && (kk == 0x07 || kk == 0x15 || kk == 0x18) {
        OpCode::Timer((x, n))
    } else if d0 == 0xF && kk == 0x1E {
        OpCode::MemoryOp((x, 0x1E))
    } else if d0 == 0xF && kk == 0x29 {
        OpCode::MemoryOp((x, 29))
    } else if d0 == 0xF && kk == 0x55 {
        OpCode::MemoryOp((x, 55))
    } else if d0 == 0xF && kk == 0x65 {
        OpCode::MemoryOp((x, 65))
    } else if d0 == 0xF && kk == 0x33 {
        OpCode::Bcd(x)
    } else {
        OpCode::Unknown
    }
}

impl OpCode {
    /// Every register index is below sixteen, every address below `0x1000`
    /// and a sprite has at most fifteen rows.
    pub open spec fn operands_in_range(self) -> bool {
        match self {
            OpCode::Nop | OpCode::Return | OpCode::Unknown | OpCode::Display(None) => true,
            OpCode::Call(a) | OpCode::IOp(a) | OpCode::Flow(_, a) => a < 0x1000,
            OpCode::Display(Some((x, y, n))) => x < 16 && y < 16 && n < 16,
            OpCode::SkipEquals((_, x, _)) | OpCode::Constant((_, x, _)) => x < 16,
            OpCode::SkipRegEquals((_, x, y)) => x < 16 && y < 16,
            OpCode::BitOp((x, y, _)) => x < 16 && y < 16,
            OpCode::MemoryOp((x, _)) | OpCode::RandomOp((x, _)) | OpCode::Timer((x, _)) => x < 16,
            OpCode::KeyOpSkip(_, x) | OpCode::KeyOpWait(x) | OpCode::Bcd(x) => x < 16,
        }
    }
}

/// Decodes one instruction word.
///
/// The word is split into four 4-bit digits, most significant first, and the
/// instruction is chosen by their pattern. Every word decodes: one that
/// matches no pattern gives `OpCode::Unknown`.
pub fn decode(word: u16) -> (op: OpCode)
    ensures
        op == decode_spec(word),
{
    let d0: u8 = ((word & 0xF000) >> 12) as u8;
    let x: u8 = ((word & 0x0F00) >> 8) as u8;
    let y: u8 = ((word & 0x00F0) >> 4) as u8;
    let n: u8 = (word & 0x000F) as u8;
    let nnn: u16 = word & 0x0FFF;
    let kk: u8 = (word & 0x00FF) as u8;
    proof {
        assert(((word & 0xF000) >> 12) == word / 0x1000) by (bit_vector);
        assert(((word & 0x0F00) >> 8) == (word / 0x100) % 0x10) by (bit_vector);
        assert(((word & 0x00F0) >> 4) == (word / 0x10) % 0x10) by (bit_vector);
        assert((word & 0x000F) == word % 0x10) by (bit_vector);
        assert((word & 0x0FFF) == word % 0x1000) by (bit_vector);
        assert((word & 0x00FF) == word % 0x100) by (bit_vector);
    }
    match (d0, x, y, n) {
        (0, 0, 0, 0) => OpCode::Display(None),
        (0, 0, 0xE, 0xE) => OpCode::Return,
        (0, _, _, _) => OpCode::Call(nnn),
        (1 | 2 | 0xB, _, _, _) => OpCode::Flow(d0, nnn),
        (3 | 4, _, _, _) => OpCode::SkipEquals((d0, x, kk)),
        (5 | 9, _, _, 0) => OpCode::SkipRegEquals((d0, x, y)),
        (6 | 7, _, _, _) => OpCode::Constant((d0, x, kk)),
        (8, _, _, _) => OpCode::BitOp((x, y, n)),
        (0xA, _, _, _) => OpCode::IOp(nnn),
        (0xC, _, _, _) => OpCode::RandomOp((x, kk)),
        (0xD, _, _, _) => OpCode::Display(Some((x, y, n))),
        (0xE, _, 9, 0xE) => OpCode::KeyOpSkip(0x9E, x),
        (0xE, _, 0xA, 1) => OpCode::KeyOpSkip(0xA1, x),
        (0xF, _, 0, 0xA) => OpCode::KeyOpWait(x),
        (0xF, _, 1, 5 | 8) | (0xF, _, 0, 7) => OpCode::Timer((x, n)),
        (0xF, _, 1, 0xE) => OpCode::MemoryOp((x, 0x1E)),
        (0xF, _, 2, 9) => OpCode::MemoryOp((x, 29)),
        (0xF, _, 5, 5) => OpCode::MemoryOp((x, 55)),
        (0xF, _, 6, 5) => OpCode::MemoryOp((x, 65)),
        (0xF, _, 3, 3) => OpCode::Bcd(x),
        _ => OpCode::Unknown,
    }
}

impl From<u16> for OpCode {
    fn from(value: u16) -> (op: Self) {
        decode(value)
    }
}

impl vstd::std_specs::convert::FromSpecImpl<u16> for OpCode {
    open spec fn obeys_from_spec() -> bool {
        true
    }

    open spec fn from_spec(value: u16) -> Self {
        decode_spec(value)
    }
}

/// Decoding never yields an operand out of range: each register index of a
/// decoded instruction is below sixteen, each address below `0x1000`, and a
/// sprite has at most fifteen rows.
pub proof fn lemma_decode_operands_in_range(word: u16)
    ensures
        decode_spec(word).operands_in_range(),
{
}

/// Decoding gives `OpCode::Unknown` exactly for the words that match no
/// instruction pattern: `5xyn` and `9xyn` with `n != 0`, `Exkk` with `kk`
/// neither `9E` nor `A1`, and `Fxkk` with `kk` none of `07`, `0A`, `15`,
/// `18`, `1E`, `29`, `33`, `55`, `65`.
pub proof fn lemma_decode_unknown(word: u16)
    ensures
        decode_spec(word) == OpCode::Unknown <==> {
            ||| (digit0(word) == 0x5 || digit0(word) == 0x9) && digit3(word) != 0
            ||| digit0(word) == 0xE && low8(word) != 0x9E && low8(word) != 0xA1
            ||| digit0(word) == 0xF && low8(word) != 0x07 && low8(word) != 0x0A && low8(word)
                != 0x15 && low8(word) != 0x18 && low8(word) != 0x1E && low8(word) != 0x29
                && low8(word) != 0x33 && low8(word) != 0x55 && low8(word) != 0x65
        },
{
}

} // verus!
