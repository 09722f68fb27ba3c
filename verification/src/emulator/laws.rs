//! What holds of the machine whatever its state: the laws that relate the
//! instructions, the stack, the timers and the loader to one another.
use vstd::prelude::*;

use super::display::{
    collides, covers, lemma_draw_twice, lemma_drawn_stamped, lemma_erases_collides,
    lemma_second_draw_collides, lemma_second_draw_erases, row_bit, stamped,
};
use super::execute::lemma_lowest_pressed;
use super::opcode::{decode_spec, digit0, digit1, digit3, low8, OpCode, OpCodeError};
use super::rom_parser::room_from;
use super::state::{flag, lowest_pressed, MachineState};

verus! {

/// A pop after a push gives back the address that was pushed and leaves the
/// stack pointer where it was before the push.
pub proof fn lemma_push_pop(s: MachineState, address: u16)
    requires
        s.wf(),
        s.stack_pointer < 16,
    ensures
        s.push(address).top() == address,
        s.push(address).pop().stack_pointer == s.stack_pointer,
        s.push(address).pop().wf(),
{
}

/// A call followed by a return continues behind the call: the program
/// counter is the one that the call pushed, and the stack pointer is as
/// before the call.
pub proof fn lemma_call_return(s: MachineState, address: u16)
    requires
        s.wf(),
        s.stack_pointer < 16,
    ensures
        s.flow(2, address) is Ok,
        s.flow(2, address)->Ok_0.ret() is Ok,
        s.flow(2, address)->Ok_0.ret()->Ok_0.program_counter == s.program_counter,
        s.flow(2, address)->Ok_0.ret()->Ok_0.stack_pointer == s.stack_pointer,
{
}

/// A timer that is zero stays zero over a tick, and no timer ever goes up.
pub proof fn lemma_tick(s: MachineState)
    ensures
        s.delay_timer == 0 ==> s.tick().delay_timer == 0,
        s.sound_timer == 0 ==> s.tick().sound_timer == 0,
        s.tick().delay_timer <= s.delay_timer,
        s.tick().sound_timer <= s.sound_timer,
        s.delay_timer > 0 ==> s.tick().delay_timer == s.delay_timer - 1,
        s.sound_timer > 0 ==> s.tick().sound_timer == s.sound_timer - 1,
{
}

/// What was loaded reads back: the bytes of memory from the start address
/// on are those of the program, and every other byte is as it was.
pub proof fn lemma_load_round_trip(s: MachineState, rom: Seq<u8>)
    requires
        s.wf(),
        0 < rom.len() <= room_from(s.program_counter),
    ensures
        s.loaded(rom).memory.subrange(
            s.program_counter as int,
            s.program_counter + rom.len(),
        ) == rom,
        forall|a: int|
            0 <= a < 4096 && !(s.program_counter <= a < s.program_counter + rom.len())
                ==> s.loaded(rom).memory[a] == s.memory[a],
        s.loaded(rom).wf(),
{
    assert(s.loaded(rom).memory.subrange(s.program_counter as int, s.program_counter + rom.len())
        =~= rom);
}

/// Waiting for a key while no key is down costs nothing: the cycle that
/// fetches and executes `Fx0A` succeeds and leaves the whole state, the
/// program counter included, as it was.
pub proof fn lemma_wait_key_idle(s: MachineState, random: u8)
    requires
        s.wf(),
        s.program_counter + 1 < 4096,
        decode_spec(s.word_at_pc()) is KeyOpWait,
        forall|k: int| 0 <= k < 16 ==> !s.keys[k],
    ensures
        s.step(random) == (s, Ok::<(), OpCodeError>(())),
{
    lemma_lowest_pressed(s.keys);
    let x = digit1(s.word_at_pc());
    assert(decode_spec(s.word_at_pc()) == OpCode::KeyOpWait(x));
    assert(lowest_pressed(s.keys) == 16);
    let waiting = s.fetched().keyop_wait(x)->Ok_0;
    assert(waiting.program_counter == s.program_counter);
    assert(waiting == s);
}

/// Waiting for a key while one is down stores the least such key and goes
/// on behind the instruction.
pub proof fn lemma_wait_key_pressed(s: MachineState, x: u8, key: int)
    requires
        s.wf(),
        x < 16,
        0 <= key < 16,
        s.keys[key],
        forall|k: int| 0 <= k < key ==> !s.keys[k],
    ensures
        s.keyop_wait(x) == Ok::<MachineState, OpCodeError>(s.with_register(x, key as u8)),
{
    lemma_lowest_pressed(s.keys);
    assert(lowest_pressed(s.keys) == key);
}

/// Drawing and clearing leave the program counter alone.
proof fn lemma_display_keeps_counter(s: MachineState, to_draw: Option<(u8, u8, u8)>)
    ensures
        s.display(to_draw) is Ok ==> s.display(to_draw)->Ok_0.program_counter
            == s.program_counter,
{
}

/// An instruction that is neither a jump, a call nor a return, and that
/// succeeds, leaves the program counter as it was, or moves it on by two (a
/// skip that is taken), or back by two (a wait for a key), wrapping at 16
/// bits.
pub proof fn lemma_execute_counter(s: MachineState, opcode: OpCode, random: u8)
    requires
        !(opcode is Flow),
        !(opcode is Return),
        s.execute(opcode, random) is Ok,
    ensures
        ({
            let after = s.execute(opcode, random)->Ok_0.program_counter;
            ||| after == s.program_counter
            ||| after == (s.program_counter + 2) % 0x1_0000
            ||| after == (s.program_counter - 2) % 0x1_0000 && opcode is KeyOpWait
        }),
{
    match opcode {
        OpCode::Display(to_draw) => {
            lemma_display_keeps_counter(s, to_draw);
        },
        OpCode::SkipEquals((case, x, operand)) | OpCode::SkipRegEquals((case, x, operand)) => {
            assert(s.execute(opcode, random) == s.cond(case, x, operand));
        },
        OpCode::Constant((case, x, kk)) => {
            assert(s.execute(opcode, random) == s.constant(case, x, kk));
        },
        OpCode::BitOp((x, y, case)) => {
            assert(s.execute(opcode, random) == s.bit_op(x, y, case));
        },
        OpCode::MemoryOp((x, case)) => {
            assert(s.execute(opcode, random) == s.memory_op(x, case));
        },
        OpCode::KeyOpSkip(case, x) => {
            assert(s.execute(opcode, random) == s.keyop_skip(case, x));
        },
        OpCode::KeyOpWait(x) => {
            assert(s.execute(opcode, random) == s.keyop_wait(x));
        },
        OpCode::Timer((x, case)) => {
            assert(s.execute(opcode, random) == s.timer(x, case));
        },
        OpCode::RandomOp((x, kk)) => {
            assert(s.execute(opcode, random) == s.random(x, kk, random));
        },
        OpCode::Bcd(x) => {
            assert(s.execute(opcode, random) == s.bcd(x));
        },
        _ => {},
    }
}

/// Instructions keep the program counter aligned: a cycle whose instruction
/// is neither a jump, a call nor a return, and which succeeds, leaves the
/// program counter where it was (a wait for a key), or two bytes further, or
/// four (a skip that is taken). So an even program counter stays even.
pub proof fn lemma_step_keeps_alignment(s: MachineState, random: u8)
    requires
        s.wf(),
        s.program_counter + 1 < 4096,
        !(decode_spec(s.word_at_pc()) is Flow),
        !(decode_spec(s.word_at_pc()) is Return),
        s.step(random).1 is Ok,
    ensures
        s.step(random).0.program_counter == s.program_counter || s.step(
            random,
        ).0.program_counter == s.program_counter + 2 || s.step(random).0.program_counter
            == s.program_counter + 4,
        s.step(random).0.program_counter % 2 == s.program_counter % 2,
{
    let opcode = decode_spec(s.word_at_pc());
    lemma_execute_counter(s.fetched(), opcode, random);
    if opcode is KeyOpWait {
        lemma_lowest_pressed(s.keys);
    }
}

/// A draw of at most 32 rows, so every draw that a word can ask for, flips
/// each pixel on which the sprite has a set bit, and sets the flag register
/// to 1 exactly if one of those pixels was lit.
pub proof fn lemma_display_direct(s: MachineState, x: u8, y: u8, n: u8)
    requires
        s.wf(),
        x < 16,
        y < 16,
        0 < n <= 32,
        s.index + n <= 4096,
    ensures
        s.display(Some((x, y, n))) is Ok,
        s.display(Some((x, y, n)))->Ok_0.screen == stamped(
            s.screen,
            s.sprite(n),
            s.registers[x as int],
            s.registers[y as int],
        ),
        x != 0xF ==> s.display(Some((x, y, n)))->Ok_0.registers[x as int]
            == s.registers[x as int],
        s.display(Some((x, y, n)))->Ok_0.registers[0xF] == flag(
            collides(s.screen, s.sprite(n), s.registers[x as int], s.registers[y as int]),
        ),
{
    let vx = s.registers[x as int];
    let vy = s.registers[y as int];
    lemma_drawn_stamped(s.screen, s.sprite(n), vx, vy);
    lemma_erases_collides(s.screen, s.sprite(n), vx, vy);
}

/// Drawing the same sprite twice at the same place gives back the screen
/// and changes nothing but the flag register. This holds of a sprite of any
/// height. The position registers must not be the flag register, which the
/// first draw overwrites.
pub proof fn lemma_draw_twice_restores(s: MachineState, x: u8, y: u8, n: u8)
    requires
        s.wf(),
        x < 15,
        y < 15,
        0 < n,
        s.index + n <= 4096,
    ensures
        s.display(Some((x, y, n))) is Ok,
        s.display(Some((x, y, n)))->Ok_0.display(Some((x, y, n))) is Ok,
        s.display(Some((x, y, n)))->Ok_0.display(Some((x, y, n)))->Ok_0.screen == s.screen,
        s.display(Some((x, y, n)))->Ok_0.display(Some((x, y, n)))->Ok_0 == (MachineState {
            registers: s.display(Some((x, y, n)))->Ok_0.display(
                Some((x, y, n)),
            )->Ok_0.registers,
            ..s
        }),
{
    let vx = s.registers[x as int];
    let vy = s.registers[y as int];
    let once = s.display(Some((x, y, n)))->Ok_0;
    assert(once.sprite(n) == s.sprite(n));
    assert(once.registers[x as int] == vx);
    assert(once.registers[y as int] == vy);
    lemma_draw_twice(s.screen, s.sprite(n), vx, vy);
}

/// The second of two equal draws reports a collision: if the sprite has a
/// set bit (bit `col` of row `row`) and the first draw set the flag
/// register to 0, the second sets it to 1. This holds of a sprite of any
/// height. The position registers must not be the flag register.
pub proof fn lemma_second_draw_sets_flag(s: MachineState, x: u8, y: u8, n: u8, row: int, col: int)
    requires
        s.wf(),
        x < 15,
        y < 15,
        0 <= row < n,
        0 <= col < 8,
        s.index + n <= 4096,
        row_bit(s.memory[s.index + row], col as u8),
        s.display(Some((x, y, n)))->Ok_0.registers[0xF] == 0,
    ensures
        s.display(Some((x, y, n))) is Ok,
        s.display(Some((x, y, n)))->Ok_0.display(Some((x, y, n))) is Ok,
        s.display(Some((x, y, n)))->Ok_0.display(Some((x, y, n)))->Ok_0.registers[0xF] == 1,
{
    let vx = s.registers[x as int];
    let vy = s.registers[y as int];
    let once = s.display(Some((x, y, n)))->Ok_0;
    assert(once.sprite(n) == s.sprite(n));
    assert(once.registers[x as int] == vx);
    assert(once.registers[y as int] == vy);
    assert(s.sprite(n)[row] == s.memory[s.index + row]);
    lemma_second_draw_erases(s.screen, s.sprite(n), vx, vy, row, col);
}

/// For a sprite of at most 32 rows the second of two equal draws sets the
/// flag register to 1 exactly if the first draw had lit a pixel: if the
/// sprite has a set bit on a pixel that was off at the start.
pub proof fn lemma_second_draw_flag(s: MachineState, x: u8, y: u8, n: u8)
    requires
        s.wf(),
        x < 15,
        y < 15,
        0 < n <= 32,
        s.index + n <= 4096,
    ensures
        s.display(Some((x, y, n)))->Ok_0.display(Some((x, y, n)))->Ok_0.registers[0xF] == flag(
            exists|p: int|
                !s.screen[p] && #[trigger] covers(
                    s.sprite(n),
                    s.registers[x as int],
                    s.registers[y as int],
                    p,
                ),
        ),
{
    let vx = s.registers[x as int];
    let vy = s.registers[y as int];
    let once = s.display(Some((x, y, n)))->Ok_0;
    assert(once.sprite(n) == s.sprite(n));
    lemma_display_direct(s, x, y, n);
    lemma_display_direct(once, x, y, n);
    lemma_second_draw_collides(s.screen, s.sprite(n), vx, vy);
}

/// The all-zero word is the instruction that clears the screen, and a
/// word `0nnn` other than it and `00EE` is the legacy call.
pub proof fn lemma_decode_zero_family(word: u16)
    ensures
        decode_spec(0x0000) == OpCode::Display(None),
        decode_spec(0x00EE) == OpCode::Return,
        digit0(word) == 0 && word != 0x0000 && word != 0x00EE ==> decode_spec(word)
            == OpCode::Call(word),
{
}

/// Clearing the screen turns every pixel off and touches nothing else, the
/// flag register included.
pub proof fn lemma_clear(s: MachineState)
    requires
        s.wf(),
    ensures
        s.display(None) is Ok,
        forall|p: int| 0 <= p < 2048 ==> !s.display(None)->Ok_0.screen[p],
        s.display(None)->Ok_0 == (MachineState { screen: s.display(None)->Ok_0.screen, ..s }),
{
}

/// An instruction that succeeds leaves a well-formed state well formed: no
/// component changes its size and the stack pointer stays within the stack.
pub proof fn lemma_execute_preserves_wf(s: MachineState, opcode: OpCode, random: u8)
    requires
        s.wf(),
    ensures
        s.execute(opcode, random) is Ok ==> s.execute(opcode, random)->Ok_0.wf(),
{
}

/// Of the instructions that decoding yields, only one kind is invalid:
/// `8xyz` with `z` none of `0` to `7` and `E`. Whatever the state, no other
/// decoded instruction fails with `InvalidOpCode`.
pub proof fn lemma_decoded_invalid(s: MachineState, word: u16, random: u8)
    requires
        s.wf(),
    ensures
        s.execute(decode_spec(word), random) == Err::<MachineState, OpCodeError>(
            OpCodeError::InvalidOpCode,
        ) <==> digit0(word) == 8 && digit3(word) > 7 && digit3(word) != 0xE,
{
}

/// The errors with which a decoded instruction can fail, and when: the
/// legacy call is deprecated, a word of no pattern is unknown, a call needs
/// room on the stack, a return needs an address on it, the memory
/// instructions and the draw need their bytes within memory, and the key
/// skips need a key that exists.
pub proof fn lemma_decoded_errors(s: MachineState, word: u16, random: u8)
    requires
        s.wf(),
    ensures
        ({
            let op = decode_spec(word);
            let r = s.execute(op, random);
            let vx = s.registers[digit1(word) as int];
            &&& r == Err::<MachineState, OpCodeError>(OpCodeError::DeprecatedOpCode) <==> op is Call
            &&& r == Err::<MachineState, OpCodeError>(OpCodeError::UnknownOpCode) <==> op is Unknown
            &&& r == Err::<MachineState, OpCodeError>(OpCodeError::StackOverflow) <==> digit0(word)
                == 2 && s.stack_pointer == 16
            &&& r == Err::<MachineState, OpCodeError>(OpCodeError::StackUnderflow) <==> word
                == 0x00EE && s.stack_pointer == 0
            &&& r == Err::<MachineState, OpCodeError>(OpCodeError::InvalidKey) <==> op is KeyOpSkip
                && vx >= 16
            &&& r == Err::<MachineState, OpCodeError>(OpCodeError::AddressOutOfRange) <==> {
                ||| digit0(word) == 0xD && digit3(word) > 0 && s.index + digit3(word) > 4096
                ||| digit0(word) == 0xF && low8(word) == 0x33 && s.index + 2 >= 4096
                ||| digit0(word) == 0xF && (low8(word) == 0x55 || low8(word) == 0x65) && s.index
                    + digit1(word) >= 4096
            }
        }),
{
}

} // verus!
