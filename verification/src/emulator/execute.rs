//! Fetching and executing instructions.
use vstd::prelude::*;
use vstd::slice::slice_subrange;

use super::display::draw_sprite;
use super::emulator::Emu;
use super::opcode::{decode, decode_spec, Address, Case, Constant, OpCode, OpCodeError, RegisterID};
use super::state::{lowest_pressed, lowest_pressed_from, MachineState};
use super::{NUM_KEYS, NUM_REGISTERS, RAM_SIZE};

verus! {

/// Whether a call that was to take `before` to `expected` did so: on
/// success it returned `Ok` and left the expected state; on failure it
/// returned the expected error and left the state as it was.
pub open spec fn agrees(
    expected: Result<MachineState, OpCodeError>,
    before: MachineState,
    after: MachineState,
    r: Result<(), OpCodeError>,
) -> bool {
    match expected {
        Ok(s) => r == Ok::<(), OpCodeError>(()) && after == s,
        Err(e) => r == Err::<(), OpCodeError>(e) && after == before,
    }
}

/// A byte from the thread-local random number generator, by `rand::random`.
/// Nothing is claimed of its value: any byte may come back, and two calls
/// may differ. The generator is seeded from the operating system and panics
/// if the system can give it no entropy. That is a failure of the machine,
/// as running out of memory is, and no input brings it about, so that no
/// input is left out on its account.
#[verifier::external_body]
fn random_byte() -> (byte: u8) {
    rand::random::<u8>()
}

/// If no key is down from `start` on, the least key that is down is the
/// least one below `start`; stated the other way round: the search for the
/// least key may skip a key that is up.
proof fn lemma_lowest_pressed_skip(keys: Seq<bool>, start: int)
    requires
        0 <= start < keys.len(),
        !keys[start],
    ensures
        lowest_pressed_from(keys, start) == lowest_pressed_from(keys, start + 1),
{
}

/// What `lowest_pressed` picks: an index at which a key is down with no key
/// down below it, or the number of keys if none is down.
pub proof fn lemma_lowest_pressed(keys: Seq<bool>)
    ensures
        0 <= lowest_pressed(keys) <= keys.len(),
        lowest_pressed(keys) < keys.len() ==> keys[lowest_pressed(keys)],
        forall|j: int| 0 <= j < lowest_pressed(keys) ==> !keys[j],
{
    lemma_lowest_pressed_from(keys, 0);
}

proof fn lemma_lowest_pressed_from(keys: Seq<bool>, start: int)
    requires
        0 <= start <= keys.len(),
    ensures
        start <= lowest_pressed_from(keys, start) <= keys.len(),
        lowest_pressed_from(keys, start) < keys.len() ==> keys[lowest_pressed_from(keys, start)],
        forall|j: int| start <= j < lowest_pressed_from(keys, start) ==> !keys[j],
    decreases keys.len() - start,
{
    if start < keys.len() && !keys[start] {
        lemma_lowest_pressed_from(keys, start + 1);
    }
}

impl MachineState {
    /// The state after the instruction at the program counter is fetched:
    /// the program counter has moved past it.
    pub open spec fn fetched(self) -> Self {
        self.with_program_counter((self.program_counter + 2) as u16)
    }

    /// Whether the instruction at the program counter can be fetched and
    /// is `Cxkk`, the one whose outcome depends on the random number
    /// generator.
    pub open spec fn next_is_random(self) -> bool {
        self.program_counter + 1 < 4096 && decode_spec(self.word_at_pc()) is RandomOp
    }

    /// One cycle, given the byte that the random number generator hands out:
    /// the instruction at the program counter is fetched, the program counter
    /// moves past it, and the instruction is executed. A fetch past the end of
    /// memory fails with `AddressOutOfRange` and changes nothing; an
    /// instruction that fails leaves the program counter behind it and nothing
    /// else changed.
    pub open spec fn step(self, random: u8) -> (Self, Result<(), OpCodeError>) {
        if self.program_counter + 1 >= 4096 {
            (self, Err(OpCodeError::AddressOutOfRange))
        } else {
            match self.fetched().execute(decode_spec(self.word_at_pc()), random) {
                Ok(s) => (s, Ok(())),
                Err(e) => (self.fetched(), Err(e)),
            }
        }
    }
}

impl Emu {
    /// Reads the instruction at the program counter, high byte first, moves
    /// the program counter past it and decodes it. Fails with
    /// `AddressOutOfRange`, and changes nothing, if one of the two bytes lies
    /// past the end of memory.
    pub fn fetch_opcode(&mut self) -> (r: Result<OpCode, OpCodeError>)
        ensures
            old(self)@.program_counter + 1 < 4096 ==> r == Ok::<OpCode, OpCodeError>(
                decode_spec(old(self)@.word_at_pc()),
            ) && final(self)@ == old(self)@.fetched(),
            old(self)@.program_counter + 1 >= 4096 ==> r == Err::<OpCode, OpCodeError>(
                OpCodeError::AddressOutOfRange,
            ) && final(self)@ == old(self)@,
            final(self)@.wf(),
    {
        proof {
            use_type_invariant(&*self);
        }
        let pc = self.psuedo_registers.program_counter as usize;
        if pc + 1 >= RAM_SIZE {
            return Err(OpCodeError::AddressOutOfRange);
        }
        let higher_byte = self.ram[pc] as u16;
        let lower_byte = self.ram[pc + 1] as u16;
        let word = (higher_byte << 8) | lower_byte;
        proof {
            assert(((higher_byte << 8) | lower_byte) == higher_byte * 0x100 + lower_byte)
                by (bit_vector)
                requires
                    higher_byte < 0x100,
                    lower_byte < 0x100,
            ;
        }
        self.psuedo_registers.program_counter = self.psuedo_registers.program_counter + 2;
        Ok(decode(word))
    }

    /// Executes one instruction on the state. On success the state is the
    /// one that the instruction leads to; on failure nothing has changed.
    /// `Cxkk` takes a byte from the random number generator, so that its
    /// outcome is known up to that byte; every other instruction has the one
    /// outcome that the model gives.
    pub fn execute_opcode(&mut self, opcode: &OpCode) -> (r: Result<(), OpCodeError>)
        ensures
            exists|random: u8|
                agrees(
                    #[trigger] old(self)@.execute(*opcode, random),
                    old(self)@,
                    final(self)@,
                    r,
                ),
            !(*opcode is RandomOp) ==> forall|random: u8|
                agrees(
                    #[trigger] old(self)@.execute(*opcode, random),
                    old(self)@,
                    final(self)@,
                    r,
                ),
            final(self)@.wf(),
    {
        let r = match opcode {
            OpCode::Nop => Err(OpCodeError::InvalidOpCode),
            OpCode::SkipEquals(args) | OpCode::SkipRegEquals(args) => self.handle_cond(*args),
            OpCode::Constant(args) => self.handle_const(*args),
            OpCode::Call(_) => Err(OpCodeError::DeprecatedOpCode),
            OpCode::Return => self.handle_return(),
            OpCode::Flow(case, address) => self.handle_flow(*case, *address),
            OpCode::BitOp(args) => self.handle_bit_op(*args),
            OpCode::IOp(address) => {
                self.handle_io(*address);
                Ok(())
            },
            OpCode::MemoryOp(args) => self.handle_memory_op(*args),
            OpCode::KeyOpSkip(case, reg_id) => self.handle_keyop_skip(*case, *reg_id),
            OpCode::KeyOpWait(reg_id) => self.handle_keyop_wait(*reg_id),
            OpCode::Timer(args) => self.handle_timer(*args),
            OpCode::RandomOp(args) => {
                let r = self.handle_random_op(*args);
                proof {
                    let random = choose|random: u8|
                        agrees(
                            #[trigger] old(self)@.random(args.0, args.1, random),
                            old(self)@,
                            self@,
                            r,
                        );
                    assert(agrees(old(self)@.execute(*opcode, random), old(self)@, self@, r));
                    use_type_invariant(&*self);
                }
                return r;
            },
            OpCode::Bcd(reg_id) => self.handle_bcd(*reg_id),
            OpCode::Unknown => Err(OpCodeError::UnknownOpCode),
            OpCode::Display(to_draw) => self.handle_display(*to_draw),
        };
        proof {
            assert(agrees(old(self)@.execute(*opcode, 0u8), old(self)@, self@, r));
            use_type_invariant(&*self);
        }
        r
    }

    /// One cycle: fetches the instruction at the program counter, moves the
    /// program counter past it, decodes the instruction and executes it. A
    /// fetch past the end of memory fails and changes nothing; an instruction
    /// that fails leaves the program counter behind it and nothing else
    /// changed. The outcome is the one that the model gives, for some random
    /// byte if the instruction is `Cxkk`.
    pub fn step(&mut self) -> (r: Result<(), OpCodeError>)
        ensures
            exists|random: u8| (final(self)@, r) == #[trigger] old(self)@.step(random),
            !old(self)@.next_is_random() ==> forall|random: u8|
                (final(self)@, r) == #[trigger] old(self)@.step(random),
            final(self)@.wf(),
    {
        match self.fetch_opcode() {
            Err(e) => {
                proof {
                    assert((self@, Err::<(), OpCodeError>(e)) == old(self)@.step(0u8));
                    assert forall|random: u8|
                        (self@, Err::<(), OpCodeError>(e)) == #[trigger] old(self)@.step(
                            random,
                        ) by {}
                }
                Err(e)
            },
            Ok(opcode) => {
                let ghost fetched = self@;
                let r = self.execute_opcode(&opcode);
                proof {
                    let random = choose|random: u8|
                        agrees(#[trigger] fetched.execute(opcode, random), fetched, self@, r);
                    assert((self@, r) == old(self)@.step(random));
                    if !(opcode is RandomOp) {
                        assert forall|random: u8|
                            (self@, r) == #[trigger] old(self)@.step(random) by {
                            assert(agrees(fetched.execute(opcode, random), fetched, self@, r));
                        }
                    }
                }
                r
            },
        }
    }

    /// `Cxkk`: draws a random byte and sets `Vx` to it `& kk`.
    fn handle_random_op(&mut self, args: (RegisterID, Constant)) -> (r: Result<(), OpCodeError>)
        ensures
            exists|random: u8|
                agrees(
                    #[trigger] old(self)@.random(args.0, args.1, random),
                    old(self)@,
                    final(self)@,
                    r,
                ),
    {
        let random = random_byte();
        let r = self.execute_random_op(args, random);
        proof {
            assert(agrees(old(self)@.random(args.0, args.1, random), old(self)@, self@, r));
        }
        r
    }

    /// `Cxkk` for the random byte `random`: sets `Vx` to `random & kk`.
    /// Fails with `InvalidOpCode` if there is no register `x`.
    pub fn execute_random_op(&mut self, args: (RegisterID, Constant), random: u8) -> (r: Result<
        (),
        OpCodeError,
    >)
        ensures
            agrees(old(self)@.random(args.0, args.1, random), old(self)@, final(self)@, r),
    {
        let (register_id, constant) = args;
        if register_id as usize >= NUM_REGISTERS {
            return Err(OpCodeError::InvalidOpCode);
        }
        self.set_register_val(register_id, random & constant);
        Ok(())
    }

    /// `Annn`: sets the index register to `address`.
    fn handle_io(&mut self, address: Address)
        ensures
            final(self)@ == old(self)@.with_index(address),
    {
        self.set_index_register(address);
    }

    /// `3xkk`, `4xkk`, `5xy0`, `9xy0`: skips the next instruction if the
    /// comparison that `case` names holds.
    fn handle_cond(&mut self, args: (Case, RegisterID, u8)) -> (r: Result<(), OpCodeError>)
        ensures
            agrees(old(self)@.cond(args.0, args.1, args.2), old(self)@, final(self)@, r),
    {
        let (case, register, constant) = args;
        if register as usize >= NUM_REGISTERS {
            return Err(OpCodeError::InvalidOpCode);
        }
        let register_val = self.get_register_val(register);
        let condition_met = match case {
            3 => register_val == constant,
            4 => register_val != constant,
            5 | 9 => {
                if constant as usize >= NUM_REGISTERS {
                    return Err(OpCodeError::InvalidOpCode);
                }
                let other_val = self.get_register_val(constant);
                if case == 5 {
                    register_val == other_val
                } else {
                    register_val != other_val
                }
            },
            _ => return Err(OpCodeError::InvalidOpCode),
        };
        self.skip_if(condition_met);
        Ok(())
    }

    /// Moves the program counter past one more instruction if `condition`
    /// holds.
    fn skip_if(&mut self, condition: bool)
        ensures
            final(self)@ == old(self)@.skip_if(condition),
    {
        if condition {
            let pc = self.program_counter();
            self.set_program_counter(pc.wrapping_add(2));
        }
    }

    /// `6xkk`, `7xkk`: sets `Vx` to `kk`, or adds `kk` to it modulo 256.
    fn handle_const(&mut self, args: (Case, RegisterID, u8)) -> (r: Result<(), OpCodeError>)
        ensures
            agrees(old(self)@.constant(args.0, args.1, args.2), old(self)@, final(self)@, r),
    {
        let (case, register, constant) = args;
        if register as usize >= NUM_REGISTERS {
            return Err(OpCodeError::InvalidOpCode);
        }
        match case {
            6 => {
                self.set_register_val(register, constant);
            },
            7 => {
                let register_val: u8 = self.get_register_val(register);
                self.set_register_val(register, constant.wrapping_add(register_val));
            },
            _ => return Err(OpCodeError::InvalidOpCode),
        };
        Ok(())
    }

    /// `8xyz`: assignment, bitwise and arithmetic operations on `Vx` and
    /// `Vy`, with carry, borrow or the bit shifted out in `VF`.
    fn handle_bit_op(&mut self, args: (RegisterID, RegisterID, Case)) -> (r: Result<
        (),
        OpCodeError,
    >)
        ensures
            agrees(old(self)@.bit_op(args.0, args.1, args.2), old(self)@, final(self)@, r),
    {
        let (register_x, register_y, case) = args;
        if register_x as usize >= NUM_REGISTERS || register_y as usize >= NUM_REGISTERS {
            return Err(OpCodeError::InvalidOpCode);
        }
        let register_x_val = self.get_register_val(register_x);
        let register_y_val = self.get_register_val(register_y);
        match case {
            0x0 => {
                self.set_register_val(register_x, register_y_val);
            },
            0x1 => {
                self.set_register_val(register_x, register_x_val | register_y_val);
            },
            0x2 => {
                self.set_register_val(register_x, register_x_val & register_y_val);
            },
            0x3 => {
                self.set_register_val(register_x, register_x_val ^ register_y_val);
            },
            0x4 => {
                let result = register_x_val.wrapping_add(register_y_val);
                let carry = register_y_val > u8::MAX - register_x_val;
                self.set_register_val(register_x, result);
                self.set_register_val(0xF, if carry { 1 } else { 0 });
            },
            0x5 => {
                let result = register_x_val.wrapping_sub(register_y_val);
                let no_borrow = register_x_val >= register_y_val;
                self.set_register_val(register_x, result);
                self.set_register_val(0xF, if no_borrow { 1 } else { 0 });
            },
            0x6 => {
                proof {
                    assert(register_x_val & 0x1 == register_x_val % 2) by (bit_vector);
                    assert(register_x_val >> 1 == register_x_val / 2) by (bit_vector);
                }
                self.set_register_val(0xF, register_x_val & 0x1);
                self.set_register_val(register_x, register_x_val >> 1);
            },
            0x7 => {
                let result = register_y_val.wrapping_sub(register_x_val);
                let no_borrow = register_y_val >= register_x_val;
                self.set_register_val(register_x, result);
                self.set_register_val(0xF, if no_borrow { 1 } else { 0 });
            },
            0xE => {
                proof {
                    assert((register_x_val >> 7) & 0x1 == register_x_val / 128) by (bit_vector);
                    assert(register_x_val << 1 == (register_x_val * 2) % 256) by (bit_vector);
                }
                self.set_register_val(0xF, (register_x_val >> 7) & 0x1);
                self.set_register_val(register_x, register_x_val << 1);
            },
            _ => return Err(OpCodeError::InvalidOpCode),
        };
        Ok(())
    }

    /// `00EE`: pops the return address into the program counter.
    fn handle_return(&mut self) -> (r: Result<(), OpCodeError>)
        ensures
            agrees(old(self)@.ret(), old(self)@, final(self)@, r),
    {
        match self.pop_stack() {
            Ok(return_address) => {
                self.set_program_counter(return_address);
                Ok(())
            },
            Err(e) => Err(e),
        }
    }

    /// `1nnn`, `2nnn`, `Bnnn`: jump, call, jump with offset `V0`.
    fn handle_flow(&mut self, case: Case, address: Address) -> (r: Result<(), OpCodeError>)
        ensures
            agrees(old(self)@.flow(case, address), old(self)@, final(self)@, r),
    {
        match case {
            1 => {
                self.set_program_counter(address);
                Ok(())
            },
            2 => {
                let pc = self.program_counter();
                match self.push_stack(pc) {
                    Ok(()) => {
                        self.set_program_counter(address);
                        Ok(())
                    },
                    Err(e) => Err(e),
                }
            },
            11 => {
                let v0 = self.get_register_val(0) as u16;
                self.set_program_counter(address.wrapping_add(v0));
                Ok(())
            },
            _ => Err(OpCodeError::InvalidOpCode),
        }
    }

    /// `Fx1E`, `Fx29`, `Fx55`, `Fx65`: add `Vx` to the index register, point
    /// it at glyph `Vx`, store `V0..=Vx` to memory, load them from memory.
    fn handle_memory_op(&mut self, args: (RegisterID, Case)) -> (r: Result<(), OpCodeError>)
        ensures
            agrees(old(self)@.memory_op(args.0, args.1), old(self)@, final(self)@, r),
    {
        let (register_id, case) = args;
        if register_id as usize >= NUM_REGISTERS {
            return Err(OpCodeError::InvalidOpCode);
        }
        match case {
            0x1E => {
                let register_val = self.get_register_val(register_id) as u16;
                let i_reg = self.index_register();
                self.set_index_register(i_reg.wrapping_add(register_val));
            },
            29 => {
                let register_val = self.get_register_val(register_id) as u16;
                self.set_index_register(register_val * 5);
            },
            55 => {
                let i_reg = self.i_register as usize;
                if i_reg + register_id as usize >= RAM_SIZE {
                    return Err(OpCodeError::AddressOutOfRange);
                }
                proof {
                    use_type_invariant(&*self);
                }
                let mut curr_reg: u8 = 0;
                while curr_reg <= register_id
                    invariant
                        curr_reg <= register_id + 1,
                        register_id < 16,
                        i_reg == old(self)@.index,
                        i_reg + register_id < 4096,
                        self.inv(),
                        self@ == (MachineState { memory: self@.memory, ..old(self)@ }),
                        forall|a: int|
                            0 <= a < 4096 ==> self@.memory[a] == if i_reg <= a < i_reg + curr_reg {
                                old(self)@.registers[a - i_reg]
                            } else {
                                old(self)@.memory[a]
                            },
                    decreases register_id + 1 - curr_reg,
                {
                    self.ram[i_reg + curr_reg as usize] = self.general_registers.v[curr_reg as usize];
                    curr_reg += 1;
                }
                proof {
                    assert(self@.memory =~= old(self)@.memory_op(register_id, case)->Ok_0.memory);
                }
            },
            65 => {
                let i_reg = self.i_register as usize;
                if i_reg + register_id as usize >= RAM_SIZE {
                    return Err(OpCodeError::AddressOutOfRange);
                }
                proof {
                    use_type_invariant(&*self);
                }
                let mut curr_reg: u8 = 0;
                while curr_reg <= register_id
                    invariant
                        curr_reg <= register_id + 1,
                        register_id < 16,
                        i_reg == old(self)@.index,
                        i_reg + register_id < 4096,
                        self.inv(),
                        self@ == (MachineState { registers: self@.registers, ..old(self)@ }),
                        self@.registers.len() == 16,
                        forall|k: int|
                            0 <= k < 16 ==> self@.registers[k] == if k < curr_reg {
                                old(self)@.memory[i_reg + k]
                            } else {
                                old(self)@.registers[k]
                            },
                    decreases register_id + 1 - curr_reg,
                {
                    self.general_registers.v[curr_reg as usize] = self.ram[i_reg + curr_reg as usize];
                    curr_reg += 1;
                }
                proof {
                    assert(self@.registers =~= old(self)@.memory_op(
                        register_id,
                        case,
                    )->Ok_0.registers);
                }
            },
            _ => return Err(OpCodeError::InvalidOpCode),
        };
        Ok(())
    }

    /// `0000`, `Dxyn`: clears the screen, or draws the sprite at the index
    /// register at (`Vx`, `Vy`) and sets `VF` to whether a pixel went off.
    fn handle_display(&mut self, to_draw: Option<(Constant, Constant, Constant)>) -> (r: Result<
        (),
        OpCodeError,
    >)
        ensures
            agrees(old(self)@.display(to_draw), old(self)@, final(self)@, r),
    {
        proof {
            use_type_invariant(&*self);
        }
        match to_draw {
            Some((reg_x, reg_y, height)) => {
                if reg_x as usize >= NUM_REGISTERS || reg_y as usize >= NUM_REGISTERS {
                    return Err(OpCodeError::InvalidOpCode);
                }
                if height == 0 {
                    self.set_register_val(0xF, 0);
                    return Ok(());
                }
                let i_reg = self.i_register as usize;
                if i_reg + height as usize > RAM_SIZE {
                    return Err(OpCodeError::AddressOutOfRange);
                }
                let x_val = self.get_register_val(reg_x);
                let y_val = self.get_register_val(reg_y);
                let sprite = slice_subrange(self.ram.as_slice(), i_reg, i_reg + height as usize);
                let mut screen = self.screen;
                let collision = draw_sprite(&mut screen, x_val, y_val, sprite);
                self.screen = screen;
                self.set_register_val(0xF, if collision { 1 } else { 0 });
            },
            None => {
                self.screen = [false; 2048];
                proof {
                    assert(self@.screen =~= Seq::new(2048, |p: int| false));
                }
            },
        };
        Ok(())
    }

    /// `Fx33`: stores the three decimal digits of `Vx` at the index
    /// register, hundreds first.
    fn handle_bcd(&mut self, register_id: RegisterID) -> (r: Result<(), OpCodeError>)
        ensures
            agrees(old(self)@.bcd(register_id), old(self)@, final(self)@, r),
    {
        if register_id as usize >= NUM_REGISTERS {
            return Err(OpCodeError::InvalidOpCode);
        }
        let i_reg = self.i_register as usize;
        if i_reg + 2 >= RAM_SIZE {
            return Err(OpCodeError::AddressOutOfRange);
        }
        proof {
            use_type_invariant(&*self);
        }
        let register_val = self.get_register_val(register_id);
        self.ram[i_reg] = register_val / 100;
        self.ram[i_reg + 1] = (register_val / 10) % 10;
        self.ram[i_reg + 2] = register_val % 10;
        Ok(())
    }

    /// `Ex9E`, `ExA1`: skips the next instruction if key `Vx` is down, is
    /// up.
    fn handle_keyop_skip(&mut self, case: u8, reg_id: u8) -> (r: Result<(), OpCodeError>)
        ensures
            agrees(old(self)@.keyop_skip(case, reg_id), old(self)@, final(self)@, r),
    {
        if reg_id as usize >= NUM_REGISTERS || (case != 0x9E && case != 0xA1) {
            return Err(OpCodeError::InvalidOpCode);
        }
        let key = self.get_register_val(reg_id);
        if key as usize >= NUM_KEYS {
            return Err(OpCodeError::InvalidKey);
        }
        let key_state = self.keys[key as usize];
        let skip = if case == 0x9E {
            key_state
        } else {
            !key_state
        };
        self.skip_if(skip);
        Ok(())
    }

    /// `Fx0A`: stores the least key that is down in `Vx`; if none is down,
    /// moves the program counter back so that the instruction runs again.
    fn handle_keyop_wait(&mut self, reg_id: u8) -> (r: Result<(), OpCodeError>)
        ensures
            agrees(old(self)@.keyop_wait(reg_id), old(self)@, final(self)@, r),
    {
        if reg_id as usize >= NUM_REGISTERS {
            return Err(OpCodeError::InvalidOpCode);
        }
        let mut i: u8 = 0;
        while i < 16
            invariant
                i <= 16,
                reg_id < 16,
                self@ == old(self)@,
                self@.keys.len() == 16,
                lowest_pressed(self@.keys) == lowest_pressed_from(self@.keys, i as int),
            decreases 16 - i,
        {
            if self.keys[i as usize] {
                self.set_register_val(reg_id, i);
                return Ok(());
            }
            proof {
                lemma_lowest_pressed_skip(self@.keys, i as int);
            }
            i += 1;
        }
        let pc = self.program_counter();
        self.set_program_counter(pc.wrapping_sub(2));
        Ok(())
    }

    /// `Fx07`, `Fx15`, `Fx18`: reads the delay timer into `Vx`, sets the
    /// delay timer, sets the sound timer from `Vx`.
    fn handle_timer(&mut self, args: (RegisterID, Case)) -> (r: Result<(), OpCodeError>)
        ensures
            agrees(old(self)@.timer(args.0, args.1), old(self)@, final(self)@, r),
    {
        let (register_id, case) = args;
        if register_id as usize >= NUM_REGISTERS {
            return Err(OpCodeError::InvalidOpCode);
        }
        match case {
            7 => {
                let val = self.get_delay_timer();
                self.set_register_val(register_id, val);
            },
            5 => {
                let val = self.get_register_val(register_id);
                self.set_delay_timer(val);
            },
            8 => {
                let val = self.get_register_val(register_id);
                self.set_sound_timer(val);
            },
            _ => return Err(OpCodeError::InvalidOpCode),
        };
        Ok(())
    }
}

} // verus!
