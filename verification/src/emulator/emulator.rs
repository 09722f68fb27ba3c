//! The machine state and its accessors.
use vstd::prelude::*;

use super::input::{default_keymap, keymap_wf, remapped, Input, InputError};
use super::opcode::OpCodeError;
use super::registers::{GeneralRegisters, PsuedoRegisters, SpecialRegisters};
use super::state::MachineState;
use super::{NUM_KEYS, RAM_SIZE, SCREEN_HEIGHT, SCREEN_SIZE, SCREEN_WIDTH, SPRITE_SET, STACK_SIZE};

verus! {

/// The whole state of one machine: memory, registers, stack, timers, keypad
/// and screen.
#[derive(Debug)]
pub struct Emu {
    /// Program counter and stack pointer.
    pub(crate) psuedo_registers: PsuedoRegisters,
    /// Delay and sound timer.
    pub(crate) special_registers: SpecialRegisters,
    /// The registers `V0` to `VF`.
    pub(crate) general_registers: GeneralRegisters,
    /// The index register, which holds memory addresses.
    pub(crate) i_register: u16,
    /// Memory. The font lies in its first eighty bytes.
    pub(crate) ram: [u8; 4096],
    /// The return addresses of the subroutines being executed.
    pub(crate) stack: [u16; 16],
    /// Which keys are down.
    pub(crate) keys: [bool; 16],
    /// The pixels of the screen, row by row.
    pub(crate) screen: [bool; 2048],
    /// Which keyboard input stands for which key.
    pub(crate) keymapping: Input,
}

/// The state in which a machine starts: the font at the bottom of memory,
/// the program counter at `0x200`, everything else zero.
pub open spec fn initial_state() -> MachineState {
    MachineState {
        program_counter: 0x200,
        stack_pointer: 0,
        delay_timer: 0,
        sound_timer: 0,
        registers: Seq::new(16, |i: int| 0u8),
        index: 0,
        memory: Seq::new(
            4096,
            |a: int|
                if 0 <= a < 80 {
                    SPRITE_SET@[a]
                } else {
                    0u8
                },
        ),
        stack: Seq::new(16, |i: int| 0u16),
        keys: Seq::new(16, |i: int| false),
        screen: Seq::new(2048, |p: int| false),
        keymap: default_keymap(),
    }
}

impl View for Emu {
    type V = MachineState;

    open(crate) spec fn view(&self) -> MachineState {
        MachineState {
            program_counter: self.psuedo_registers.program_counter,
            stack_pointer: self.psuedo_registers.stack_pointer,
            delay_timer: self.special_registers.delay_timer,
            sound_timer: self.special_registers.sound_timer,
            registers: self.general_registers.v@,
            index: self.i_register,
            memory: self.ram@,
            stack: self.stack@,
            keys: self.keys@,
            screen: self.screen@,
            keymap: self.keymapping@,
        }
    }
}

impl Emu {
    /// Where programs are loaded and start.
    pub const START_ADDRESS: u16 = 0x200;

    /// Where programs written for the ETI 660 are loaded and start.
    pub const ETI_START_ADDRESS: u16 = 0x600;

    #[verifier::type_invariant]
    pub(crate) open spec fn inv(&self) -> bool {
        self.psuedo_registers.stack_pointer <= 16
    }

    /// A machine in its initial state.
    #[allow(clippy::new_without_default)]
    pub fn new() -> (emu: Self)
        ensures
            emu@ == initial_state(),
            emu@.wf(),
    {
        let mut emu = Emu {
            psuedo_registers: PsuedoRegisters { program_counter: Self::START_ADDRESS, stack_pointer: 0 },
            special_registers: SpecialRegisters { delay_timer: 0, sound_timer: 0 },
            general_registers: GeneralRegisters { v: [0; 16] },
            i_register: 0,
            ram: [0; 4096],
            stack: [0; 16],
            keys: [false; 16],
            screen: [false; 2048],
            keymapping: Input::default(),
        };
        emu.load_font();
        proof {
            assert(emu@.registers =~= initial_state().registers);
            assert(emu@.memory =~= initial_state().memory);
            assert(emu@.stack =~= initial_state().stack);
            assert(emu@.keys =~= initial_state().keys);
            assert(emu@.screen =~= initial_state().screen);
        }
        emu
    }

    /// Sets the address at which execution starts, that is the program
    /// counter.
    pub fn set_start_address(&mut self, address: u16)
        ensures
            final(self)@ == old(self)@.with_program_counter(address),
    {
        proof {
            use_type_invariant(&*self);
        }
        self.psuedo_registers.program_counter = address;
    }

    /// Puts the machine back into its initial state: memory, registers,
    /// stack, timers, keys and screen are cleared and the font is written
    /// anew. The key mapping is kept.
    pub fn reset(&mut self)
        ensures
            final(self)@ == (MachineState { keymap: old(self)@.keymap, ..initial_state() }),
            final(self)@.wf(),
    {
        self.psuedo_registers.stack_pointer = 0;
        self.psuedo_registers.program_counter = Self::START_ADDRESS;
        self.special_registers = SpecialRegisters { delay_timer: 0, sound_timer: 0 };
        self.general_registers = GeneralRegisters { v: [0; 16] };
        self.i_register = 0;
        self.ram = [0; 4096];
        self.stack = [0; 16];
        self.keys = [false; 16];
        self.screen = [false; 2048];
        self.load_font();
        proof {
            assert(self@.registers =~= initial_state().registers);
            assert(self@.memory =~= initial_state().memory);
            assert(self@.stack =~= initial_state().stack);
            assert(self@.keys =~= initial_state().keys);
            assert(self@.screen =~= initial_state().screen);
        }
    }

    /// Width and height of the screen in pixels.
    pub fn screen_size() -> (size: (usize, usize))
        ensures
            size == (SCREEN_WIDTH, SCREEN_HEIGHT),
    {
        (SCREEN_WIDTH, SCREEN_HEIGHT)
    }

    /// The pixels of the screen, row by row: pixel (`x`, `y`) is at
    /// `y * 64 + x`.
    pub fn screen(&self) -> (pixels: &[bool; 2048])
        ensures
            pixels@ == self@.screen,
    {
        &self.screen
    }

    /// The memory of the machine.
    pub fn memory(&self) -> (bytes: &[u8; 4096])
        ensures
            bytes@ == self@.memory,
    {
        &self.ram
    }

    /// Writes one byte of memory. Fails with `AddressOutOfRange`, and
    /// changes nothing, if `address` lies past the end of memory.
    pub fn write_memory(&mut self, address: u16, val: u8) -> (r: Result<(), OpCodeError>)
        ensures
            address < RAM_SIZE ==> r == Ok::<(), OpCodeError>(()) && final(self)@ == (MachineState {
                memory: old(self)@.memory.update(address as int, val),
                ..old(self)@
            }),
            address >= RAM_SIZE ==> r == Err::<(), OpCodeError>(OpCodeError::AddressOutOfRange)
                && final(self)@ == old(self)@,
    {
        if (address as usize) < RAM_SIZE {
            proof {
                use_type_invariant(&*self);
            }
            self.ram[address as usize] = val;
            Ok(())
        } else {
            Err(OpCodeError::AddressOutOfRange)
        }
    }

    /// The value of the index register.
    pub fn index_register(&self) -> (address: u16)
        ensures
            address == self@.index,
    {
        self.i_register
    }

    /// Sets the index register.
    pub fn set_index_register(&mut self, address: u16)
        ensures
            final(self)@ == old(self)@.with_index(address),
    {
        proof {
            use_type_invariant(&*self);
        }
        self.i_register = address;
    }

    /// The value of register `register`.
    pub fn get_register_val(&self, register: u8) -> (val: u8)
        requires
            register < 16,
        ensures
            val == self@.registers[register as int],
    {
        self.general_registers.v[register as usize]
    }

    /// Sets register `register` to `val`.
    pub fn set_register_val(&mut self, register: u8, val: u8)
        requires
            register < 16,
        ensures
            final(self)@ == old(self)@.with_register(register, val),
    {
        proof {
            use_type_invariant(&*self);
        }
        self.general_registers.v[register as usize] = val;
    }

    /// The program counter.
    pub fn program_counter(&self) -> (address: u16)
        ensures
            address == self@.program_counter,
    {
        self.psuedo_registers.program_counter
    }

    /// Sets the program counter.
    pub fn set_program_counter(&mut self, address: u16)
        ensures
            final(self)@ == old(self)@.with_program_counter(address),
    {
        proof {
            use_type_invariant(&*self);
        }
        self.psuedo_registers.program_counter = address;
    }

    /// The stack pointer: the number of return addresses on the stack. It
    /// never exceeds sixteen: the state of a machine is well formed whatever
    /// was done to it.
    pub fn stack_pointer(&self) -> (sp: u8)
        ensures
            sp == self@.stack_pointer,
            sp <= 16,
            self@.wf(),
    {
        proof {
            use_type_invariant(self);
        }
        self.psuedo_registers.stack_pointer
    }

    /// The slots of the stack. Those below the stack pointer hold the return
    /// addresses that are on the stack.
    pub fn stack(&self) -> (slots: &[u16; 16])
        ensures
            slots@ == self@.stack,
    {
        &self.stack
    }

    /// Pushes `address`: writes it at the stack pointer and moves the
    /// pointer up. Fails with `StackOverflow`, and changes nothing, if
    /// sixteen addresses are on the stack.
    pub fn push_stack(&mut self, address: u16) -> (r: Result<(), OpCodeError>)
        ensures
            old(self)@.stack_pointer < 16 ==> r == Ok::<(), OpCodeError>(()) && final(self)@ == old(self)@.push(address),
            old(self)@.stack_pointer >= 16 ==> r == Err::<(), OpCodeError>(
                OpCodeError::StackOverflow,
            ) && final(self)@ == old(self)@,
    {
        proof {
            use_type_invariant(&*self);
        }
        let sp = self.psuedo_registers.stack_pointer;
        if (sp as usize) < STACK_SIZE {
            self.stack[sp as usize] = address;
            self.psuedo_registers.stack_pointer = sp + 1;
            Ok(())
        } else {
            Err(OpCodeError::StackOverflow)
        }
    }

    /// Pops the address that was pushed last: moves the stack pointer down
    /// and reads the slot it then points at. Fails with `StackUnderflow`,
    /// and changes nothing, if the stack is empty.
    pub fn pop_stack(&mut self) -> (r: Result<u16, OpCodeError>)
        ensures
            old(self)@.stack_pointer > 0 ==> r == Ok::<u16, OpCodeError>(old(self)@.top())
                && final(self)@ == old(self)@.pop(),
            old(self)@.stack_pointer == 0 ==> r == Err::<u16, OpCodeError>(
                OpCodeError::StackUnderflow,
            ) && final(self)@ == old(self)@,
    {
        proof {
            use_type_invariant(&*self);
        }
        let sp = self.psuedo_registers.stack_pointer;
        if sp > 0 {
            self.psuedo_registers.stack_pointer = sp - 1;
            Ok(self.stack[(sp - 1) as usize])
        } else {
            Err(OpCodeError::StackUnderflow)
        }
    }

    /// The delay timer.
    pub fn get_delay_timer(&self) -> (val: u8)
        ensures
            val == self@.delay_timer,
    {
        self.special_registers.delay_timer
    }

    /// Sets the delay timer.
    pub fn set_delay_timer(&mut self, val: u8)
        ensures
            final(self)@ == (MachineState { delay_timer: val, ..old(self)@ }),
    {
        proof {
            use_type_invariant(&*self);
        }
        self.special_registers.delay_timer = val;
    }

    /// The sound timer. A tone is due while it is nonzero.
    pub fn get_sound_timer(&self) -> (val: u8)
        ensures
            val == self@.sound_timer,
    {
        self.special_registers.sound_timer
    }

    /// Sets the sound timer.
    pub fn set_sound_timer(&mut self, val: u8)
        ensures
            final(self)@ == (MachineState { sound_timer: val, ..old(self)@ }),
    {
        proof {
            use_type_invariant(&*self);
        }
        self.special_registers.sound_timer = val;
    }

    /// One tick of the timers: each one that is not zero goes down by one;
    /// one that is zero stays zero.
    pub fn tick_timers(&mut self)
        ensures
            final(self)@ == old(self)@.tick(),
    {
        proof {
            use_type_invariant(&*self);
        }
        if self.special_registers.delay_timer > 0 {
            self.special_registers.delay_timer -= 1;
        }
        if self.special_registers.sound_timer > 0 {
            self.special_registers.sound_timer -= 1;
        }
    }

    /// Marks key `key` as down.
    pub fn press_key(&mut self, key: usize)
        requires
            key < NUM_KEYS,
        ensures
            final(self)@ == (MachineState {
                keys: old(self)@.keys.update(key as int, true),
                ..old(self)@
            }),
    {
        proof {
            use_type_invariant(&*self);
        }
        self.keys[key] = true;
    }

    /// Marks key `key` as up.
    pub fn release_key(&mut self, key: usize)
        requires
            key < NUM_KEYS,
        ensures
            final(self)@ == (MachineState {
                keys: old(self)@.keys.update(key as int, false),
                ..old(self)@
            }),
    {
        proof {
            use_type_invariant(&*self);
        }
        self.keys[key] = false;
    }

    /// Whether key `key` is down.
    pub fn is_key_pressed(&self, key: usize) -> (down: bool)
        requires
            key < NUM_KEYS,
        ensures
            down == self@.keys[key as int],
    {
        self.keys[key]
    }

    /// The key that the keyboard input `input` stands for, if it stands for
    /// one. A key that is returned exists: it is below sixteen.
    #[must_use]
    pub fn get_key_mapping(&self, input: &str) -> (r: Option<&usize>)
        ensures
            keymap_wf(self@.keymap),
            match r {
                Some(key) => self@.keymap.contains((input@, *key)) && *key < 16,
                None => forall|i: int| 0 <= i < self@.keymap.len() ==> self@.keymap[i].0 != input@,
            },
    {
        self.keymapping.get_key_mapping(input)
    }

    /// Lets the keyboard input `input` stand for key `key`. What `input`
    /// stood for before, and what stood for `key` before, are forgotten.
    /// Fails with `InvalidKey`, and changes nothing, if the keypad has no key
    /// `key`.
    pub fn set_key_mapping(&mut self, input: &str, key: usize) -> (r: Result<(), InputError>)
        ensures
            key < 16 ==> r == Ok::<(), InputError>(()) && final(self)@ == (MachineState {
                keymap: remapped(old(self)@.keymap, input@, key),
                ..old(self)@
            }),
            key >= 16 ==> r == Err::<(), InputError>(InputError::InvalidKey) && final(self)@
                == old(self)@,
    {
        proof {
            use_type_invariant(&*self);
        }
        let mut keymapping = Input::new();
        std::mem::swap(&mut keymapping, &mut self.keymapping);
        let r = keymapping.set_key_mapping(input, key);
        self.keymapping = keymapping;
        r
    }

    /// Writes the font to the first eighty bytes of memory.
    fn load_font(&mut self)
        ensures
            final(self)@.memory == Seq::new(
                4096,
                |a: int|
                    if 0 <= a < 80 {
                        SPRITE_SET@[a]
                    } else {
                        old(self)@.memory[a]
                    },
            ),
            final(self)@ == (MachineState { memory: final(self)@.memory, ..old(self)@ }),
    {
        proof {
            use_type_invariant(&*self);
        }
        let mut i: usize = 0;
        while i < 80
            invariant
                i <= 80,
                self.inv(),
                self@ == (MachineState { memory: self@.memory, ..old(self)@ }),
                forall|a: int| 0 <= a < i ==> self@.memory[a] == SPRITE_SET@[a],
                forall|a: int| i <= a < 4096 ==> self@.memory[a] == old(self)@.memory[a],
            decreases 80 - i,
        {
            self.ram[i] = SPRITE_SET[i];
            i += 1;
        }
        proof {
            assert(self@.memory =~= Seq::new(
                4096,
                |a: int|
                    if 0 <= a < 80 {
                        SPRITE_SET@[a]
                    } else {
                        old(self)@.memory[a]
                    },
            ));
        }
    }
}

} // verus!
