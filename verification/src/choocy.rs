//! The states of a front end for the machine and what key presses do to
//! them. Reading keys, drawing and timing are left to the program that uses
//! this; here are the decisions.
use vstd::prelude::*;

use crate::emulator::emulator::{initial_state, Emu};
use crate::emulator::input::remapped;
use crate::emulator::state::MachineState;

verus! {

/// How fast the machine runs.
#[derive(Debug, Clone, Copy, PartialEq, Eq)]
pub enum Speed {
    /// One cycle every 100 ms.
    Slow,
    /// One cycle every 50 ms.
    Normal,
    /// One cycle every 10 ms.
    Fast,
}

/// What the machine is doing.
#[derive(Debug, Clone, Copy, PartialEq, Eq)]
pub enum EmulateState {
    /// Not started.
    Off,
    /// Executing instructions.
    Running,
    /// Halted until resumed.
    Paused,
    /// Stopped by a failed instruction.
    Error,
}

/// Which screen the front end shows.
#[derive(Debug, Clone, Copy, PartialEq, Eq)]
pub enum AppState {
    /// The start screen.
    Home,
    /// The screen on which a program is chosen.
    Rom,
    /// The screen of the running machine.
    Emulate,
    /// The screen on which keys are remapped.
    Remap,
    /// The pause screen.
    Pause,
    /// The front end is to end.
    Quit,
}

/// A front end: a machine together with what is shown and how it runs.
#[derive(Debug)]
pub struct App {
    /// The machine.
    pub emu: Emu,
    /// Which screen is shown.
    pub app_state: AppState,
    /// What the machine is doing.
    pub emu_state: EmulateState,
    /// Whether a tone is played while the sound timer runs.
    pub sound: bool,
    /// Whether debugging output is wanted.
    pub debug: bool,
    /// The path of the program, if one was given.
    pub rom: Option<String>,
    /// How fast the machine runs.
    pub speed: Speed,
}

impl Default for Speed {
    fn default() -> (speed: Self)
        ensures
            speed == Speed::Normal,
    {
        Speed::Normal
    }
}

impl Default for EmulateState {
    fn default() -> (state: Self)
        ensures
            state == EmulateState::Off,
    {
        EmulateState::Off
    }
}

impl Default for AppState {
    fn default() -> (state: Self)
        ensures
            state == AppState::Home,
    {
        AppState::Home
    }
}

impl Speed {
    /// The time between two cycles in milliseconds.
    pub open spec fn tick_millis(self) -> u64 {
        match self {
            Speed::Slow => 100,
            Speed::Normal => 50,
            Speed::Fast => 10,
        }
    }

    /// The time between two cycles, in milliseconds.
    pub fn as_tick_rate(&self) -> (millis: u64)
        ensures
            millis == self.tick_millis(),
    {
        match self {
            Speed::Slow => 100,
            Speed::Normal => 50,
            Speed::Fast => 10,
        }
    }
}

/// The string that holds the one character `c`, by `char::to_string`.
#[verifier::external_body]
fn char_to_string(c: char) -> (s: String)
    ensures
        s@ == seq![c],
{
    c.to_string()
}

/// Where a key press on the start screen leads: `s` starts the machine, `r`
/// opens the remapping screen, `l` the program screen, `q` with the control
/// key ends the front end, and any other key changes nothing.
pub open spec fn home_key(
    app_state: AppState,
    emu_state: EmulateState,
    c: char,
    control: bool,
) -> (AppState, EmulateState) {
    if c == 's' {
        (AppState::Emulate, EmulateState::Running)
    } else if c == 'q' && control {
        (AppState::Quit, emu_state)
    } else if c == 'r' {
        (AppState::Remap, emu_state)
    } else if c == 'l' {
        (AppState::Rom, emu_state)
    } else {
        (app_state, emu_state)
    }
}

/// The key of the keypad that the keyboard key `c` stands for in `machine`,
/// if it stands for one.
pub open spec fn mapped_key(machine: MachineState, c: char) -> Option<usize> {
    if exists|key: usize| machine.keymap.contains((seq![c], key)) {
        Some(choose|key: usize| machine.keymap.contains((seq![c], key)))
    } else {
        None
    }
}

/// The machine after the keyboard key `c` went down (`pressed`) or up: if
/// `c` stands for a key of the keypad, that key is down or up; else nothing
/// has changed.
pub open spec fn with_keyboard_key(machine: MachineState, c: char, pressed: bool) -> MachineState {
    match mapped_key(machine, c) {
        Some(key) => MachineState { keys: machine.keys.update(key as int, pressed), ..machine },
        None => machine,
    }
}

/// The machine after the second key press on the remapping screen: if `c`
/// stands for a key of the keypad it is mapped to that key anew; else
/// nothing has changed.
pub open spec fn with_remap_target(machine: MachineState, c: char) -> MachineState {
    match mapped_key(machine, c) {
        Some(key) => MachineState { keymap: remapped(machine.keymap, seq![c], key), ..machine },
        None => machine,
    }
}

/// What of a front end a key event can change: the screen shown, what the
/// machine is doing, the machine itself, and whether the remapping screen
/// waits for its second key.
pub struct KeyOutcome {
    /// Which screen is shown.
    pub app_state: AppState,
    /// What the machine is doing.
    pub emu_state: EmulateState,
    /// The machine.
    pub machine: MachineState,
    /// Whether the next key press completes a remapping.
    pub awaits_target: bool,
}

/// What a key event does. `before` is the front end as the event finds it;
/// `pressed` and `released` tell whether the key went down or up (neither
/// holds of a key that repeats).
///
/// On the start, program and pause screens a key that goes down acts as on
/// the start screen. On the remapping screen the first key that goes down
/// chooses what to remap and the second completes it. On the screen of the
/// running machine a key that goes down or up moves the key of the keypad it
/// stands for. Any other event changes nothing.
pub open spec fn key_outcome(
    before: KeyOutcome,
    c: char,
    control: bool,
    pressed: bool,
    released: bool,
) -> KeyOutcome {
    match before.app_state {
        AppState::Home | AppState::Rom | AppState::Pause => {
            if pressed {
                KeyOutcome {
                    app_state: home_key(before.app_state, before.emu_state, c, control).0,
                    emu_state: home_key(before.app_state, before.emu_state, c, control).1,
                    ..before
                }
            } else {
                before
            }
        },
        AppState::Remap => {
            if !pressed {
                before
            } else if before.awaits_target {
                KeyOutcome {
                    machine: with_remap_target(before.machine, c),
                    awaits_target: false,
                    ..before
                }
            } else if c == 'q' && control {
                KeyOutcome { app_state: AppState::Home, awaits_target: false, ..before }
            } else {
                KeyOutcome { awaits_target: mapped_key(before.machine, c) is Some, ..before }
            }
        },
        AppState::Emulate => {
            if pressed && c == 'q' && control {
                KeyOutcome { app_state: AppState::Quit, ..before }
            } else if pressed || released {
                KeyOutcome { machine: with_keyboard_key(before.machine, c, pressed), ..before }
            } else {
                before
            }
        },
        AppState::Quit => before,
    }
}

/// What one tick of the clock does to a front end, given the byte that the
/// random number generator hands out: the machine, what it is doing, and
/// whether a tone is due. A machine that is not running is left alone. A
/// running machine does one cycle and its timers one tick; a tone is due if
/// the sound timer was not zero before its tick; a failed instruction stops
/// the machine with an error.
pub open spec fn cycled(machine: MachineState, emu_state: EmulateState, random: u8) -> (
    MachineState,
    EmulateState,
    bool,
) {
    if emu_state == EmulateState::Running {
        let stepped = machine.step(random);
        (
            stepped.0.tick(),
            if stepped.1 is Err {
                EmulateState::Error
            } else {
                emu_state
            },
            stepped.0.sound_timer > 0,
        )
    } else {
        (machine, emu_state, false)
    }
}

impl App {
    /// A front end on its start screen, with a new machine that is not yet
    /// running, at normal speed, without sound or debugging, and with no
    /// program.
    pub fn new() -> (app: Self)
        ensures
            app.emu@ == initial_state(),
            app.app_state == AppState::Home,
            app.emu_state == EmulateState::Off,
            !app.sound,
            !app.debug,
            app.rom is None,
            app.speed == Speed::Normal,
    {
        App {
            emu: Emu::new(),
            app_state: AppState::Home,
            emu_state: EmulateState::Off,
            sound: false,
            debug: false,
            rom: None,
            speed: Speed::Normal,
        }
    }

    /// A key press on the start screen.
    pub fn handle_home_key_event(&mut self, c: char, control: bool)
        ensures
            (final(self).app_state, final(self).emu_state) == home_key(
                old(self).app_state,
                old(self).emu_state,
                c,
                control,
            ),
            final(self).emu@ == old(self).emu@,
            final(self).sound == old(self).sound,
            final(self).debug == old(self).debug,
            final(self).rom == old(self).rom,
            final(self).speed == old(self).speed,
    {
        if c == 's' {
            self.app_state = AppState::Emulate;
            self.emu_state = EmulateState::Running;
        } else if c == 'q' {
            if control {
                self.app_state = AppState::Quit;
            }
        } else if c == 'r' {
            self.app_state = AppState::Remap;
        } else if c == 'l' {
            self.app_state = AppState::Rom;
        }
    }

    /// The first key press on the remapping screen. `q` with the control
    /// key leads back to the start screen. Returns whether the key stands for
    /// a key of the keypad, in which case the next key press is to be handed
    /// to `handle_remap_target`.
    pub fn handle_key_remap_event(&mut self, c: char, control: bool) -> (awaits_target: bool)
        ensures
            final(self).app_state == if c == 'q' && control {
                AppState::Home
            } else {
                old(self).app_state
            },
            awaits_target == (!(c == 'q' && control) && mapped_key(old(self).emu@, c) is Some),
            final(self).emu@ == old(self).emu@,
            final(self).emu_state == old(self).emu_state,
            final(self).sound == old(self).sound,
            final(self).debug == old(self).debug,
            final(self).rom == old(self).rom,
            final(self).speed == old(self).speed,
    {
        if c == 'q' && control {
            self.app_state = AppState::Home;
            return false;
        }
        let key_str = char_to_string(c);
        self.emu.get_key_mapping(key_str.as_str()).is_some()
    }

    /// The second key press on the remapping screen. If the key stands for
    /// a key of the keypad it is mapped to that key anew, which makes it the
    /// mapping set last; else nothing changes.
    pub fn handle_remap_target(&mut self, c: char)
        ensures
            final(self).emu@ == with_remap_target(old(self).emu@, c),
            final(self).app_state == old(self).app_state,
            final(self).emu_state == old(self).emu_state,
            final(self).sound == old(self).sound,
            final(self).debug == old(self).debug,
            final(self).rom == old(self).rom,
            final(self).speed == old(self).speed,
    {
        let key_str = char_to_string(c);
        let chip8_key = match self.emu.get_key_mapping(key_str.as_str()) {
            Some(key) => Some(*key),
            None => None,
        };
        if let Some(key) = chip8_key {
            let _ = self.emu.set_key_mapping(key_str.as_str(), key);
        }
    }

    /// A key press (`pressed`) or release on the screen of the running
    /// machine. `q` pressed with the control key ends the front end. Any
    /// other key that stands for a key of the keypad puts that key down or
    /// up.
    pub fn handle_emulate_key_event(&mut self, c: char, control: bool, pressed: bool)
        ensures
            c == 'q' && control && pressed ==> final(self).app_state == AppState::Quit && final(self).emu@ == old(self).emu@,
            !(c == 'q' && control && pressed) ==> final(self).app_state == old(self).app_state
                && final(self).emu@ == with_keyboard_key(old(self).emu@, c, pressed),
            final(self).emu_state == old(self).emu_state,
            final(self).sound == old(self).sound,
            final(self).debug == old(self).debug,
            final(self).rom == old(self).rom,
            final(self).speed == old(self).speed,
    {
        if c == 'q' && control && pressed {
            self.app_state = AppState::Quit;
            return;
        }
        let key_str = char_to_string(c);
        let chip8_key = match self.emu.get_key_mapping(key_str.as_str()) {
            Some(key) => Some(*key),
            None => None,
        };
        if let Some(key) = chip8_key {
            if pressed {
                self.emu.press_key(key);
            } else {
                self.emu.release_key(key);
            }
        }
    }

    /// One tick of the clock: a running machine does one cycle and its
    /// timers one tick, and a failed instruction stops it with an error.
    /// Returns whether a tone is due.
    pub fn cycle(&mut self) -> (tone: bool)
        ensures
            exists|random: u8|
                (final(self).emu@, final(self).emu_state, tone) == #[trigger] cycled(
                    old(self).emu@,
                    old(self).emu_state,
                    random,
                ),
            !old(self).emu@.next_is_random() ==> forall|random: u8|
                (final(self).emu@, final(self).emu_state, tone) == #[trigger] cycled(
                    old(self).emu@,
                    old(self).emu_state,
                    random,
                ),
            final(self).app_state == old(self).app_state,
            final(self).sound == old(self).sound,
            final(self).debug == old(self).debug,
            final(self).rom == old(self).rom,
            final(self).speed == old(self).speed,
    {
        match self.emu_state {
            EmulateState::Running => {
                let r = self.emu.step();
                let ghost stepped = self.emu@;
                if r.is_err() {
                    self.emu_state = EmulateState::Error;
                }
                let tone = self.emu.get_sound_timer() > 0;
                self.emu.tick_timers();
                proof {
                    let random = choose|random: u8|
                        (stepped, r) == #[trigger] old(self).emu@.step(random);
                    assert((self.emu@, self.emu_state, tone) == cycled(
                        old(self).emu@,
                        old(self).emu_state,
                        random,
                    ));
                    if !old(self).emu@.next_is_random() {
                        assert forall|random: u8|
                            (self.emu@, self.emu_state, tone) == #[trigger] cycled(
                                old(self).emu@,
                                old(self).emu_state,
                                random,
                            ) by {
                            assert((stepped, r) == old(self).emu@.step(random));
                        }
                    }
                }
                tone
            },
            _ => {
                proof {
                    assert((self.emu@, self.emu_state, false) == cycled(
                        old(self).emu@,
                        old(self).emu_state,
                        0u8,
                    ));
                }
                false
            },
        }
    }

    /// A key event on whatever screen is shown: hands the key to the
    /// handler of that screen. `pressed` and `released` tell whether the key
    /// went down or up. `awaits_target` tells whether the remapping screen
    /// waits for its second key; the answer is what it is after the event.
    pub fn handle_key(
        &mut self,
        c: char,
        control: bool,
        pressed: bool,
        released: bool,
        awaits_target: bool,
    ) -> (awaits: bool)
        ensures
            (KeyOutcome {
                app_state: final(self).app_state,
                emu_state: final(self).emu_state,
                machine: final(self).emu@,
                awaits_target: awaits,
            }) == key_outcome(
                (KeyOutcome {
                    app_state: old(self).app_state,
                    emu_state: old(self).emu_state,
                    machine: old(self).emu@,
                    awaits_target,
                }),
                c,
                control,
                pressed,
                released,
            ),
            final(self).sound == old(self).sound,
            final(self).debug == old(self).debug,
            final(self).rom == old(self).rom,
            final(self).speed == old(self).speed,
    {
        match self.app_state {
            AppState::Home | AppState::Rom | AppState::Pause => {
                if pressed {
                    self.handle_home_key_event(c, control);
                }
                awaits_target
            },
            AppState::Remap => {
                if !pressed {
                    awaits_target
                } else if awaits_target {
                    self.handle_remap_target(c);
                    false
                } else {
                    self.handle_key_remap_event(c, control)
                }
            },
            AppState::Emulate => {
                if pressed || released {
                    self.handle_emulate_key_event(c, control, pressed);
                }
                awaits_target
            },
            AppState::Quit => awaits_target,
        }
    }
}

} // verus!
