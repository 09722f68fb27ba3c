use choccy_chip::emulator::emulator::Emu;
use choccy_chip::emulator::opcode::OpCodeError;
use choccy_chip::emulator::{
    NUM_KEYS, RAM_SIZE, SCREEN_HEIGHT, SCREEN_SIZE, SCREEN_WIDTH, SPRITE_SET, SPRITE_SET_SIZE,
    STACK_SIZE,
};

#[test]
fn test_new() {
    let emu = Emu::new();

    assert_eq!(emu.program_counter(), Emu::START_ADDRESS);
    assert_eq!(emu.stack_pointer(), 0);
    assert_eq!(emu.get_delay_timer(), 0);
    assert_eq!(emu.get_sound_timer(), 0);
    assert_eq!(emu.index_register(), 0);
    assert_eq!(*emu.stack(), [0; STACK_SIZE]);
}

#[test]
fn test_stack_pointer() {
    let emu = Emu::new();

    assert_eq!(emu.stack_pointer(), 0);
}

#[test]
fn test_push_stack() {
    let mut emu = Emu::new();

    emu.push_stack(0x200).unwrap();

    assert_eq!(emu.stack_pointer(), 1);
    assert_eq!(emu.stack()[0], 0x200);
}

#[test]
fn test_pop_stack() {
    let mut emu = Emu::new();

    emu.push_stack(0x200).unwrap(); // stack pointer is now 1

    assert_eq!(emu.pop_stack(), Ok(0x200)); // stack pointer is now 0
    assert_eq!(emu.stack_pointer(), 0); // stack pointer is now 0
}

#[test]
fn test_tick_timers() {
    let mut emu = Emu::new();

    emu.set_delay_timer(1);
    emu.set_sound_timer(1);

    emu.tick_timers();

    assert_eq!(emu.get_delay_timer(), 0);
    assert_eq!(emu.get_sound_timer(), 0);
}

#[test]
fn test_tick_timers_stay_at_zero() {
    let mut emu = Emu::new();

    emu.tick_timers();
    assert_eq!(emu.get_delay_timer(), 0);
    assert_eq!(emu.get_sound_timer(), 0);

    emu.set_delay_timer(250);
    emu.set_sound_timer(2);
    emu.tick_timers();
    assert_eq!(emu.get_delay_timer(), 249);
    assert_eq!(emu.get_sound_timer(), 1);
    emu.tick_timers();
    emu.tick_timers();
    assert_eq!(emu.get_delay_timer(), 247);
    assert_eq!(emu.get_sound_timer(), 0);
}

#[test]
fn test_new_loads_font() {
    let emu = Emu::new();

    assert_eq!(emu.memory()[0..SPRITE_SET_SIZE], SPRITE_SET);
    assert!(emu.memory()[SPRITE_SET_SIZE..RAM_SIZE].iter().all(|&b| b == 0));
    assert!(emu.screen().iter().all(|&p| !p));
    assert_eq!(emu.screen().len(), SCREEN_SIZE);
    for key in 0..NUM_KEYS {
        assert!(!emu.is_key_pressed(key));
    }
    for register in 0..16 {
        assert_eq!(emu.get_register_val(register), 0);
    }
}

#[test]
fn test_screen_size() {
    assert_eq!(Emu::screen_size(), (64, 32));
    assert_eq!(Emu::screen_size(), (SCREEN_WIDTH, SCREEN_HEIGHT));
    assert_eq!(SCREEN_WIDTH * SCREEN_HEIGHT, SCREEN_SIZE);
}

#[test]
fn test_set_start_address() {
    let mut emu = Emu::new();

    emu.set_start_address(Emu::ETI_START_ADDRESS);

    assert_eq!(emu.program_counter(), 0x600);
}

#[test]
fn test_reset() {
    let mut emu = Emu::new();
    emu.set_register_val(3, 7);
    emu.set_index_register(0x321);
    emu.set_delay_timer(9);
    emu.set_sound_timer(8);
    emu.push_stack(0x456).unwrap();
    emu.press_key(5);
    emu.write_memory(0x0, 0x12).unwrap();
    emu.write_memory(0x300, 0x34).unwrap();
    emu.load_rom(&[0xD0, 0x05]).unwrap();
    emu.step().unwrap();
    emu.set_key_mapping("t", 0).unwrap();

    emu.reset();

    assert_eq!(emu.program_counter(), 0x200);
    assert_eq!(emu.stack_pointer(), 0);
    assert_eq!(emu.get_register_val(3), 0);
    assert_eq!(emu.index_register(), 0);
    assert_eq!(emu.get_delay_timer(), 0);
    assert_eq!(emu.get_sound_timer(), 0);
    assert_eq!(*emu.stack(), [0; STACK_SIZE]);
    assert!(!emu.is_key_pressed(5));
    assert_eq!(emu.memory()[0..SPRITE_SET_SIZE], SPRITE_SET);
    assert!(emu.memory()[SPRITE_SET_SIZE..RAM_SIZE].iter().all(|&b| b == 0));
    assert!(emu.screen().iter().all(|&p| !p));
    // the key mapping outlives a reset
    assert_eq!(emu.get_key_mapping("t"), Some(&0));
    assert_eq!(emu.get_key_mapping("x"), None);
}

#[test]
fn test_stack_overflow_and_underflow() {
    let mut emu = Emu::new();

    assert_eq!(emu.pop_stack(), Err(OpCodeError::StackUnderflow));
    assert_eq!(emu.stack_pointer(), 0);

    for address in 0..16 {
        assert_eq!(emu.push_stack(0x200 + address), Ok(()));
    }
    assert_eq!(emu.stack_pointer(), 16);
    assert_eq!(emu.push_stack(0x999), Err(OpCodeError::StackOverflow));
    assert_eq!(emu.stack_pointer(), 16);
    assert_eq!(emu.stack()[15], 0x20F);

    for address in (0..16).rev() {
        assert_eq!(emu.pop_stack(), Ok(0x200 + address));
    }
    assert_eq!(emu.pop_stack(), Err(OpCodeError::StackUnderflow));
}

#[test]
fn test_stack_round_trip_restores_pointer() {
    let mut emu = Emu::new();
    emu.push_stack(0x111).unwrap();
    emu.push_stack(0x222).unwrap();
    let before = emu.stack_pointer();

    emu.push_stack(0xABC).unwrap();
    assert_eq!(emu.pop_stack(), Ok(0xABC));

    assert_eq!(emu.stack_pointer(), before);
}

#[test]
fn test_write_memory() {
    let mut emu = Emu::new();

    assert_eq!(emu.write_memory(0xFFF, 0xAB), Ok(()));
    assert_eq!(emu.memory()[0xFFF], 0xAB);
    assert_eq!(emu.write_memory(0x1000, 0xCD), Err(OpCodeError::AddressOutOfRange));
    assert_eq!(emu.write_memory(0xFFFF, 0xCD), Err(OpCodeError::AddressOutOfRange));
}

#[test]
fn test_press_and_release_key() {
    let mut emu = Emu::new();

    emu.press_key(0xF);
    assert!(emu.is_key_pressed(0xF));
    assert!(!emu.is_key_pressed(0xE));

    emu.release_key(0xF);
    assert!(!emu.is_key_pressed(0xF));
}

#[test]
fn test_emu_key_mapping() {
    let mut emu = Emu::new();

    assert_eq!(emu.get_key_mapping("x"), Some(&0x0));
    assert_eq!(emu.get_key_mapping("v"), Some(&0xF));
    assert_eq!(emu.get_key_mapping("t"), None);

    assert_eq!(emu.set_key_mapping("t", 0xF), Ok(()));
    assert_eq!(emu.get_key_mapping("t"), Some(&0xF));
    assert_eq!(emu.get_key_mapping("v"), None);

    assert_eq!(
        emu.set_key_mapping("t", 16),
        Err(choccy_chip::emulator::input::InputError::InvalidKey)
    );
    assert_eq!(emu.get_key_mapping("t"), Some(&0xF));
}
