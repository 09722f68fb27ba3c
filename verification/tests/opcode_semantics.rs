use choccy_chip::emulator::emulator::Emu;
use choccy_chip::emulator::opcode::{decode, OpCode, OpCodeError};

/// A machine with `program` at the start address.
fn machine_with(program: &[u8]) -> Emu {
    let mut emu = Emu::new();
    emu.load_rom(program).unwrap();
    emu
}

fn run(emu: &mut Emu, opcode: OpCode) {
    assert_eq!(emu.execute_opcode(&opcode), Ok(()));
}

#[test]
fn test_decode_is_total() {
    let mut unknown = 0;
    let mut clear = 0;
    for word in 0..=u16::MAX {
        let opcode = decode(word);
        assert_eq!(OpCode::from(word), opcode);
        // no word stands for the no-operation
        assert_ne!(opcode, OpCode::Nop);
        if opcode == OpCode::Unknown {
            unknown += 1;
        }
        if opcode == OpCode::Display(None) {
            clear += 1;
        }
    }
    assert_eq!(clear, 1);
    // 5xyn and 9xyn with n != 0: 2 * 256 * 15; Exkk but for 9E and A1:
    // 16 * 254; Fxkk but for nine values of kk: 16 * 247
    assert_eq!(unknown, 7680 + 4064 + 3952);
}

#[test]
fn test_decode_families() {
    assert_eq!(decode(0x0000), OpCode::Display(None));
    assert_eq!(decode(0x00EE), OpCode::Return);
    assert_eq!(decode(0x00E0), OpCode::Call(0x0E0));
    assert_eq!(decode(0x0001), OpCode::Call(0x001));
    assert_eq!(decode(0x00E1), OpCode::Call(0x0E1));
    assert_eq!(decode(0x0FFF), OpCode::Call(0xFFF));
    assert_eq!(decode(0x1ABC), OpCode::Flow(1, 0xABC));
    assert_eq!(decode(0x2ABC), OpCode::Flow(2, 0xABC));
    assert_eq!(decode(0xBABC), OpCode::Flow(11, 0xABC));
    assert_eq!(decode(0x3A7F), OpCode::SkipEquals((3, 0xA, 0x7F)));
    assert_eq!(decode(0x4A7F), OpCode::SkipEquals((4, 0xA, 0x7F)));
    assert_eq!(decode(0x5AB0), OpCode::SkipRegEquals((5, 0xA, 0xB)));
    assert_eq!(decode(0x9AB0), OpCode::SkipRegEquals((9, 0xA, 0xB)));
    assert_eq!(decode(0x5AB1), OpCode::Unknown);
    assert_eq!(decode(0x9ABF), OpCode::Unknown);
    assert_eq!(decode(0x6A7F), OpCode::Constant((6, 0xA, 0x7F)));
    assert_eq!(decode(0x7A7F), OpCode::Constant((7, 0xA, 0x7F)));
    assert_eq!(decode(0x8ABE), OpCode::BitOp((0xA, 0xB, 0xE)));
    assert_eq!(decode(0x8ABF), OpCode::BitOp((0xA, 0xB, 0xF)));
    assert_eq!(decode(0xAABC), OpCode::IOp(0xABC));
    assert_eq!(decode(0xCA7F), OpCode::RandomOp((0xA, 0x7F)));
    assert_eq!(decode(0xDABC), OpCode::Display(Some((0xA, 0xB, 0xC))));
    assert_eq!(decode(0xEA9E), OpCode::KeyOpSkip(0x9E, 0xA));
    assert_eq!(decode(0xEAA1), OpCode::KeyOpSkip(0xA1, 0xA));
    assert_eq!(decode(0xEA9F), OpCode::Unknown);
    assert_eq!(decode(0xEAAE), OpCode::Unknown);
    assert_eq!(decode(0xEA91), OpCode::Unknown);
    assert_eq!(decode(0xFA0A), OpCode::KeyOpWait(0xA));
    assert_eq!(decode(0xFA07), OpCode::Timer((0xA, 7)));
    assert_eq!(decode(0xFA15), OpCode::Timer((0xA, 5)));
    assert_eq!(decode(0xFA18), OpCode::Timer((0xA, 8)));
    assert_eq!(decode(0xFA1E), OpCode::MemoryOp((0xA, 0x1E)));
    assert_eq!(decode(0xFA29), OpCode::MemoryOp((0xA, 29)));
    assert_eq!(decode(0xFA55), OpCode::MemoryOp((0xA, 55)));
    assert_eq!(decode(0xFA65), OpCode::MemoryOp((0xA, 65)));
    assert_eq!(decode(0xFA33), OpCode::Bcd(0xA));
    assert_eq!(decode(0xFA19), OpCode::Unknown);
    assert_eq!(decode(0xFA25), OpCode::Unknown);
    assert_eq!(decode(0xFA00), OpCode::Unknown);
    assert_eq!(decode(0xFFFF), OpCode::Unknown);
}

#[test]
fn test_set_const_then_add_const_wraps() {
    let mut emu = Emu::new();
    emu.set_register_val(0xF, 0x5A);

    run(&mut emu, OpCode::Constant((6, 3, 0xFF)));
    assert_eq!(emu.get_register_val(3), 0xFF);
    run(&mut emu, OpCode::Constant((7, 3, 0x02)));

    assert_eq!(emu.get_register_val(3), 0x01);
    // no flag is set: VF is as it was
    assert_eq!(emu.get_register_val(0xF), 0x5A);
}

#[test]
fn test_bit_op_add_overflow() {
    let mut emu = Emu::new();
    emu.set_register_val(1, 0x80);
    emu.set_register_val(2, 0x80);

    run(&mut emu, OpCode::BitOp((1, 2, 4)));

    assert_eq!(emu.get_register_val(1), 0x00);
    assert_eq!(emu.get_register_val(2), 0x80);
    assert_eq!(emu.get_register_val(0xF), 1);

    emu.set_register_val(1, 0xFE);
    emu.set_register_val(2, 0x01);
    run(&mut emu, OpCode::BitOp((1, 2, 4)));
    assert_eq!(emu.get_register_val(1), 0xFF);
    assert_eq!(emu.get_register_val(0xF), 0);
}

#[test]
fn test_bit_op_sub_borrow() {
    let mut emu = Emu::new();
    emu.set_register_val(1, 0x10);
    emu.set_register_val(2, 0x20);

    run(&mut emu, OpCode::BitOp((1, 2, 5)));

    assert_eq!(emu.get_register_val(1), 0xF0);
    assert_eq!(emu.get_register_val(0xF), 0);

    // equal operands: no borrow
    emu.set_register_val(1, 0x20);
    run(&mut emu, OpCode::BitOp((1, 2, 5)));
    assert_eq!(emu.get_register_val(1), 0x00);
    assert_eq!(emu.get_register_val(0xF), 1);
}

#[test]
fn test_bit_op_reverse_sub() {
    let mut emu = Emu::new();
    emu.set_register_val(1, 0x20);
    emu.set_register_val(2, 0x10);

    run(&mut emu, OpCode::BitOp((1, 2, 7)));

    assert_eq!(emu.get_register_val(1), 0xF0);
    assert_eq!(emu.get_register_val(2), 0x10);
    assert_eq!(emu.get_register_val(0xF), 0);

    emu.set_register_val(1, 0x01);
    run(&mut emu, OpCode::BitOp((1, 2, 7)));
    assert_eq!(emu.get_register_val(1), 0x0F);
    assert_eq!(emu.get_register_val(0xF), 1);
}

#[test]
fn test_bit_op_shifts() {
    let mut emu = Emu::new();

    emu.set_register_val(1, 0b1000_0101);
    run(&mut emu, OpCode::BitOp((1, 2, 6)));
    assert_eq!(emu.get_register_val(1), 0b0100_0010);
    assert_eq!(emu.get_register_val(0xF), 1);
    run(&mut emu, OpCode::BitOp((1, 2, 6)));
    assert_eq!(emu.get_register_val(1), 0b0010_0001);
    assert_eq!(emu.get_register_val(0xF), 0);

    emu.set_register_val(1, 0b1000_0101);
    run(&mut emu, OpCode::BitOp((1, 2, 0xE)));
    assert_eq!(emu.get_register_val(1), 0b0000_1010);
    assert_eq!(emu.get_register_val(0xF), 1);
    run(&mut emu, OpCode::BitOp((1, 2, 0xE)));
    assert_eq!(emu.get_register_val(1), 0b0001_0100);
    assert_eq!(emu.get_register_val(0xF), 0);
}

#[test]
fn test_bit_op_on_flag_register() {
    let mut emu = Emu::new();

    // the sum goes to VF first, the carry after it
    emu.set_register_val(0xF, 0xFF);
    emu.set_register_val(1, 0x02);
    run(&mut emu, OpCode::BitOp((0xF, 1, 4)));
    assert_eq!(emu.get_register_val(0xF), 1);

    // the bit goes to VF first, the shifted value after it
    emu.set_register_val(0xF, 0b0000_0111);
    run(&mut emu, OpCode::BitOp((0xF, 1, 6)));
    assert_eq!(emu.get_register_val(0xF), 0b0000_0011);
}

#[test]
fn test_bit_op_logic() {
    let mut emu = Emu::new();
    emu.set_register_val(0xF, 9);
    emu.set_register_val(1, 0b1100);
    emu.set_register_val(2, 0b1010);

    run(&mut emu, OpCode::BitOp((1, 2, 1)));
    assert_eq!(emu.get_register_val(1), 0b1110);
    emu.set_register_val(1, 0b1100);
    run(&mut emu, OpCode::BitOp((1, 2, 2)));
    assert_eq!(emu.get_register_val(1), 0b1000);
    emu.set_register_val(1, 0b1100);
    run(&mut emu, OpCode::BitOp((1, 2, 3)));
    assert_eq!(emu.get_register_val(1), 0b0110);
    run(&mut emu, OpCode::BitOp((1, 2, 0)));
    assert_eq!(emu.get_register_val(1), 0b1010);
    assert_eq!(emu.get_register_val(0xF), 9);
}

#[test]
fn test_draw_twice_restores_screen() {
    let mut emu = Emu::new();
    // glyph "A" of the font, near the corner so that it wraps both ways
    emu.set_index_register(50);
    emu.set_register_val(1, 61);
    emu.set_register_val(2, 30);
    emu.press_key(3);
    let draw = OpCode::Display(Some((1, 2, 5)));

    run(&mut emu, draw);
    assert_eq!(emu.get_register_val(0xF), 0);
    let lit: Vec<usize> = (0..2048).filter(|&p| emu.screen()[p]).collect();
    // F0 90 F0 90 90 on rows 30, 31, 0, 1, 2 and columns 61, 62, 63, 0
    assert_eq!(
        lit,
        vec![
            0,
            61,
            62,
            63,
            64,
            64 + 61,
            128,
            128 + 61,
            30 * 64,
            30 * 64 + 61,
            30 * 64 + 62,
            30 * 64 + 63,
            31 * 64,
            31 * 64 + 61
        ]
    );

    run(&mut emu, draw);
    assert!(emu.screen().iter().all(|&p| !p));
    assert_eq!(emu.get_register_val(0xF), 1);
    assert_eq!(emu.get_register_val(1), 61);
    assert_eq!(emu.index_register(), 50);
}

#[test]
fn test_draw_collision_on_partial_overlap() {
    let mut emu = Emu::new();
    emu.write_memory(0x300, 0b1100_0000).unwrap();
    emu.write_memory(0x301, 0b0110_0000).unwrap();
    emu.set_register_val(0, 0);
    emu.set_register_val(1, 0);

    emu.set_index_register(0x300);
    run(&mut emu, OpCode::Display(Some((0, 1, 1))));
    assert_eq!(emu.get_register_val(0xF), 0);
    emu.set_index_register(0x301);
    run(&mut emu, OpCode::Display(Some((0, 1, 1))));

    // pixel 1 was lit and is erased; pixel 0 stays, pixel 2 is new
    assert_eq!(emu.get_register_val(0xF), 1);
    assert!(emu.screen()[0]);
    assert!(!emu.screen()[1]);
    assert!(emu.screen()[2]);
    assert_eq!(emu.screen().iter().filter(|&&p| p).count(), 2);
}

#[test]
fn test_draw_empty_sprite_and_zero_rows() {
    let mut emu = Emu::new();
    emu.set_register_val(0xF, 7);
    emu.set_index_register(0xFFFF);

    // no row: nothing is read, nothing drawn, the flag is cleared
    run(&mut emu, OpCode::Display(Some((0, 1, 0))));
    assert_eq!(emu.get_register_val(0xF), 0);
    assert!(emu.screen().iter().all(|&p| !p));

    // a sprite of zero bytes drawn twice never collides
    emu.set_index_register(0x400);
    run(&mut emu, OpCode::Display(Some((0, 1, 3))));
    run(&mut emu, OpCode::Display(Some((0, 1, 3))));
    assert_eq!(emu.get_register_val(0xF), 0);
}

#[test]
fn test_draw_out_of_range() {
    let mut emu = Emu::new();
    emu.set_index_register(4094);

    assert_eq!(
        emu.execute_opcode(&OpCode::Display(Some((0, 1, 3)))),
        Err(OpCodeError::AddressOutOfRange)
    );
    assert!(emu.screen().iter().all(|&p| !p));
    assert_eq!(emu.execute_opcode(&OpCode::Display(Some((0, 1, 2)))), Ok(()));
}

#[test]
fn test_bcd_digits() {
    let mut emu = Emu::new();
    emu.set_index_register(0x300);

    for (value, digits) in [(123u8, [1u8, 2, 3]), (0, [0, 0, 0]), (255, [2, 5, 5]), (90, [0, 9, 0]), (7, [0, 0, 7])] {
        emu.set_register_val(4, value);
        run(&mut emu, OpCode::Bcd(4));
        assert_eq!(emu.memory()[0x300..0x303], digits);
    }
    assert_eq!(emu.index_register(), 0x300);

    emu.set_index_register(4094);
    assert_eq!(emu.execute_opcode(&OpCode::Bcd(4)), Err(OpCodeError::AddressOutOfRange));
    emu.set_index_register(4093);
    assert_eq!(emu.execute_opcode(&OpCode::Bcd(4)), Ok(()));
    assert_eq!(emu.memory()[4095], 7);
}

#[test]
fn test_wait_key_without_key_repeats() {
    let mut emu = machine_with(&[0xF5, 0x0A, 0x65, 0x07]);
    emu.set_register_val(5, 0xEE);

    for _ in 0..3 {
        assert_eq!(emu.step(), Ok(()));
        assert_eq!(emu.program_counter(), 0x200);
        assert_eq!(emu.get_register_val(5), 0xEE);
    }

    emu.press_key(0xB);
    emu.press_key(0x4);
    assert_eq!(emu.step(), Ok(()));
    // the lowest key that is down
    assert_eq!(emu.get_register_val(5), 0x4);
    assert_eq!(emu.program_counter(), 0x202);
}

#[test]
fn test_step_fetches_big_endian_and_advances() {
    let mut emu = machine_with(&[0x6A, 0xBC, 0xA1, 0x23]);

    assert_eq!(emu.step(), Ok(()));
    assert_eq!(emu.get_register_val(0xA), 0xBC);
    assert_eq!(emu.program_counter(), 0x202);
    assert_eq!(emu.step(), Ok(()));
    assert_eq!(emu.index_register(), 0x123);
    assert_eq!(emu.program_counter(), 0x204);
}

#[test]
fn test_step_reports_errors_behind_the_instruction() {
    // 0x0123: legacy call; 0x8128: no such operation; 0xE000: no pattern
    let mut emu = machine_with(&[0x01, 0x23, 0x81, 0x28, 0xE0, 0x00, 0x00, 0xEE]);

    assert_eq!(emu.step(), Err(OpCodeError::DeprecatedOpCode));
    assert_eq!(emu.program_counter(), 0x202);
    assert_eq!(emu.step(), Err(OpCodeError::InvalidOpCode));
    assert_eq!(emu.program_counter(), 0x204);
    assert_eq!(emu.step(), Err(OpCodeError::UnknownOpCode));
    assert_eq!(emu.program_counter(), 0x206);
    assert_eq!(emu.step(), Err(OpCodeError::StackUnderflow));
    assert_eq!(emu.program_counter(), 0x208);
    assert_eq!(emu.stack_pointer(), 0);
}

#[test]
fn test_all_zero_word_clears_the_screen() {
    // memory past the program is zero: the second cycle clears the screen
    let mut emu = machine_with(&[0xD0, 0x05]);
    emu.set_register_val(0xF, 7);

    assert_eq!(emu.step(), Ok(()));
    assert!(emu.screen().iter().any(|&p| p));
    assert_eq!(emu.get_register_val(0xF), 0);
    emu.set_register_val(0xF, 7);
    assert_eq!(emu.step(), Ok(()));

    assert!(emu.screen().iter().all(|&p| !p));
    assert_eq!(emu.program_counter(), 0x204);
    // clearing computes no collision
    assert_eq!(emu.get_register_val(0xF), 7);
}

#[test]
fn test_word_00e0_is_a_legacy_call() {
    let mut emu = machine_with(&[0x00, 0xE0]);
    emu.execute_opcode(&OpCode::Display(Some((0, 0, 5)))).unwrap();

    assert_eq!(emu.step(), Err(OpCodeError::DeprecatedOpCode));

    assert!(emu.screen().iter().any(|&p| p));
    assert_eq!(emu.program_counter(), 0x202);
}

#[test]
fn test_draw_taller_than_a_word_can_ask_for() {
    let mut emu = Emu::new();
    emu.set_index_register(0x300);
    emu.write_memory(0x300, 0b1000_0000).unwrap();
    emu.write_memory(0x300 + 32, 0b1100_0000).unwrap();
    let draw = OpCode::Display(Some((0, 1, 33)));

    // row 32 lands on row 0 again and erases the pixel that row 0 lit
    run(&mut emu, draw);
    assert_eq!(emu.get_register_val(0xF), 1);
    assert!(!emu.screen()[0]);
    assert!(emu.screen()[1]);
    assert_eq!(emu.screen().iter().filter(|&&p| p).count(), 1);

    run(&mut emu, draw);
    assert!(emu.screen().iter().all(|&p| !p));

    // 255 rows of one pixel each: no row meets a lit pixel on the first
    // draw but for those that wrap onto earlier rows
    emu.set_index_register(0x400);
    for row in 0..32 {
        emu.write_memory(0x400 + row, 0b1000_0000).unwrap();
    }
    run(&mut emu, OpCode::Display(Some((0, 1, 32))));
    assert_eq!(emu.get_register_val(0xF), 0);
    assert_eq!(emu.screen().iter().filter(|&&p| p).count(), 32);
    run(&mut emu, OpCode::Display(Some((0, 1, 32))));
    assert_eq!(emu.get_register_val(0xF), 1);
    assert!(emu.screen().iter().all(|&p| !p));

    emu.set_index_register(4096 - 254);
    assert_eq!(
        emu.execute_opcode(&OpCode::Display(Some((0, 1, 255)))),
        Err(OpCodeError::AddressOutOfRange)
    );
    assert_eq!(emu.execute_opcode(&OpCode::Display(Some((0, 1, 254)))), Ok(()));
}

#[test]
fn test_fetch_past_end_of_memory() {
    let mut emu = Emu::new();

    emu.set_program_counter(4095);
    assert_eq!(emu.fetch_opcode(), Err(OpCodeError::AddressOutOfRange));
    assert_eq!(emu.step(), Err(OpCodeError::AddressOutOfRange));
    assert_eq!(emu.program_counter(), 4095);

    emu.set_program_counter(0xFFFF);
    assert_eq!(emu.step(), Err(OpCodeError::AddressOutOfRange));
    assert_eq!(emu.program_counter(), 0xFFFF);

    emu.set_program_counter(4094);
    emu.write_memory(4094, 0x12).unwrap();
    emu.write_memory(4095, 0x34).unwrap();
    assert_eq!(emu.fetch_opcode(), Ok(OpCode::Flow(1, 0x234)));
    assert_eq!(emu.program_counter(), 4096);
}

#[test]
fn test_call_and_return() {
    let mut emu = Emu::new();
    emu.set_program_counter(0x20A);

    run(&mut emu, OpCode::Flow(2, 0x300));
    assert_eq!(emu.program_counter(), 0x300);
    assert_eq!(emu.stack_pointer(), 1);
    assert_eq!(emu.stack()[0], 0x20A);

    run(&mut emu, OpCode::Return);
    assert_eq!(emu.program_counter(), 0x20A);
    assert_eq!(emu.stack_pointer(), 0);
}

#[test]
fn test_seventeenth_call_overflows() {
    // 0x2200: call the address of the call itself
    let mut emu = machine_with(&[0x22, 0x00]);

    for depth in 1..=16 {
        assert_eq!(emu.step(), Ok(()));
        assert_eq!(emu.stack_pointer(), depth);
    }
    assert_eq!(emu.step(), Err(OpCodeError::StackOverflow));
    assert_eq!(emu.stack_pointer(), 16);
    assert_eq!(*emu.stack(), [0x202; 16]);
}

#[test]
fn test_jump_plus_v0_wraps() {
    let mut emu = Emu::new();
    emu.set_register_val(0, 0xFF);

    run(&mut emu, OpCode::Flow(11, 0xFFF));
    assert_eq!(emu.program_counter(), 0x10FE);
    // the out-of-range counter shows at the next fetch
    assert_eq!(emu.step(), Err(OpCodeError::AddressOutOfRange));

    run(&mut emu, OpCode::Flow(11, 0xFFFF));
    assert_eq!(emu.program_counter(), 0x00FE);
}

#[test]
fn test_skips_not_taken() {
    let mut emu = Emu::new();
    emu.set_register_val(0, 0x12);
    emu.set_register_val(1, 0x12);
    emu.set_register_val(2, 0x13);

    run(&mut emu, OpCode::SkipEquals((3, 0, 0x13)));
    run(&mut emu, OpCode::SkipEquals((4, 0, 0x12)));
    run(&mut emu, OpCode::SkipRegEquals((5, 0, 2)));
    run(&mut emu, OpCode::SkipRegEquals((9, 0, 1)));
    assert_eq!(emu.program_counter(), 0x200);

    run(&mut emu, OpCode::SkipEquals((3, 0, 0x12)));
    run(&mut emu, OpCode::SkipEquals((4, 0, 0x13)));
    run(&mut emu, OpCode::SkipRegEquals((5, 0, 1)));
    run(&mut emu, OpCode::SkipRegEquals((9, 0, 2)));
    assert_eq!(emu.program_counter(), 0x208);

    emu.set_program_counter(0xFFFF);
    run(&mut emu, OpCode::SkipEquals((3, 0, 0x12)));
    assert_eq!(emu.program_counter(), 0x0001);
}

#[test]
fn test_key_skips() {
    let mut emu = Emu::new();
    emu.set_register_val(0, 0x7);

    run(&mut emu, OpCode::KeyOpSkip(0x9E, 0));
    assert_eq!(emu.program_counter(), 0x200);
    run(&mut emu, OpCode::KeyOpSkip(0xA1, 0));
    assert_eq!(emu.program_counter(), 0x202);

    emu.press_key(0x7);
    run(&mut emu, OpCode::KeyOpSkip(0xA1, 0));
    assert_eq!(emu.program_counter(), 0x202);
    run(&mut emu, OpCode::KeyOpSkip(0x9E, 0));
    assert_eq!(emu.program_counter(), 0x204);

    emu.set_register_val(0, 16);
    assert_eq!(emu.execute_opcode(&OpCode::KeyOpSkip(0x9E, 0)), Err(OpCodeError::InvalidKey));
    assert_eq!(emu.execute_opcode(&OpCode::KeyOpSkip(0xA1, 0)), Err(OpCodeError::InvalidKey));
    assert_eq!(emu.program_counter(), 0x204);
}

#[test]
fn test_memory_store_and_load_leave_index() {
    let mut emu = Emu::new();
    for register in 0..16 {
        emu.set_register_val(register, 0xA0 + register);
    }
    emu.set_index_register(0x300);
    emu.write_memory(0x303, 0x77).unwrap();

    run(&mut emu, OpCode::MemoryOp((2, 55)));
    assert_eq!(emu.memory()[0x2FF..0x304], [0x00, 0xA0, 0xA1, 0xA2, 0x77]);
    assert_eq!(emu.index_register(), 0x300);

    emu.set_index_register(0x301);
    run(&mut emu, OpCode::MemoryOp((1, 65)));
    assert_eq!(emu.get_register_val(0), 0xA1);
    assert_eq!(emu.get_register_val(1), 0xA2);
    assert_eq!(emu.get_register_val(2), 0xA2);
    assert_eq!(emu.index_register(), 0x301);

    // V0..=VF to the last sixteen bytes of memory, and one byte too far
    emu.set_index_register(4080);
    run(&mut emu, OpCode::MemoryOp((0xF, 55)));
    assert_eq!(emu.memory()[4095], emu.get_register_val(0xF));
    emu.set_index_register(4081);
    assert_eq!(
        emu.execute_opcode(&OpCode::MemoryOp((0xF, 55))),
        Err(OpCodeError::AddressOutOfRange)
    );
    assert_eq!(
        emu.execute_opcode(&OpCode::MemoryOp((0xF, 65))),
        Err(OpCodeError::AddressOutOfRange)
    );
    assert_eq!(emu.execute_opcode(&OpCode::MemoryOp((0xE, 65))), Ok(()));
}

#[test]
fn test_memory_add_and_font() {
    let mut emu = Emu::new();
    emu.set_register_val(0xF, 3);
    emu.set_register_val(1, 0xFF);
    emu.set_index_register(0xFF01);

    run(&mut emu, OpCode::MemoryOp((1, 0x1E)));
    assert_eq!(emu.index_register(), 0x0000);
    assert_eq!(emu.get_register_val(0xF), 3);

    emu.set_register_val(1, 0xA);
    run(&mut emu, OpCode::MemoryOp((1, 29)));
    assert_eq!(emu.index_register(), 50);
    assert_eq!(emu.memory()[50..55], [0xF0, 0x90, 0xF0, 0x90, 0x90]);

    emu.set_register_val(1, 0xFF);
    run(&mut emu, OpCode::MemoryOp((1, 29)));
    assert_eq!(emu.index_register(), 1275);
}

#[test]
fn test_timer_instructions() {
    let mut emu = Emu::new();
    emu.set_register_val(2, 0x33);

    run(&mut emu, OpCode::Timer((2, 5)));
    assert_eq!(emu.get_delay_timer(), 0x33);
    assert_eq!(emu.get_sound_timer(), 0);
    emu.set_register_val(2, 0x44);
    run(&mut emu, OpCode::Timer((2, 8)));
    assert_eq!(emu.get_sound_timer(), 0x44);
    assert_eq!(emu.get_delay_timer(), 0x33);
    run(&mut emu, OpCode::Timer((3, 7)));
    assert_eq!(emu.get_register_val(3), 0x33);
}

#[test]
fn test_random_op_with_given_byte() {
    let mut emu = Emu::new();

    assert_eq!(emu.execute_random_op((4, 0x0F), 0xA5), Ok(()));
    assert_eq!(emu.get_register_val(4), 0x05);
    assert_eq!(emu.execute_random_op((4, 0xF0), 0xA5), Ok(()));
    assert_eq!(emu.get_register_val(4), 0xA0);
    assert_eq!(emu.execute_random_op((16, 0xF0), 0xA5), Err(OpCodeError::InvalidOpCode));
}

#[test]
fn test_random_op_is_masked() {
    let mut emu = Emu::new();
    emu.set_register_val(0xF, 0x5A);
    let mut seen = [false; 256];

    for _ in 0..400 {
        run(&mut emu, OpCode::RandomOp((1, 0x3C)));
        let value = emu.get_register_val(1);
        assert_eq!(value & !0x3C, 0);
        seen[value as usize] = true;
    }
    // sixteen values are possible; more than one of them came
    assert!(seen.iter().filter(|&&s| s).count() > 1);
    assert_eq!(emu.get_register_val(0xF), 0x5A);
    assert_eq!(emu.program_counter(), 0x200);
    run(&mut emu, OpCode::RandomOp((1, 0x00)));
    assert_eq!(emu.get_register_val(1), 0);
}

#[test]
fn test_invalid_opcodes_change_nothing() {
    let mut emu = Emu::new();
    emu.set_register_val(0, 1);
    let invalid = [
        OpCode::Nop,
        OpCode::SkipEquals((2, 0, 0)),
        OpCode::SkipEquals((3, 16, 0)),
        OpCode::SkipRegEquals((5, 0, 16)),
        OpCode::Constant((5, 0, 1)),
        OpCode::Constant((6, 16, 1)),
        OpCode::BitOp((0, 1, 8)),
        OpCode::BitOp((0, 1, 0xF)),
        OpCode::BitOp((16, 1, 0)),
        OpCode::BitOp((0, 16, 0)),
        OpCode::Flow(3, 0x300),
        OpCode::MemoryOp((0, 0x29)),
        OpCode::MemoryOp((16, 29)),
        OpCode::KeyOpSkip(0x9F, 0),
        OpCode::KeyOpSkip(0x9E, 16),
        OpCode::KeyOpWait(16),
        OpCode::Timer((0, 6)),
        OpCode::Timer((16, 7)),
        OpCode::RandomOp((16, 0xFF)),
        OpCode::Bcd(16),
        OpCode::Display(Some((16, 0, 1))),
        OpCode::Display(Some((0, 16, 1))),
    ];

    for opcode in invalid {
        assert_eq!(emu.execute_opcode(&opcode), Err(OpCodeError::InvalidOpCode));
    }

    assert_eq!(emu.program_counter(), 0x200);
    assert_eq!(emu.get_register_val(0), 1);
    assert_eq!(emu.index_register(), 0);
    assert_eq!(emu.stack_pointer(), 0);
    assert_eq!(emu.execute_opcode(&OpCode::Call(0x123)), Err(OpCodeError::DeprecatedOpCode));
    assert_eq!(emu.execute_opcode(&OpCode::Unknown), Err(OpCodeError::UnknownOpCode));
    // a comparison of registers may come in either skip variant
    assert_eq!(emu.execute_opcode(&OpCode::SkipEquals((9, 0, 1))), Ok(()));
    assert_eq!(emu.program_counter(), 0x202);
}

#[test]
fn test_error_messages() {
    assert_eq!(OpCodeError::InvalidOpCode.message(), "Invalid opcode");
    assert_eq!(OpCodeError::DeprecatedOpCode.message(), "Deprecated opcode");
    assert_eq!(OpCodeError::UnknownOpCode.message(), "Unknown opcode");
    assert_eq!(OpCodeError::StackOverflow.message(), "Stack overflow");
    assert_eq!(OpCodeError::StackUnderflow.message(), "Stack underflow");
    assert_eq!(OpCodeError::AddressOutOfRange.message(), "Address out of range");
    assert_eq!(OpCodeError::InvalidKey.message(), "Invalid key");
}
