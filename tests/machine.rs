use chip8_core::{decode, Chip8Error, Emu, Instruction, LOAD_ADDRESS, MEMORY_SIZE, SCREEN_WIDTH};

fn run(emu: &mut Emu, ops: &[u16]) {
    for &op in ops {
        assert_eq!(emu.execute_with_random(op, 0), Ok(()));
    }
}

fn lit_cells(emu: &Emu) -> Vec<usize> {
    let mut cells = Vec::new();
    for (i, &on) in emu.get_display().iter().enumerate() {
        if on {
            cells.push(i);
        }
    }
    cells
}

#[test]
fn new_machine_is_reset() {
    let emu = Emu::new();
    assert_eq!(emu.program_counter(), 0x200);
    assert_eq!(emu.index_register(), 0);
    assert_eq!(emu.stack_pointer(), 0);
    assert_eq!(emu.delay_timer(), 0);
    assert_eq!(emu.sound_timer(), 0);
    assert_eq!(emu.get_display().len(), 2048);
    assert!(emu.get_display().iter().all(|&p| !p));
    for x in 0..16 {
        assert_eq!(emu.register(x), 0);
    }
    assert_eq!(emu.memory(0), 0xF0);
    assert_eq!(emu.memory(5), 0x20);
    assert_eq!(emu.memory(79), 0x80);
    assert_eq!(emu.memory(80), 0);
    assert_eq!(emu.memory(MEMORY_SIZE - 1), 0);
}

#[test]
fn add_with_carry_sets_flag() {
    let mut emu = Emu::new();
    run(&mut emu, &[0x61FF, 0x6201, 0x8124]);
    assert_eq!(emu.register(1), 0);
    assert_eq!(emu.register(15), 1);
    run(&mut emu, &[0x6364, 0x6410, 0x8344]);
    assert_eq!(emu.register(3), 0x74);
    assert_eq!(emu.register(15), 0);
    run(&mut emu, &[0x6540, 0x8554]);
    assert_eq!(emu.register(5), 0x80);
    assert_eq!(emu.register(15), 0);
}

#[test]
fn add_exhaustive_small_grid() {
    for a in [0u8, 1, 100, 155, 156, 200, 255] {
        for b in [0u8, 1, 55, 100, 255] {
            let mut emu = Emu::new();
            run(&mut emu, &[0x6000 | a as u16, 0x6100 | b as u16, 0x8014]);
            let sum = a as u16 + b as u16;
            assert_eq!(emu.register(0) as u16, sum % 256);
            assert_eq!(emu.register(15), if sum > 255 { 1 } else { 0 });
        }
    }
}

#[test]
fn sub_sets_no_borrow_flag() {
    for a in [0u8, 1, 10, 128, 255] {
        for b in [0u8, 1, 10, 200, 255] {
            let mut emu = Emu::new();
            run(&mut emu, &[0x6000 | a as u16, 0x6100 | b as u16, 0x8015]);
            assert_eq!(emu.register(0), a.wrapping_sub(b));
            assert_eq!(emu.register(15), if a >= b { 1 } else { 0 });
        }
    }
}

#[test]
fn sub_reverse_and_shifts() {
    let mut emu = Emu::new();
    run(&mut emu, &[0x6005, 0x6103, 0x8017]);
    assert_eq!(emu.register(0), 0xFE);
    assert_eq!(emu.register(15), 0);
    run(&mut emu, &[0x6203, 0x8206]);
    assert_eq!(emu.register(2), 1);
    assert_eq!(emu.register(15), 1);
    run(&mut emu, &[0x6381, 0x830E]);
    assert_eq!(emu.register(3), 0x02);
    assert_eq!(emu.register(15), 1);
    run(&mut emu, &[0x6441, 0x840E]);
    assert_eq!(emu.register(4), 0x82);
    assert_eq!(emu.register(15), 0);
}

#[test]
fn logic_and_moves() {
    let mut emu = Emu::new();
    run(&mut emu, &[0x60F0, 0x613C, 0x8011]);
    assert_eq!(emu.register(0), 0xFC);
    run(&mut emu, &[0x60F0, 0x8012]);
    assert_eq!(emu.register(0), 0x30);
    run(&mut emu, &[0x60F0, 0x8013]);
    assert_eq!(emu.register(0), 0xCC);
    run(&mut emu, &[0x8210]);
    assert_eq!(emu.register(2), 0x3C);
    run(&mut emu, &[0x72F0]);
    assert_eq!(emu.register(2), 0x2C);
}

#[test]
fn clear_screen_blanks_display() {
    let mut emu = Emu::new();
    run(&mut emu, &[0xA000, 0x6005, 0x6107, 0xD015]);
    assert!(!lit_cells(&emu).is_empty());
    run(&mut emu, &[0x00E0]);
    assert_eq!(emu.get_display().len(), 2048);
    assert!(emu.get_display().iter().all(|&p| !p));
}

#[test]
fn draw_twice_restores_display() {
    let mut emu = Emu::new();
    run(&mut emu, &[0xA00A, 0x6010, 0x6108, 0xD015]);
    assert_eq!(emu.register(15), 0);
    let after_first = lit_cells(&emu);
    // glyph 2: 0xF0, 0x10, 0xF0, 0x80, 0xF0
    assert_eq!(after_first.len(), 4 + 1 + 4 + 1 + 4);
    assert!(after_first.contains(&(16 + SCREEN_WIDTH * 8)));
    run(&mut emu, &[0xD015]);
    assert_eq!(emu.register(15), 1);
    assert!(lit_cells(&emu).is_empty());
}

#[test]
fn draw_reports_collision_only_on_overlap() {
    let mut emu = Emu::new();
    // glyph 0 at (0, 0), then glyph 1 (0x20 top row) at (8, 0): no overlap
    run(&mut emu, &[0xA000, 0x6000, 0x6100, 0xD015, 0xA005, 0x6008, 0xD015]);
    assert_eq!(emu.register(15), 0);
    // glyph 1 at (0, 0) overlaps glyph 0 at column 2 of rows 0 and 4
    run(&mut emu, &[0x6000, 0xD015]);
    assert_eq!(emu.register(15), 1);
}

#[test]
fn sprite_wraps_at_edges() {
    let mut emu = Emu::new();
    let mut program = vec![0u8; 0x100];
    program[0x80] = 0xFF;
    program[0x81] = 0x81;
    assert_eq!(emu.load(&program), Ok(()));
    // I = 0x280, V0 = 63, V1 = 31, draw 8x1
    run(&mut emu, &[0xA280, 0x603F, 0x611F, 0xD011]);
    let mut expected = vec![63 + 64 * 31];
    for x in 0..7 {
        expected.push(x + 64 * 31);
    }
    expected.sort();
    assert_eq!(lit_cells(&emu), expected);
    // a second row wraps down to row 0
    run(&mut emu, &[0x00E0, 0xD012]);
    let lit = lit_cells(&emu);
    assert!(lit.contains(&63));
    assert!(lit.contains(&6));
    assert!(!lit.contains(&0));
    assert_eq!(lit.len(), 8 + 2);
}

#[test]
fn call_then_return_restores_pc() {
    let mut emu = Emu::new();
    let mut program = vec![0u8; 0x102];
    program[0] = 0x23;
    program[1] = 0x00;
    program[0x100] = 0x00;
    program[0x101] = 0xEE;
    assert_eq!(emu.load(&program), Ok(()));
    assert_eq!(emu.tick(), Ok(()));
    assert_eq!(emu.program_counter(), 0x300);
    assert_eq!(emu.stack_pointer(), 1);
    assert_eq!(emu.tick(), Ok(()));
    assert_eq!(emu.program_counter(), 0x202);
    assert_eq!(emu.stack_pointer(), 0);
}

#[test]
fn jumps_set_pc() {
    let mut emu = Emu::new();
    run(&mut emu, &[0x1ABC]);
    assert_eq!(emu.program_counter(), 0xABC);
    run(&mut emu, &[0x6010, 0xB100]);
    assert_eq!(emu.program_counter(), 0x110);
}

#[test]
fn stack_errors() {
    let mut emu = Emu::new();
    assert_eq!(emu.execute_with_random(0x00EE, 0), Err(Chip8Error::StackUnderflow));
    assert_eq!(emu.program_counter(), 0x200);
    for _ in 0..16 {
        assert_eq!(emu.execute_with_random(0x2400, 0), Ok(()));
    }
    assert_eq!(emu.stack_pointer(), 16);
    assert_eq!(emu.execute_with_random(0x2400, 0), Err(Chip8Error::StackOverflow));
    assert_eq!(emu.stack_pointer(), 16);
}

#[test]
fn unknown_opcodes_are_errors() {
    let mut emu = Emu::new();
    for op in [0x0123u16, 0x5121, 0x8008, 0x9121, 0xE1FF, 0xF1FF, 0xF117] {
        assert_eq!(emu.execute_with_random(op, 0), Err(Chip8Error::UnknownOpcode(op)));
    }
    assert_eq!(emu.execute_with_random(0x0000, 0), Ok(()));
}

#[test]
fn tick_reports_unknown_opcode_after_fetch() {
    let mut emu = Emu::new();
    assert_eq!(emu.load(&[0xFF, 0xFF]), Ok(()));
    assert_eq!(emu.tick(), Err(Chip8Error::UnknownOpcode(0xFFFF)));
    assert_eq!(emu.program_counter(), 0x202);
}

#[test]
fn skips() {
    let mut emu = Emu::new();
    run(&mut emu, &[0x6005, 0x6105]);
    let pc = emu.program_counter();
    run(&mut emu, &[0x3005]);
    assert_eq!(emu.program_counter(), pc + 2);
    run(&mut emu, &[0x3006, 0x4005]);
    assert_eq!(emu.program_counter(), pc + 2);
    run(&mut emu, &[0x4006]);
    assert_eq!(emu.program_counter(), pc + 4);
    run(&mut emu, &[0x5010]);
    assert_eq!(emu.program_counter(), pc + 6);
    run(&mut emu, &[0x9010]);
    assert_eq!(emu.program_counter(), pc + 6);
    run(&mut emu, &[0x6106, 0x9010]);
    assert_eq!(emu.program_counter(), pc + 8);
}

#[test]
fn key_skips() {
    let mut emu = Emu::new();
    run(&mut emu, &[0x6007]);
    let pc = emu.program_counter();
    run(&mut emu, &[0xE09E]);
    assert_eq!(emu.program_counter(), pc);
    run(&mut emu, &[0xE0A1]);
    assert_eq!(emu.program_counter(), pc + 2);
    emu.keypress(7, true);
    run(&mut emu, &[0xE09E]);
    assert_eq!(emu.program_counter(), pc + 4);
    run(&mut emu, &[0xE0A1]);
    assert_eq!(emu.program_counter(), pc + 4);
    // a key index past the keypad is never down
    run(&mut emu, &[0x6017, 0xE19E]);
    assert_eq!(emu.program_counter(), pc + 4);
}

#[test]
fn bcd_of_157() {
    let mut emu = Emu::new();
    run(&mut emu, &[0x639D, 0xA300, 0xF333]);
    assert_eq!(emu.memory(0x300), 1);
    assert_eq!(emu.memory(0x301), 5);
    assert_eq!(emu.memory(0x302), 7);
}

#[test]
fn bcd_wraps_around_memory_end() {
    let mut emu = Emu::new();
    run(&mut emu, &[0x60FF, 0xAFFF, 0xF033]);
    assert_eq!(emu.memory(0xFFF), 2);
    assert_eq!(emu.memory(0x000), 5);
    assert_eq!(emu.memory(0x001), 5);
}

#[test]
fn register_dump_and_load() {
    let mut emu = Emu::new();
    run(&mut emu, &[0x6011, 0x6122, 0x6233, 0x6344, 0xA400, 0xF255]);
    assert_eq!(emu.memory(0x400), 0x11);
    assert_eq!(emu.memory(0x401), 0x22);
    assert_eq!(emu.memory(0x402), 0x33);
    assert_eq!(emu.memory(0x403), 0);
    run(&mut emu, &[0x6000, 0x6100, 0x6200, 0x6399, 0xF265]);
    assert_eq!(emu.register(0), 0x11);
    assert_eq!(emu.register(1), 0x22);
    assert_eq!(emu.register(2), 0x33);
    assert_eq!(emu.register(3), 0x99);
    assert_eq!(emu.index_register(), 0x400);
}

#[test]
fn index_register_ops() {
    let mut emu = Emu::new();
    run(&mut emu, &[0x620A, 0xF229]);
    assert_eq!(emu.index_register(), 50);
    run(&mut emu, &[0xAFFF, 0x6310, 0xF31E]);
    assert_eq!(emu.index_register(), 0x100F);
}

#[test]
fn timers_set_and_read() {
    let mut emu = Emu::new();
    run(&mut emu, &[0x6403, 0xF415, 0xF418]);
    assert_eq!(emu.delay_timer(), 3);
    assert_eq!(emu.sound_timer(), 3);
    assert!(!emu.tick_timers());
    run(&mut emu, &[0xF507]);
    assert_eq!(emu.register(5), 2);
}

#[test]
fn sound_timer_beeps_once() {
    let mut emu = Emu::new();
    run(&mut emu, &[0x6001, 0xF018]);
    assert!(emu.tick_timers());
    assert_eq!(emu.sound_timer(), 0);
    for _ in 0..5 {
        assert!(!emu.tick_timers());
    }
    let mut silent = Emu::new();
    for _ in 0..5 {
        assert!(!silent.tick_timers());
        assert_eq!(silent.sound_timer(), 0);
    }
}

#[test]
fn load_size_limit() {
    let mut emu = Emu::new();
    let largest = vec![0xAAu8; MEMORY_SIZE - LOAD_ADDRESS as usize];
    assert_eq!(emu.load(&largest), Ok(()));
    assert_eq!(emu.memory(0x200), 0xAA);
    assert_eq!(emu.memory(MEMORY_SIZE - 1), 0xAA);
    assert_eq!(emu.memory(0x1FF), 0);
    let mut fresh = Emu::new();
    let too_large = vec![0xAAu8; MEMORY_SIZE - LOAD_ADDRESS as usize + 1];
    assert_eq!(fresh.load(&too_large), Err(Chip8Error::ProgramTooLarge(3585)));
    assert_eq!(fresh.memory(0x200), 0);
}

#[test]
fn wait_key_blocks_until_pressed() {
    let mut emu = Emu::new();
    assert_eq!(emu.load(&[0xF5, 0x0A, 0x00, 0x00]), Ok(()));
    for _ in 0..4 {
        assert_eq!(emu.tick(), Ok(()));
        assert_eq!(emu.program_counter(), 0x200);
    }
    emu.keypress(0xB, true);
    emu.keypress(0xD, true);
    assert_eq!(emu.tick(), Ok(()));
    assert_eq!(emu.register(5), 0xB);
    assert_eq!(emu.program_counter(), 0x202);
}

#[test]
fn random_is_masked() {
    let mut emu = Emu::new();
    assert_eq!(emu.execute_with_random(0xC30F, 0xAB), Ok(()));
    assert_eq!(emu.register(3), 0x0B);
    assert_eq!(emu.execute(0xC400), Ok(()));
    assert_eq!(emu.register(4), 0);
    for _ in 0..20 {
        assert_eq!(emu.execute(0xC507), Ok(()));
        assert!(emu.register(5) <= 7);
    }
}

#[test]
fn decode_patterns() {
    assert_eq!(decode(0x0000), Some(Instruction::Nop));
    assert_eq!(decode(0x00E0), Some(Instruction::ClearScreen));
    assert_eq!(decode(0x00EE), Some(Instruction::Return));
    assert_eq!(decode(0x1234), Some(Instruction::Jump { addr: 0x234 }));
    assert_eq!(decode(0x8AB4), Some(Instruction::AddReg { x: 0xA, y: 0xB }));
    assert_eq!(decode(0xD12F), Some(Instruction::Draw { x: 1, y: 2, n: 0xF }));
    assert_eq!(decode(0xF733), Some(Instruction::StoreBcd { x: 7 }));
    assert_eq!(decode(0xE3A1), Some(Instruction::SkipIfNotKey { x: 3 }));
    assert_eq!(decode(0x8AB8), None);
    assert_eq!(decode(0x5AB1), None);
}
