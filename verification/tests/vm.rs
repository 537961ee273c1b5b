use chip8::font::font_table;
use chip8::{Chip8, Chip8Error, ExecState, Signal};

#[test]
fn can_init_chip8() {
    let chip8 = Chip8::init();

    let mut memory = [0; 4096];
    memory[0x050..0x0A0].copy_from_slice(&font_table());
    assert_eq!(chip8.memory, memory);
    assert_eq!(chip8.pc, 0x200);
    assert_eq!(chip8.screen, [0; 64 * 32]);
    assert_eq!(chip8.stack, [0; 16]);
    assert_eq!(chip8.sp, 0);
}

#[test]
fn can_fetch_opcode() {
    let mut chip8 = Chip8::init();
    chip8.memory[0x200] = 0xAB;
    chip8.memory[0x201] = 0xCD;

    assert_eq!(chip8.fetch(), Ok(0xABCD));
}

#[test]
fn can_jump_to_address() {
    let mut chip8 = Chip8::init();
    chip8.jump_to_address(0x1234);

    assert_eq!(chip8.pc, 0x1234);
}

#[test]
fn can_return_from_subroutine() {
    let mut chip8 = Chip8::init();
    chip8.stack[0] = 0x1234;
    chip8.sp = 1;

    assert_eq!(chip8.return_from_subroutine(), Ok(()));

    assert_eq!(chip8.pc, 0x1234);
    assert_eq!(chip8.sp, 0);
}

#[test]
fn can_clear_screen() {
    let mut chip8 = Chip8::init();
    chip8.screen[0] = 1;

    chip8.clear_screen();

    assert_eq!(chip8.screen, [0; 64 * 32]);
}

#[test]
fn can_load_rom() {
    let mut chip8 = Chip8::init();
    let rom = [0xAB, 0xCD, 0xEF];

    assert_eq!(chip8.load_rom(&rom), Ok(()));

    assert_eq!(chip8.memory[0x200], 0xAB);
    assert_eq!(chip8.memory[0x201], 0xCD);
    assert_eq!(chip8.memory[0x202], 0xEF);
}

#[test]
fn can_cycle() {
    let mut chip8 = Chip8::init();
    chip8.memory[0x200] = 0x12;
    chip8.memory[0x201] = 0x34;

    assert_eq!(chip8.cycle(), Ok(Signal::Continue));

    assert_eq!(chip8.pc, 0x234);
}

#[test]
fn can_set_index_register() {
    let mut chip8 = Chip8::init();
    chip8.set_index_register(0x1234);

    assert_eq!(chip8.i, 0x1234);
}

#[test]
fn can_set_register() {
    let mut chip8 = Chip8::init();
    chip8.set_register(0x5, 0xAB);
    assert_eq!(chip8.registers[0x5], 0xAB);
}

#[test]
fn can_add_to_register() {
    let mut chip8 = Chip8::init();
    chip8.registers[0x3] = 0x10;
    chip8.add_to_register(0x3, 0x05);
    assert_eq!(chip8.registers[0x3], 0x15);
}

#[test]
fn can_set_register_to_register() {
    let mut chip8 = Chip8::init();
    chip8.registers[0x2] = 0xCD;
    chip8.set_register_to_register(0x4, 0x2);
    assert_eq!(chip8.registers[0x4], 0xCD);
}

#[test]
fn can_add_registers() {
    let mut chip8 = Chip8::init();
    chip8.registers[0x1] = 0x50;
    chip8.registers[0x2] = 0x30;
    chip8.add_registers(0x1, 0x2);
    assert_eq!(chip8.registers[0x1], 0x80);
    assert_eq!(chip8.registers[0xF], 0);

    chip8.registers[0x1] = 0xFF;
    chip8.registers[0x2] = 0x01;
    chip8.add_registers(0x1, 0x2);
    assert_eq!(chip8.registers[0x1], 0x00);
    assert_eq!(chip8.registers[0xF], 1);
}

#[test]
fn init_is_running_lenient_and_silent() {
    let chip8 = Chip8::init();
    assert_eq!(chip8.state, ExecState::Running);
    assert!(!chip8.is_waiting_for_key());
    assert!(!chip8.strict);
    assert_eq!(chip8.i, 0);
    assert_eq!(chip8.registers, [0; 16]);
    assert_eq!(chip8.delay_timer, 0);
    assert_eq!(chip8.sound_timer, 0);
    assert!(!chip8.sound_active());
    assert_eq!(chip8.keys, [false; 16]);
}

#[test]
fn init_places_the_font() {
    let chip8 = Chip8::init();
    assert_eq!(chip8.memory[0x04F], 0);
    assert_eq!(chip8.memory[0x050..0x055], [0xF0, 0x90, 0x90, 0x90, 0xF0]);
    assert_eq!(chip8.memory[0x055..0x05A], [0x20, 0x60, 0x20, 0x20, 0x70]);
    assert_eq!(chip8.memory[0x09B..0x0A0], [0xF0, 0x80, 0xF0, 0x80, 0x80]);
    assert_eq!(chip8.memory[0x0A0], 0);
}

#[test]
fn machines_are_independent() {
    let mut first = Chip8::init();
    let second = Chip8::init();
    first.set_register(0, 7);
    first.jump_to_address(0x300);
    assert_eq!(second.registers[0], 0);
    assert_eq!(second.pc, 0x200);
    assert_eq!(second, Chip8::init());
}

#[test]
fn load_rom_keeps_everything_else() {
    let mut chip8 = Chip8::init();
    let before = chip8.clone();
    assert_eq!(chip8.load_rom(&[1, 2, 3, 4]), Ok(()));
    assert_eq!(chip8.memory[..0x200], before.memory[..0x200]);
    assert_eq!(chip8.memory[0x200..0x204], [1, 2, 3, 4]);
    assert_eq!(chip8.memory[0x204..], before.memory[0x204..]);
    assert_eq!(chip8.pc, 0x200);
    assert_eq!(chip8.registers, before.registers);
}

#[test]
fn load_rom_accepts_an_empty_program() {
    let mut chip8 = Chip8::init();
    assert_eq!(chip8.load_rom(&[]), Ok(()));
    assert_eq!(chip8, Chip8::init());
}

#[test]
fn load_rom_fills_memory_to_the_end() {
    let mut chip8 = Chip8::init();
    let rom = vec![0x5A; 4096 - 0x200];
    assert_eq!(chip8.load_rom(&rom), Ok(()));
    assert_eq!(chip8.memory[0x200], 0x5A);
    assert_eq!(chip8.memory[4095], 0x5A);
    assert_eq!(chip8.memory[0x1FF], 0);
}

#[test]
fn load_rom_rejects_one_byte_too_many() {
    let mut chip8 = Chip8::init();
    let rom = vec![0x5A; 4096 - 0x200 + 1];
    assert_eq!(chip8.load_rom(&rom), Err(Chip8Error::RomTooLarge));
    assert_eq!(chip8, Chip8::init());
}

#[test]
fn fetch_reads_the_last_word_of_memory() {
    let mut chip8 = Chip8::init();
    chip8.memory[4094] = 0x12;
    chip8.memory[4095] = 0x34;
    chip8.pc = 4094;
    assert_eq!(chip8.fetch(), Ok(0x1234));
}

#[test]
fn fetch_faults_past_the_last_word() {
    let mut chip8 = Chip8::init();
    chip8.pc = 4095;
    assert_eq!(chip8.fetch(), Err(Chip8Error::MemoryFault));
    chip8.pc = 4096;
    assert_eq!(chip8.fetch(), Err(Chip8Error::MemoryFault));
    chip8.pc = 0xFFFF;
    assert_eq!(chip8.fetch(), Err(Chip8Error::MemoryFault));
}

#[test]
fn cycle_faults_when_the_program_counter_leaves_memory() {
    let mut chip8 = Chip8::init();
    chip8.pc = 4095;
    let before = chip8.clone();
    assert_eq!(chip8.cycle(), Err(Chip8Error::MemoryFault));
    assert_eq!(chip8, before);
}

#[test]
fn timers_count_down_and_stop_at_zero() {
    let mut chip8 = Chip8::init();
    chip8.delay_timer = 3;
    chip8.sound_timer = 1;
    assert!(chip8.sound_active());
    chip8.tick_timers();
    assert_eq!(chip8.delay_timer, 2);
    assert_eq!(chip8.sound_timer, 0);
    assert!(!chip8.sound_active());
    chip8.tick_timers();
    chip8.tick_timers();
    assert_eq!(chip8.delay_timer, 0);
    for _ in 0..1000 {
        chip8.tick_timers();
        assert_eq!(chip8.delay_timer, 0);
        assert_eq!(chip8.sound_timer, 0);
    }
}

#[test]
fn timers_count_down_from_the_top() {
    let mut chip8 = Chip8::init();
    chip8.delay_timer = 255;
    chip8.sound_timer = 255;
    for n in 1..=300u32 {
        chip8.tick_timers();
        let expected = if n >= 255 { 0 } else { (255 - n) as u8 };
        assert_eq!(chip8.delay_timer, expected);
        assert_eq!(chip8.sound_timer, expected);
    }
}

#[test]
fn instructions_do_not_count_timers_down() {
    let mut chip8 = Chip8::init();
    chip8.delay_timer = 9;
    chip8.sound_timer = 4;
    assert_eq!(chip8.load_rom(&[0x60, 0x01, 0x70, 0x01, 0x12, 0x00]), Ok(()));
    for _ in 0..30 {
        assert_eq!(chip8.cycle(), Ok(Signal::Continue));
    }
    assert_eq!(chip8.delay_timer, 9);
    assert_eq!(chip8.sound_timer, 4);
}

#[test]
fn set_key_state_writes_one_key() {
    let mut chip8 = Chip8::init();
    chip8.set_key_state(5, true);
    chip8.set_key_state(15, true);
    let mut expected = [false; 16];
    expected[5] = true;
    expected[15] = true;
    assert_eq!(chip8.keys, expected);
    chip8.set_key_state(5, false);
    expected[5] = false;
    assert_eq!(chip8.keys, expected);
}

#[test]
fn display_snapshot_shows_the_screen() {
    let mut chip8 = Chip8::init();
    assert_eq!(chip8.display_snapshot(), &[0; 2048]);
    chip8.screen[64 * 3 + 7] = 1;
    assert_eq!(chip8.display_snapshot()[64 * 3 + 7], 1);
    assert_eq!(chip8.display_snapshot().iter().filter(|&&cell| cell == 1).count(), 1);
}

#[test]
fn register_reads_what_was_written() {
    let mut chip8 = Chip8::init();
    for register in 0..16u16 {
        for value in 0..=255u8 {
            chip8.set_register(register, value);
            assert_eq!(chip8.register(register), value);
        }
    }
}

#[test]
fn register_write_leaves_the_others() {
    let mut chip8 = Chip8::init();
    for register in 0..16u16 {
        chip8.set_register(register, 0x10 + register as u8);
    }
    chip8.set_register(7, 0xEE);
    for register in 0..16u16 {
        let expected = if register == 7 { 0xEE } else { 0x10 + register as u8 };
        assert_eq!(chip8.register(register), expected);
    }
}
