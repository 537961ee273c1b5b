use chip8::{Chip8, Chip8Error, ExecState, Signal};

fn machine_with(program: &[u8]) -> Chip8 {
    let mut chip8 = Chip8::init();
    assert_eq!(chip8.load_rom(program), Ok(()));
    chip8
}

fn lit_cells(chip8: &Chip8) -> Vec<(usize, usize)> {
    let mut lit = Vec::new();
    for (index, &cell) in chip8.display_snapshot().iter().enumerate() {
        assert!(cell <= 1);
        if cell == 1 {
            lit.push((index % 64, index / 64));
        }
    }
    lit
}

#[test]
fn step_loads_an_immediate() {
    let mut chip8 = machine_with(&[0x60, 0xAB]);
    assert_eq!(chip8.cycle(), Ok(Signal::Continue));
    assert_eq!(chip8.registers[0], 0xAB);
    assert_eq!(chip8.pc, 0x202);
}

#[test]
fn step_adds_an_immediate_and_wraps() {
    let mut chip8 = machine_with(&[0x70, 0x05]);
    chip8.registers[0] = 0xFE;
    assert_eq!(chip8.cycle(), Ok(Signal::Continue));
    assert_eq!(chip8.registers[0], 0x03);
    assert_eq!(chip8.registers[0xF], 0);
    assert_eq!(chip8.pc, 0x202);
}

#[test]
fn endless_recursion_overflows_the_stack() {
    let mut chip8 = machine_with(&[0x22, 0x00, 0x00, 0xEE]);
    for depth in 1..=16u8 {
        assert_eq!(chip8.cycle(), Ok(Signal::Continue));
        assert_eq!(chip8.pc, 0x200);
        assert_eq!(chip8.sp, depth);
        assert_eq!(chip8.stack[depth as usize - 1], 0x202);
    }
    let full = chip8.clone();
    assert_eq!(chip8.cycle(), Err(Chip8Error::StackOverflow));
    assert_eq!(chip8, full);
    assert_eq!(chip8.sp, 16);
    assert_eq!(chip8.pc, 0x200);
    assert_eq!(chip8.stack, [0x202; 16]);
    assert_eq!(chip8.cycle(), Err(Chip8Error::StackOverflow));
}

#[test]
fn drawing_a_sprite_twice_erases_it() {
    // V0 = 0, V1 = 0, I = 0x20A, draw 1 row, draw 1 row, sprite byte.
    let mut chip8 =
        machine_with(&[0x60, 0x00, 0x61, 0x00, 0xA2, 0x0A, 0xD0, 0x11, 0xD0, 0x11, 0xFF]);
    for _ in 0..4 {
        assert_eq!(chip8.cycle(), Ok(Signal::Continue));
    }
    assert_eq!(lit_cells(&chip8), (0..8).map(|x| (x, 0)).collect::<Vec<_>>());
    assert_eq!(chip8.registers[0xF], 0);
    assert_eq!(chip8.pc, 0x208);

    assert_eq!(chip8.cycle(), Ok(Signal::Continue));
    assert_eq!(lit_cells(&chip8), Vec::new());
    assert_eq!(chip8.screen, [0; 2048]);
    assert_eq!(chip8.registers[0xF], 1);
    assert_eq!(chip8.pc, 0x20A);
}

#[test]
fn key_wait_holds_the_program_counter_until_a_key_goes_down() {
    let mut chip8 = machine_with(&[0xF3, 0x0A]);
    for _ in 0..10 {
        assert_eq!(chip8.cycle(), Ok(Signal::AwaitKey));
        assert_eq!(chip8.pc, 0x200);
        assert_eq!(chip8.state, ExecState::WaitingForKey);
        assert!(chip8.is_waiting_for_key());
        assert_eq!(chip8.registers, [0; 16]);
    }
    chip8.set_key_state(5, true);
    assert_eq!(chip8.cycle(), Ok(Signal::Continue));
    assert_eq!(chip8.registers[3], 5);
    assert_eq!(chip8.pc, 0x202);
    assert_eq!(chip8.state, ExecState::Running);
    assert!(!chip8.is_waiting_for_key());
}

#[test]
fn key_wait_ignores_a_key_that_was_already_down() {
    let mut chip8 = machine_with(&[0xF0, 0x0A]);
    chip8.set_key_state(7, true);
    for _ in 0..5 {
        assert_eq!(chip8.cycle(), Ok(Signal::AwaitKey));
        assert_eq!(chip8.pc, 0x200);
    }
    // Another key goes down: that one is taken.
    chip8.set_key_state(9, true);
    assert_eq!(chip8.cycle(), Ok(Signal::Continue));
    assert_eq!(chip8.registers[0], 9);
    assert_eq!(chip8.pc, 0x202);
}

#[test]
fn key_wait_takes_a_key_released_and_pressed_again() {
    let mut chip8 = machine_with(&[0xF0, 0x0A]);
    chip8.set_key_state(7, true);
    assert_eq!(chip8.cycle(), Ok(Signal::AwaitKey));
    chip8.set_key_state(7, false);
    assert_eq!(chip8.cycle(), Ok(Signal::AwaitKey));
    chip8.set_key_state(7, true);
    assert_eq!(chip8.cycle(), Ok(Signal::Continue));
    assert_eq!(chip8.registers[0], 7);
    assert_eq!(chip8.pc, 0x202);
}

#[test]
fn key_wait_takes_the_lowest_of_several_keys() {
    let mut chip8 = machine_with(&[0xFE, 0x0A]);
    assert_eq!(chip8.cycle(), Ok(Signal::AwaitKey));
    chip8.set_key_state(12, true);
    chip8.set_key_state(4, true);
    assert_eq!(chip8.cycle(), Ok(Signal::Continue));
    assert_eq!(chip8.registers[0xE], 4);
}

#[test]
fn key_wait_does_not_stop_the_timers() {
    let mut chip8 = machine_with(&[0xF0, 0x0A]);
    chip8.delay_timer = 2;
    assert_eq!(chip8.cycle(), Ok(Signal::AwaitKey));
    chip8.tick_timers();
    assert_eq!(chip8.delay_timer, 1);
    assert_eq!(chip8.cycle(), Ok(Signal::AwaitKey));
    assert_eq!(chip8.delay_timer, 1);
}

#[test]
fn jump_does_not_depend_on_the_program_counter() {
    for start in [0x200u16, 0x202, 0x300, 0xFFE] {
        for target in [0x000u16, 0x200, 0x234, 0xFFF] {
            let mut chip8 = Chip8::init();
            chip8.pc = start;
            chip8.memory[start as usize] = 0x10 | (target >> 8) as u8;
            chip8.memory[start as usize + 1] = (target & 0xFF) as u8;
            assert_eq!(chip8.cycle(), Ok(Signal::Continue));
            assert_eq!(chip8.pc, target);
            assert_eq!(chip8.sp, 0);
        }
    }
}

#[test]
fn call_then_return_comes_back_behind_the_call() {
    // 0x200: call 0x300; 0x300: return.
    let mut chip8 = machine_with(&[0x23, 0x00]);
    chip8.memory[0x300] = 0x00;
    chip8.memory[0x301] = 0xEE;
    assert_eq!(chip8.cycle(), Ok(Signal::Continue));
    assert_eq!(chip8.pc, 0x300);
    assert_eq!(chip8.sp, 1);
    assert_eq!(chip8.stack[0], 0x202);
    assert_eq!(chip8.cycle(), Ok(Signal::Continue));
    assert_eq!(chip8.pc, 0x202);
    assert_eq!(chip8.sp, 0);
}

#[test]
fn nested_calls_return_in_reverse_order() {
    let mut chip8 = Chip8::init();
    chip8.sp = 3;
    chip8.pc = 0x400;
    assert_eq!(chip8.call_subroutine(0x500), Ok(()));
    assert_eq!((chip8.pc, chip8.sp), (0x500, 4));
    assert_eq!(chip8.call_subroutine(0x600), Ok(()));
    assert_eq!((chip8.pc, chip8.sp), (0x600, 5));
    assert_eq!(chip8.return_from_subroutine(), Ok(()));
    assert_eq!((chip8.pc, chip8.sp), (0x500, 4));
    assert_eq!(chip8.return_from_subroutine(), Ok(()));
    assert_eq!((chip8.pc, chip8.sp), (0x400, 3));
}

#[test]
fn return_on_an_empty_stack_underflows() {
    let mut chip8 = machine_with(&[0x00, 0xEE]);
    let before = chip8.clone();
    assert_eq!(chip8.cycle(), Err(Chip8Error::StackUnderflow));
    assert_eq!(chip8, before);
    assert_eq!(chip8.return_from_subroutine(), Err(Chip8Error::StackUnderflow));
    assert_eq!(chip8, before);
}

#[test]
fn clear_screen_blanks_any_display() {
    let mut chip8 = machine_with(&[0x00, 0xE0]);
    for (index, cell) in chip8.screen.iter_mut().enumerate() {
        *cell = (index % 3 == 0) as u8;
    }
    assert_eq!(chip8.cycle(), Ok(Signal::Continue));
    assert_eq!(chip8.screen, [0; 64 * 32]);
    assert_eq!(chip8.pc, 0x202);

    let mut full = Chip8::init();
    full.screen = [1; 2048];
    full.clear_screen();
    assert_eq!(full.screen, [0; 2048]);
}

#[test]
fn unknown_word_is_stepped_over_by_default() {
    let mut chip8 = machine_with(&[0x5A, 0xB1, 0x60, 0x07]);
    let before = chip8.clone();
    assert_eq!(chip8.cycle(), Ok(Signal::Skipped(0x5AB1)));
    assert_eq!(chip8.pc, 0x202);
    let mut expected = before;
    expected.pc = 0x202;
    assert_eq!(chip8, expected);
    // The machine runs on.
    assert_eq!(chip8.cycle(), Ok(Signal::Continue));
    assert_eq!(chip8.registers[0], 0x07);
    assert_eq!(chip8.pc, 0x204);
}

#[test]
fn empty_memory_is_stepped_over_by_default() {
    let mut chip8 = Chip8::init();
    for step in 1..=5u16 {
        assert_eq!(chip8.cycle(), Ok(Signal::Skipped(0x0000)));
        assert_eq!(chip8.pc, 0x200 + 2 * step);
    }
}

#[test]
fn unknown_word_stops_a_strict_machine() {
    let mut chip8 = machine_with(&[0x5A, 0xB1]);
    chip8.set_strict(true);
    assert!(chip8.strict);
    let before = chip8.clone();
    assert_eq!(chip8.cycle(), Err(Chip8Error::UnknownOpcode(0x5AB1)));
    assert_eq!(chip8, before);
    assert_eq!(chip8.cycle(), Err(Chip8Error::UnknownOpcode(0x5AB1)));
    chip8.set_strict(false);
    assert_eq!(chip8.cycle(), Ok(Signal::Skipped(0x5AB1)));
    assert_eq!(chip8.pc, 0x202);
}

#[test]
fn exit_word_signals_halt() {
    let mut chip8 = machine_with(&[0x00, 0xDF]);
    let before = chip8.clone();
    assert_eq!(chip8.cycle(), Ok(Signal::Halt));
    let mut expected = before;
    expected.pc = 0x202;
    assert_eq!(chip8, expected);
}

#[test]
fn running_off_the_end_of_memory_faults() {
    let mut chip8 = Chip8::init();
    chip8.pc = 4094;
    chip8.memory[4094] = 0x60;
    chip8.memory[4095] = 0x11;
    assert_eq!(chip8.cycle(), Ok(Signal::Continue));
    assert_eq!(chip8.pc, 4096);
    assert_eq!(chip8.registers[0], 0x11);
    assert_eq!(chip8.cycle(), Err(Chip8Error::MemoryFault));
    assert_eq!(chip8.pc, 4096);
}

#[test]
fn counting_loop_runs_to_its_end() {
    // V0 = 0; loop: V0 += 1; skip if V0 == 10; jump loop; exit.
    let mut chip8 = machine_with(&[0x60, 0x00, 0x70, 0x01, 0x30, 0x0A, 0x12, 0x02, 0x00, 0xDF]);
    let mut steps = 0;
    loop {
        steps += 1;
        match chip8.cycle() {
            Ok(Signal::Continue) => {}
            Ok(Signal::Halt) => break,
            other => panic!("step {} gave {:?}", steps, other),
        }
    }
    assert_eq!(chip8.registers[0], 10);
    assert_eq!(steps, 1 + 3 * 10 - 1 + 1);
    assert_eq!(chip8.pc, 0x20A);
}
