use chip8::keypad::find_new_key;
use chip8::opcode::{address, decode, family, immediate, register_x, register_y, selector, word};
use chip8::Instruction;

#[test]
fn word_is_big_endian() {
    assert_eq!(word(0xAB, 0xCD), 0xABCD);
    assert_eq!(word(0x00, 0xFF), 0x00FF);
    assert_eq!(word(0xFF, 0x00), 0xFF00);
    assert_eq!(word(0x00, 0x00), 0x0000);
    assert_eq!(word(0xFF, 0xFF), 0xFFFF);
}

#[test]
fn fields_of_a_word() {
    assert_eq!(family(0xABCD), 0xA);
    assert_eq!(address(0xABCD), 0xBCD);
    assert_eq!(register_x(0xABCD), 0xB);
    assert_eq!(register_y(0xABCD), 0xC);
    assert_eq!(immediate(0xABCD), 0xCD);
    assert_eq!(selector(0xABCD), 0xD);
}

#[test]
fn fields_of_every_word() {
    for opcode in 0..=0xFFFFu16 {
        assert_eq!(family(opcode), opcode / 0x1000);
        assert_eq!(address(opcode), opcode % 0x1000);
        assert_eq!(register_x(opcode), (opcode / 0x100) % 0x10);
        assert_eq!(register_y(opcode), (opcode / 0x10) % 0x10);
        assert_eq!(immediate(opcode) as u16, opcode % 0x100);
        assert_eq!(selector(opcode), opcode % 0x10);
    }
}

#[test]
fn decodes_the_instruction_set() {
    assert_eq!(decode(0x00E0), Some(Instruction::ClearScreen));
    assert_eq!(decode(0x00EE), Some(Instruction::Return));
    assert_eq!(decode(0x00DF), Some(Instruction::Exit));
    assert_eq!(decode(0x1234), Some(Instruction::Jump { address: 0x234 }));
    assert_eq!(decode(0x2ABC), Some(Instruction::Call { address: 0xABC }));
    assert_eq!(decode(0x3A12), Some(Instruction::SkipEqual { x: 0xA, value: 0x12 }));
    assert_eq!(decode(0x4B34), Some(Instruction::SkipNotEqual { x: 0xB, value: 0x34 }));
    assert_eq!(decode(0x5120), Some(Instruction::SkipRegistersEqual { x: 1, y: 2 }));
    assert_eq!(decode(0x60AB), Some(Instruction::SetRegister { x: 0, value: 0xAB }));
    assert_eq!(decode(0x7F05), Some(Instruction::AddToRegister { x: 0xF, value: 0x05 }));
    assert_eq!(decode(0x8120), Some(Instruction::CopyRegister { x: 1, y: 2 }));
    assert_eq!(decode(0x8121), Some(Instruction::OrRegisters { x: 1, y: 2 }));
    assert_eq!(decode(0x8122), Some(Instruction::AndRegisters { x: 1, y: 2 }));
    assert_eq!(decode(0x8123), Some(Instruction::XorRegisters { x: 1, y: 2 }));
    assert_eq!(decode(0x8124), Some(Instruction::AddRegisters { x: 1, y: 2 }));
    assert_eq!(decode(0x8125), Some(Instruction::SubtractRegisters { x: 1, y: 2 }));
    assert_eq!(decode(0x8126), Some(Instruction::ShiftRight { x: 1, y: 2 }));
    assert_eq!(decode(0x8127), Some(Instruction::SubtractReversed { x: 1, y: 2 }));
    assert_eq!(decode(0x812E), Some(Instruction::ShiftLeft { x: 1, y: 2 }));
    assert_eq!(decode(0x9120), Some(Instruction::SkipRegistersNotEqual { x: 1, y: 2 }));
    assert_eq!(decode(0xA123), Some(Instruction::SetIndex { address: 0x123 }));
    assert_eq!(decode(0xB123), Some(Instruction::JumpOffset { address: 0x123 }));
    assert_eq!(decode(0xC10F), Some(Instruction::Random { x: 1, mask: 0x0F }));
    assert_eq!(decode(0xD125), Some(Instruction::Draw { x: 1, y: 2, rows: 5 }));
    assert_eq!(decode(0xE19E), Some(Instruction::SkipKeyPressed { x: 1 }));
    assert_eq!(decode(0xE1A1), Some(Instruction::SkipKeyReleased { x: 1 }));
    assert_eq!(decode(0xF107), Some(Instruction::ReadDelay { x: 1 }));
    assert_eq!(decode(0xF10A), Some(Instruction::WaitKey { x: 1 }));
    assert_eq!(decode(0xF115), Some(Instruction::SetDelay { x: 1 }));
    assert_eq!(decode(0xF118), Some(Instruction::SetSound { x: 1 }));
    assert_eq!(decode(0xF11E), Some(Instruction::AddToIndex { x: 1 }));
    assert_eq!(decode(0xF129), Some(Instruction::GlyphAddress { x: 1 }));
    assert_eq!(decode(0xF133), Some(Instruction::StoreDecimal { x: 1 }));
    assert_eq!(decode(0xF155), Some(Instruction::StoreRegisters { x: 1 }));
    assert_eq!(decode(0xF165), Some(Instruction::LoadRegisters { x: 1 }));
}

#[test]
fn decodes_no_instruction_from_other_words() {
    for opcode in [
        0x0000, 0x00E1, 0x00ED, 0x01E0, 0x0AEE, 0x0123, 0x5001, 0x512F, 0x8008, 0x8129, 0x812A,
        0x812D, 0x812F, 0x9001, 0xE000, 0xE19F, 0xE1A0, 0xF000, 0xF108, 0xF1FF, 0xF10B, 0xF156,
    ] {
        assert_eq!(decode(opcode), None, "word {:#06X}", opcode);
    }
}

fn encode(instruction: Instruction) -> u16 {
    match instruction {
        Instruction::ClearScreen => 0x00E0,
        Instruction::Return => 0x00EE,
        Instruction::Exit => 0x00DF,
        Instruction::Jump { address } => 0x1000 + address,
        Instruction::Call { address } => 0x2000 + address,
        Instruction::SkipEqual { x, value } => 0x3000 + x * 0x100 + value as u16,
        Instruction::SkipNotEqual { x, value } => 0x4000 + x * 0x100 + value as u16,
        Instruction::SkipRegistersEqual { x, y } => 0x5000 + x * 0x100 + y * 0x10,
        Instruction::SetRegister { x, value } => 0x6000 + x * 0x100 + value as u16,
        Instruction::AddToRegister { x, value } => 0x7000 + x * 0x100 + value as u16,
        Instruction::CopyRegister { x, y } => 0x8000 + x * 0x100 + y * 0x10,
        Instruction::OrRegisters { x, y } => 0x8001 + x * 0x100 + y * 0x10,
        Instruction::AndRegisters { x, y } => 0x8002 + x * 0x100 + y * 0x10,
        Instruction::XorRegisters { x, y } => 0x8003 + x * 0x100 + y * 0x10,
        Instruction::AddRegisters { x, y } => 0x8004 + x * 0x100 + y * 0x10,
        Instruction::SubtractRegisters { x, y } => 0x8005 + x * 0x100 + y * 0x10,
        Instruction::ShiftRight { x, y } => 0x8006 + x * 0x100 + y * 0x10,
        Instruction::SubtractReversed { x, y } => 0x8007 + x * 0x100 + y * 0x10,
        Instruction::ShiftLeft { x, y } => 0x800E + x * 0x100 + y * 0x10,
        Instruction::SkipRegistersNotEqual { x, y } => 0x9000 + x * 0x100 + y * 0x10,
        Instruction::SetIndex { address } => 0xA000 + address,
        Instruction::JumpOffset { address } => 0xB000 + address,
        Instruction::Random { x, mask } => 0xC000 + x * 0x100 + mask as u16,
        Instruction::Draw { x, y, rows } => 0xD000 + x * 0x100 + y * 0x10 + rows,
        Instruction::SkipKeyPressed { x } => 0xE09E + x * 0x100,
        Instruction::SkipKeyReleased { x } => 0xE0A1 + x * 0x100,
        Instruction::ReadDelay { x } => 0xF007 + x * 0x100,
        Instruction::WaitKey { x } => 0xF00A + x * 0x100,
        Instruction::SetDelay { x } => 0xF015 + x * 0x100,
        Instruction::SetSound { x } => 0xF018 + x * 0x100,
        Instruction::AddToIndex { x } => 0xF01E + x * 0x100,
        Instruction::GlyphAddress { x } => 0xF029 + x * 0x100,
        Instruction::StoreDecimal { x } => 0xF033 + x * 0x100,
        Instruction::StoreRegisters { x } => 0xF055 + x * 0x100,
        Instruction::LoadRegisters { x } => 0xF065 + x * 0x100,
    }
}

#[test]
fn every_decoded_word_encodes_back() {
    let mut known = 0;
    for opcode in 0..=0xFFFFu16 {
        if let Some(instruction) = decode(opcode) {
            assert_eq!(encode(instruction), opcode);
            known += 1;
        }
    }
    // 3 fixed words, 4 address families, 5 register-byte families,
    // 2 + 9 register-pair instructions, 1 draw family, 2 + 9 one-register
    // instructions.
    assert_eq!(known, 3 + 4 * 4096 + 5 * 4096 + 11 * 256 + 4096 + 11 * 16);
}

#[test]
fn find_new_key_finds_the_lowest_new_key() {
    let none = [false; 16];
    assert_eq!(find_new_key(&none, &none), None);

    let mut keys = [false; 16];
    keys[5] = true;
    assert_eq!(find_new_key(&none, &keys), Some(5));

    keys[3] = true;
    keys[9] = true;
    assert_eq!(find_new_key(&none, &keys), Some(3));

    let mut seen = [false; 16];
    seen[3] = true;
    assert_eq!(find_new_key(&seen, &keys), Some(5));

    assert_eq!(find_new_key(&keys, &keys), None);
    assert_eq!(find_new_key(&keys, &none), None);

    let mut last = [false; 16];
    last[15] = true;
    assert_eq!(find_new_key(&none, &last), Some(15));
    assert_eq!(find_new_key(&[true; 16], &[true; 16]), None);
    assert_eq!(find_new_key(&none, &[true; 16]), Some(0));
}
