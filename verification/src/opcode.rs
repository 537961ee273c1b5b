//! Instruction words: operand fields, the instruction set as an enumeration,
//! and the decoder.

use vstd::prelude::*;

verus! {

/// One decoded instruction. Register operands are named `x` and `y` after
/// their position in the instruction word.
#[derive(Clone, Copy, Debug, PartialEq, Eq, Structural)]
pub enum Instruction {
    /// `00E0`: blank the display.
    ClearScreen,
    /// `00EE`: return from a subroutine.
    Return,
    /// `00DF`: ask the driver to stop.
    Exit,
    /// `1nnn`: jump to `address`.
    Jump { address: u16 },
    /// `2nnn`: call the subroutine at `address`.
    Call { address: u16 },
    /// `3xkk`: skip the next instruction if `Vx == value`.
    SkipEqual { x: u16, value: u8 },
    /// `4xkk`: skip the next instruction if `Vx != value`.
    SkipNotEqual { x: u16, value: u8 },
    /// `5xy0`: skip the next instruction if `Vx == Vy`.
    SkipRegistersEqual { x: u16, y: u16 },
    /// `6xkk`: `Vx = value`.
    SetRegister { x: u16, value: u8 },
    /// `7xkk`: `Vx = Vx + value`, wrapping, flag untouched.
    AddToRegister { x: u16, value: u8 },
    /// `8xy0`: `Vx = Vy`.
    CopyRegister { x: u16, y: u16 },
    /// `8xy1`: `Vx = Vx | Vy`.
    OrRegisters { x: u16, y: u16 },
    /// `8xy2`: `Vx = Vx & Vy`.
    AndRegisters { x: u16, y: u16 },
    /// `8xy3`: `Vx = Vx ^ Vy`.
    XorRegisters { x: u16, y: u16 },
    /// `8xy4`: `Vx = Vx + Vy`, wrapping, `VF` = carry.
    AddRegisters { x: u16, y: u16 },
    /// `8xy5`: `Vx = Vx - Vy`, wrapping, `VF` = no borrow.
    SubtractRegisters { x: u16, y: u16 },
    /// `8xy6`: `Vx = Vx >> 1`, `VF` = the bit shifted out. `y` is carried but unused.
    ShiftRight { x: u16, y: u16 },
    /// `8xy7`: `Vx = Vy - Vx`, wrapping, `VF` = no borrow.
    SubtractReversed { x: u16, y: u16 },
    /// `8xyE`: `Vx = Vx << 1`, `VF` = the bit shifted out. `y` is carried but unused.
    ShiftLeft { x: u16, y: u16 },
    /// `9xy0`: skip the next instruction if `Vx != Vy`.
    SkipRegistersNotEqual { x: u16, y: u16 },
    /// `Annn`: `I = address`.
    SetIndex { address: u16 },
    /// `Bnnn`: jump to `address + V0`.
    JumpOffset { address: u16 },
    /// `Cxkk`: `Vx = random byte & mask`.
    Random { x: u16, mask: u8 },
    /// `Dxyn`: draw a sprite of `rows` bytes at `(Vx, Vy)`.
    Draw { x: u16, y: u16, rows: u16 },
    /// `Ex9E`: skip the next instruction if key `Vx` is pressed.
    SkipKeyPressed { x: u16 },
    /// `ExA1`: skip the next instruction if key `Vx` is not pressed.
    SkipKeyReleased { x: u16 },
    /// `Fx07`: `Vx = delay timer`.
    ReadDelay { x: u16 },
    /// `Fx0A`: wait for a key press, then `Vx = key`.
    WaitKey { x: u16 },
    /// `Fx15`: `delay timer = Vx`.
    SetDelay { x: u16 },
    /// `Fx18`: `sound timer = Vx`.
    SetSound { x: u16 },
    /// `Fx1E`: `I = I + Vx`, modulo 65536.
    AddToIndex { x: u16 },
    /// `Fx29`: `I` = address of the glyph for the digit in `Vx`.
    GlyphAddress { x: u16 },
    /// `Fx33`: store the three decimal digits of `Vx` at `I`, `I+1`, `I+2`.
    StoreDecimal { x: u16 },
    /// `Fx55`: store `V0..=Vx` at `I..`.
    StoreRegisters { x: u16 },
    /// `Fx65`: load `V0..=Vx` from `I..`.
    LoadRegisters { x: u16 },
}

impl Instruction {
    /// Every operand fits its field: register indices and row counts in four
    /// bits, addresses in twelve.
    pub open spec fn wf(self) -> bool {
        match self {
            Instruction::ClearScreen | Instruction::Return | Instruction::Exit => true,
            Instruction::Jump { address }
            | Instruction::Call { address }
            | Instruction::SetIndex { address }
            | Instruction::JumpOffset { address } => address < 0x1000,
            Instruction::SkipEqual { x, .. }
            | Instruction::SkipNotEqual { x, .. }
            | Instruction::SetRegister { x, .. }
            | Instruction::AddToRegister { x, .. }
            | Instruction::Random { x, .. }
            | Instruction::SkipKeyPressed { x }
            | Instruction::SkipKeyReleased { x }
            | Instruction::ReadDelay { x }
            | Instruction::WaitKey { x }
            | Instruction::SetDelay { x }
            | Instruction::SetSound { x }
            | Instruction::AddToIndex { x }
            | Instruction::GlyphAddress { x }
            | Instruction::StoreDecimal { x }
            | Instruction::StoreRegisters { x }
            | Instruction::LoadRegisters { x } => x < 16,
            Instruction::SkipRegistersEqual { x, y }
            | Instruction::CopyRegister { x, y }
            | Instruction::OrRegisters { x, y }
            | Instruction::AndRegisters { x, y }
            | Instruction::XorRegisters { x, y }
            | Instruction::AddRegisters { x, y }
            | Instruction::SubtractRegisters { x, y }
            | Instruction::ShiftRight { x, y }
            | Instruction::SubtractReversed { x, y }
            | Instruction::ShiftLeft { x, y }
            | Instruction::SkipRegistersNotEqual { x, y } => x < 16 && y < 16,
            Instruction::Draw { x, y, rows } => x < 16 && y < 16 && rows < 16,
        }
    }

    /// The instruction word that stands for this instruction: the
    /// instruction table, read from instruction to word.
    pub open spec fn encode(self) -> int {
        match self {
            Instruction::ClearScreen => 0x00E0,
            Instruction::Return => 0x00EE,
            Instruction::Exit => 0x00DF,
            Instruction::Jump { address } => 0x1000 + address,
            Instruction::Call { address } => 0x2000 + address,
            Instruction::SkipEqual { x, value } => 0x3000 + x * 0x100 + value,
            Instruction::SkipNotEqual { x, value } => 0x4000 + x * 0x100 + value,
            Instruction::SkipRegistersEqual { x, y } => 0x5000 + x * 0x100 + y * 0x10,
            Instruction::SetRegister { x, value } => 0x6000 + x * 0x100 + value,
            Instruction::AddToRegister { x, value } => 0x7000 + x * 0x100 + value,
            Instruction::CopyRegister { x, y } => 0x8000 + x * 0x100 + y * 0x10,
            Instruction::OrRegisters { x, y } => 0x8001 + x * 0x100 + y * 0x10,
            Instruction::AndRegisters { x, y } => 0x8002 + x * 0x100 + y * 0x10,
            Instruction::XorRegisters { x, y } => 0x8003 + x * 0x100 + y * 0x10,
            Instruction::AddRegisters { x, y } => 0x8004 + x * 0x100 + y * 0x10,
            Instruction::SubtractRegisters { x, y } => 0x8005 + x * 0x100 + y * 0x10,
            Instruction::ShiftRight { x, y } => 0x8006 + x * 0x100 + y * 0x10,
            Instruction::SubtractReversed { x, y } => 0x8007 + x * 0x100 + y * 0x10,
            Instruction::ShiftLeft { x, y } => 0x800E + x * 0x100 + y * 0x10,
            Instruction::SkipRegistersNotEqual { x, y } => 0x9000 + x * 0x100 + y * 0x10,
            Instruction::SetIndex { address } => 0xA000 + address,
            Instruction::JumpOffset { address } => 0xB000 + address,
            Instruction::Random { x, mask } => 0xC000 + x * 0x100 + mask,
            Instruction::Draw { x, y, rows } => 0xD000 + x * 0x100 + y * 0x10 + rows,
            Instruction::SkipKeyPressed { x } => 0xE09E + x * 0x100,
            Instruction::SkipKeyReleased { x } => 0xE0A1 + x * 0x100,
            Instruction::ReadDelay { x } => 0xF007 + x * 0x100,
            Instruction::WaitKey { x } => 0xF00A + x * 0x100,
            Instruction::SetDelay { x } => 0xF015 + x * 0x100,
            Instruction::SetSound { x } => 0xF018 + x * 0x100,
            Instruction::AddToIndex { x } => 0xF01E + x * 0x100,
            Instruction::GlyphAddress { x } => 0xF029 + x * 0x100,
            Instruction::StoreDecimal { x } => 0xF033 + x * 0x100,
            Instruction::StoreRegisters { x } => 0xF055 + x * 0x100,
            Instruction::LoadRegisters { x } => 0xF065 + x * 0x100,
        }
    }
}

/// `instruction` is a well-formed instruction whose word is `opcode`.
pub open spec fn decodes_to(opcode: int, instruction: Instruction) -> bool {
    instruction.wf() && instruction.encode() == opcode
}

/// The instruction that `opcode` stands for, or `None` where no instruction
/// has that word. At most one instruction has any given word
/// (`lemma_encode_injective`), so the choice is determined.
pub open spec fn decoded(opcode: int) -> Option<Instruction> {
    if exists|i: Instruction| decodes_to(opcode, i) {
        Some(choose|i: Instruction| decodes_to(opcode, i))
    } else {
        None
    }
}

/// The 16-bit word made of two bytes, `high` first.
pub open spec fn word_of(high: u8, low: u8) -> int {
    high * 0x100 + low
}

/// Leading nibble of a word: the instruction family.
pub open spec fn family_of(opcode: int) -> int {
    opcode / 0x1000
}

/// The 12-bit address operand `nnn`.
pub open spec fn address_of(opcode: int) -> int {
    opcode % 0x1000
}

/// The register operand `x`: second nibble.
pub open spec fn x_of(opcode: int) -> int {
    (opcode / 0x100) % 0x10
}

/// The register operand `y`: third nibble.
pub open spec fn y_of(opcode: int) -> int {
    (opcode / 0x10) % 0x10
}

/// The 8-bit immediate operand `kk`.
pub open spec fn immediate_of(opcode: int) -> int {
    opcode % 0x100
}

/// The 4-bit selector `n`: last nibble.
pub open spec fn selector_of(opcode: int) -> int {
    opcode % 0x10
}

/// The instruction table read from word to instruction, family by family.
/// A proof device: the statements of this module are made over `encode`.
spec fn lookup(opcode: int) -> Option<Instruction> {
    let x = x_of(opcode) as u16;
    let y = y_of(opcode) as u16;
    let value = immediate_of(opcode) as u8;
    let nnn = address_of(opcode) as u16;
    let n = selector_of(opcode) as u16;
    let family = family_of(opcode);
    if family == 0x0 {
        if opcode == 0x00E0 {
            Some(Instruction::ClearScreen)
        } else if opcode == 0x00EE {
            Some(Instruction::Return)
        } else if opcode == 0x00DF {
            Some(Instruction::Exit)
        } else {
            None
        }
    } else if family == 0x1 {
        Some(Instruction::Jump { address: nnn })
    } else if family == 0x2 {
        Some(Instruction::Call { address: nnn })
    } else if family == 0x3 {
        Some(Instruction::SkipEqual { x, value })
    } else if family == 0x4 {
        Some(Instruction::SkipNotEqual { x, value })
    } else if family == 0x5 {
        if n == 0 {
            Some(Instruction::SkipRegistersEqual { x, y })
        } else {
            None
        }
    } else if family == 0x6 {
        Some(Instruction::SetRegister { x, value })
    } else if family == 0x7 {
        Some(Instruction::AddToRegister { x, value })
    } else if family == 0x8 {
        lookup_arithmetic(x, y, n)
    } else if family == 0x9 {
        if n == 0 {
            Some(Instruction::SkipRegistersNotEqual { x, y })
        } else {
            None
        }
    } else if family == 0xA {
        Some(Instruction::SetIndex { address: nnn })
    } else if family == 0xB {
        Some(Instruction::JumpOffset { address: nnn })
    } else if family == 0xC {
        Some(Instruction::Random { x, mask: value })
    } else if family == 0xD {
        Some(Instruction::Draw { x, y, rows: n })
    } else if family == 0xE {
        if value == 0x9E {
            Some(Instruction::SkipKeyPressed { x })
        } else if value == 0xA1 {
            Some(Instruction::SkipKeyReleased { x })
        } else {
            None
        }
    } else if family == 0xF {
        lookup_miscellaneous(x, value)
    } else {
        None
    }
}

/// Family `8`, by selector.
spec fn lookup_arithmetic(x: u16, y: u16, n: u16) -> Option<Instruction> {
    if n == 0x0 {
        Some(Instruction::CopyRegister { x, y })
    } else if n == 0x1 {
        Some(Instruction::OrRegisters { x, y })
    } else if n == 0x2 {
        Some(Instruction::AndRegisters { x, y })
    } else if n == 0x3 {
        Some(Instruction::XorRegisters { x, y })
    } else if n == 0x4 {
        Some(Instruction::AddRegisters { x, y })
    } else if n == 0x5 {
        Some(Instruction::SubtractRegisters { x, y })
    } else if n == 0x6 {
        Some(Instruction::ShiftRight { x, y })
    } else if n == 0x7 {
        Some(Instruction::SubtractReversed { x, y })
    } else if n == 0xE {
        Some(Instruction::ShiftLeft { x, y })
    } else {
        None
    }
}

/// Family `F`, by low byte.
spec fn lookup_miscellaneous(x: u16, value: u8) -> Option<Instruction> {
    if value == 0x07 {
        Some(Instruction::ReadDelay { x })
    } else if value == 0x0A {
        Some(Instruction::WaitKey { x })
    } else if value == 0x15 {
        Some(Instruction::SetDelay { x })
    } else if value == 0x18 {
        Some(Instruction::SetSound { x })
    } else if value == 0x1E {
        Some(Instruction::AddToIndex { x })
    } else if value == 0x29 {
        Some(Instruction::GlyphAddress { x })
    } else if value == 0x33 {
        Some(Instruction::StoreDecimal { x })
    } else if value == 0x55 {
        Some(Instruction::StoreRegisters { x })
    } else if value == 0x65 {
        Some(Instruction::LoadRegisters { x })
    } else {
        None
    }
}

/// The fields of a word built from a family and an address.
proof fn lemma_fields_address(family: u16, address: u16)
    by (bit_vector)
    requires
        family < 16,
        address < 0x1000,
    ensures
        (family * 0x1000 + address) / 0x1000 == family,
        (family * 0x1000 + address) % 0x1000 == address,
{
}

/// The fields of a word built from a family, a register and a byte.
proof fn lemma_fields_immediate(family: u16, x: u16, value: u8)
    by (bit_vector)
    requires
        family < 16,
        x < 16,
    ensures
        (family * 0x1000 + x * 0x100 + value) / 0x1000 == family,
        ((family * 0x1000 + x * 0x100 + value) / 0x100) % 0x10 == x,
        (family * 0x1000 + x * 0x100 + value) % 0x100 == value,
{
}

/// The fields of a word built from its four nibbles.
proof fn lemma_fields_nibbles(family: u16, x: u16, y: u16, n: u16)
    by (bit_vector)
    requires
        family < 16,
        x < 16,
        y < 16,
        n < 16,
    ensures
        (family * 0x1000 + x * 0x100 + y * 0x10 + n) / 0x1000 == family,
        ((family * 0x1000 + x * 0x100 + y * 0x10 + n) / 0x100) % 0x10 == x,
        ((family * 0x1000 + x * 0x100 + y * 0x10 + n) / 0x10) % 0x10 == y,
        (family * 0x1000 + x * 0x100 + y * 0x10 + n) % 0x10 == n,
{
}

/// A word taken apart into its fields, in each of the three layouts.
proof fn lemma_nibbles(opcode: u16)
    by (bit_vector)
    ensures
        opcode / 0x1000 < 16,
        (opcode / 0x100) % 0x10 < 16,
        (opcode / 0x10) % 0x10 < 16,
        opcode % 0x10 < 16,
        opcode % 0x1000 < 0x1000,
        opcode % 0x100 < 0x100,
        opcode == (opcode / 0x1000) * 0x1000 + opcode % 0x1000,
        opcode == (opcode / 0x1000) * 0x1000 + ((opcode / 0x100) % 0x10) * 0x100 + opcode
            % 0x100,
        opcode == (opcode / 0x1000) * 0x1000 + ((opcode / 0x100) % 0x10) * 0x100 + ((opcode
            / 0x10) % 0x10) * 0x10 + opcode % 0x10,
        opcode % 0x100 == ((opcode / 0x10) % 0x10) * 0x10 + opcode % 0x10,
{
}

/// The table finds every well-formed instruction under its word.
proof fn lemma_lookup_encode(i: Instruction)
    requires
        i.wf(),
    ensures
        lookup(i.encode()) == Some(i),
        0 <= i.encode() < 0x10000,
{
    match i {
        Instruction::ClearScreen | Instruction::Return | Instruction::Exit => {},
        Instruction::Jump { address } => lemma_fields_address(0x1, address),
        Instruction::Call { address } => lemma_fields_address(0x2, address),
        Instruction::SetIndex { address } => lemma_fields_address(0xA, address),
        Instruction::JumpOffset { address } => lemma_fields_address(0xB, address),
        Instruction::SkipEqual { x, value } => lemma_fields_immediate(0x3, x, value),
        Instruction::SkipNotEqual { x, value } => lemma_fields_immediate(0x4, x, value),
        Instruction::SetRegister { x, value } => lemma_fields_immediate(0x6, x, value),
        Instruction::AddToRegister { x, value } => lemma_fields_immediate(0x7, x, value),
        Instruction::Random { x, mask } => lemma_fields_immediate(0xC, x, mask),
        Instruction::SkipRegistersEqual { x, y } => lemma_fields_nibbles(0x5, x, y, 0),
        Instruction::CopyRegister { x, y } => lemma_fields_nibbles(0x8, x, y, 0x0),
        Instruction::OrRegisters { x, y } => lemma_fields_nibbles(0x8, x, y, 0x1),
        Instruction::AndRegisters { x, y } => lemma_fields_nibbles(0x8, x, y, 0x2),
        Instruction::XorRegisters { x, y } => lemma_fields_nibbles(0x8, x, y, 0x3),
        Instruction::AddRegisters { x, y } => lemma_fields_nibbles(0x8, x, y, 0x4),
        Instruction::SubtractRegisters { x, y } => lemma_fields_nibbles(0x8, x, y, 0x5),
        Instruction::ShiftRight { x, y } => lemma_fields_nibbles(0x8, x, y, 0x6),
        Instruction::SubtractReversed { x, y } => lemma_fields_nibbles(0x8, x, y, 0x7),
        Instruction::ShiftLeft { x, y } => lemma_fields_nibbles(0x8, x, y, 0xE),
        Instruction::SkipRegistersNotEqual { x, y } => lemma_fields_nibbles(0x9, x, y, 0),
        Instruction::Draw { x, y, rows } => lemma_fields_nibbles(0xD, x, y, rows),
        Instruction::SkipKeyPressed { x } => lemma_fields_immediate(0xE, x, 0x9E),
        Instruction::SkipKeyReleased { x } => lemma_fields_immediate(0xE, x, 0xA1),
        Instruction::ReadDelay { x } => lemma_fields_immediate(0xF, x, 0x07),
        Instruction::WaitKey { x } => lemma_fields_immediate(0xF, x, 0x0A),
        Instruction::SetDelay { x } => lemma_fields_immediate(0xF, x, 0x15),
        Instruction::SetSound { x } => lemma_fields_immediate(0xF, x, 0x18),
        Instruction::AddToIndex { x } => lemma_fields_immediate(0xF, x, 0x1E),
        Instruction::GlyphAddress { x } => lemma_fields_immediate(0xF, x, 0x29),
        Instruction::StoreDecimal { x } => lemma_fields_immediate(0xF, x, 0x33),
        Instruction::StoreRegisters { x } => lemma_fields_immediate(0xF, x, 0x55),
        Instruction::LoadRegisters { x } => lemma_fields_immediate(0xF, x, 0x65),
    }
}

/// What the table finds is well formed and has the word it was found under.
proof fn lemma_lookup_sound(opcode: u16)
    ensures
        match lookup(opcode as int) {
            Some(i) => decodes_to(opcode as int, i),
            None => true,
        },
{
    lemma_nibbles(opcode);
}

/// No two well-formed instructions share a word.
pub proof fn lemma_encode_injective(a: Instruction, b: Instruction)
    requires
        a.wf(),
        b.wf(),
        a.encode() == b.encode(),
    ensures
        a == b,
{
    lemma_lookup_encode(a);
    lemma_lookup_encode(b);
}

/// Decoding undoes encoding.
pub proof fn lemma_decoded_encode(instruction: Instruction)
    requires
        instruction.wf(),
    ensures
        decoded(instruction.encode()) == Some(instruction),
{
    let opcode = instruction.encode();
    assert(decodes_to(opcode, instruction));
    let chosen = choose|i: Instruction| decodes_to(opcode, i);
    lemma_encode_injective(chosen, instruction);
}

/// Encoding undoes decoding, and a word without an instruction is the word
/// of none.
pub proof fn lemma_decoded_sound(opcode: int)
    ensures
        match decoded(opcode) {
            Some(i) => i.wf() && i.encode() == opcode,
            None => forall|i: Instruction| i.wf() ==> i.encode() != opcode,
        },
{
    if exists|i: Instruction| decodes_to(opcode, i) {
    } else {
        assert forall|i: Instruction| i.wf() implies i.encode() != opcode by {
            if i.encode() == opcode {
                assert(decodes_to(opcode, i));
            }
        }
    }
}

/// Joins the two bytes of an instruction word, `high` first.
pub fn word(high: u8, low: u8) -> (r: u16)
    ensures
        r == word_of(high, low),
{
    let h: u16 = high as u16;
    let l: u16 = low as u16;
    assert((h << 8) | l == h * 0x100 + l) by (bit_vector)
        requires
            h < 0x100,
            l < 0x100,
    ;
    (h << 8) | l
}

/// Leading nibble of `opcode`: the instruction family.
pub fn family(opcode: u16) -> (r: u16)
    ensures
        r == family_of(opcode as int),
        r < 16,
{
    assert((opcode & 0xF000) >> 12 == opcode / 0x1000) by (bit_vector);
    (opcode & 0xF000) >> 12
}

/// The 12-bit address operand `nnn` of `opcode`.
pub fn address(opcode: u16) -> (r: u16)
    ensures
        r == address_of(opcode as int),
        r < 0x1000,
{
    assert(opcode & 0x0FFF == opcode % 0x1000) by (bit_vector);
    opcode & 0x0FFF
}

/// The register operand `x` of `opcode`.
pub fn register_x(opcode: u16) -> (r: u16)
    ensures
        r == x_of(opcode as int),
        r < 16,
{
    assert((opcode & 0x0F00) >> 8 == (opcode / 0x100) % 0x10) by (bit_vector);
    (opcode & 0x0F00) >> 8
}

/// The register operand `y` of `opcode`.
pub fn register_y(opcode: u16) -> (r: u16)
    ensures
        r == y_of(opcode as int),
        r < 16,
{
    assert((opcode & 0x00F0) >> 4 == (opcode / 0x10) % 0x10) by (bit_vector);
    (opcode & 0x00F0) >> 4
}

/// The 8-bit immediate operand `kk` of `opcode`.
pub fn immediate(opcode: u16) -> (r: u8)
    ensures
        r == immediate_of(opcode as int),
{
    assert(opcode & 0x00FF == opcode % 0x100) by (bit_vector);
    (opcode & 0x00FF) as u8
}

/// The 4-bit selector `n` of `opcode`.
pub fn selector(opcode: u16) -> (r: u16)
    ensures
        r == selector_of(opcode as int),
        r < 16,
{
    assert(opcode & 0x000F == opcode % 0x10) by (bit_vector);
    opcode & 0x000F
}

/// Decodes an instruction word. The result is the one instruction whose
/// word is `opcode`, and `None` exactly when no instruction has that word.
pub fn decode(opcode: u16) -> (r: Option<Instruction>)
    ensures
        r == decoded(opcode as int),
        match r {
            Some(i) => i.wf() && i.encode() == opcode,
            None => forall|i: Instruction| i.wf() ==> i.encode() != opcode,
        },
{
    let x: u16 = register_x(opcode);
    let y: u16 = register_y(opcode);
    let value: u8 = immediate(opcode);
    let nnn: u16 = address(opcode);
    let n: u16 = selector(opcode);
    let r = match family(opcode) {
        0x0 => {
            if opcode == 0x00E0 {
                Some(Instruction::ClearScreen)
            } else if opcode == 0x00EE {
                Some(Instruction::Return)
            } else if opcode == 0x00DF {
                Some(Instruction::Exit)
            } else {
                None
            }
        },
        0x1 => Some(Instruction::Jump { address: nnn }),
        0x2 => Some(Instruction::Call { address: nnn }),
        0x3 => Some(Instruction::SkipEqual { x, value }),
        0x4 => Some(Instruction::SkipNotEqual { x, value }),
        0x5 => {
            if n == 0 {
                Some(Instruction::SkipRegistersEqual { x, y })
            } else {
                None
            }
        },
        0x6 => Some(Instruction::SetRegister { x, value }),
        0x7 => Some(Instruction::AddToRegister { x, value }),
        0x8 => match n {
            0x0 => Some(Instruction::CopyRegister { x, y }),
            0x1 => Some(Instruction::OrRegisters { x, y }),
            0x2 => Some(Instruction::AndRegisters { x, y }),
            0x3 => Some(Instruction::XorRegisters { x, y }),
            0x4 => Some(Instruction::AddRegisters { x, y }),
            0x5 => Some(Instruction::SubtractRegisters { x, y }),
            0x6 => Some(Instruction::ShiftRight { x, y }),
            0x7 => Some(Instruction::SubtractReversed { x, y }),
            0xE => Some(Instruction::ShiftLeft { x, y }),
            _ => None,
        },
        0x9 => {
            if n == 0 {
                Some(Instruction::SkipRegistersNotEqual { x, y })
            } else {
                None
            }
        },
        0xA => Some(Instruction::SetIndex { address: nnn }),
        0xB => Some(Instruction::JumpOffset { address: nnn }),
        0xC => Some(Instruction::Random { x, mask: value }),
        0xD => Some(Instruction::Draw { x, y, rows: n }),
        0xE => match value {
            0x9E => Some(Instruction::SkipKeyPressed { x }),
            0xA1 => Some(Instruction::SkipKeyReleased { x }),
            _ => None,
        },
        _ => match value {
            0x07 => Some(Instruction::ReadDelay { x }),
            0x0A => Some(Instruction::WaitKey { x }),
            0x15 => Some(Instruction::SetDelay { x }),
            0x18 => Some(Instruction::SetSound { x }),
            0x1E => Some(Instruction::AddToIndex { x }),
            0x29 => Some(Instruction::GlyphAddress { x }),
            0x33 => Some(Instruction::StoreDecimal { x }),
            0x55 => Some(Instruction::StoreRegisters { x }),
            0x65 => Some(Instruction::LoadRegisters { x }),
            _ => None,
        },
    };
    proof {
        lemma_nibbles(opcode);
        lemma_lookup_sound(opcode);
        match r {
            Some(i) => {
                lemma_decoded_encode(i);
            },
            None => {
                assert forall|i: Instruction| i.wf() implies i.encode() != opcode by {
                    if i.encode() == opcode {
                        lemma_lookup_encode(i);
                    }
                }
            },
        }
    }
    r
}

} // verus!
