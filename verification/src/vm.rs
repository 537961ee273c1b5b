//! The machine itself: its state in arrays and machine integers, and the
//! operations that a driver and the instruction set perform on it.

use vstd::prelude::*;
use crate::display;
use crate::font::{font_table, glyph_address, FONT_BASE};
use crate::keypad::find_new_key;
use crate::laws::lemma_step_preserves_wf;
use crate::machine::{Machine, MAX_PROGRAM_SIZE, PROGRAM_START};
use crate::opcode::{decode, register_x, word, Instruction};
use crate::status::{Chip8Error, ExecState, Signal};

verus! {

/// A CHIP-8 machine. All of its state is owned by the value; any number of
/// machines may live side by side.
#[derive(Clone, Debug, PartialEq, Eq)]
pub struct Chip8 {
    /// Memory: the font from `0x050`, programs from `0x200`.
    pub memory: [u8; 4096],
    /// The program counter.
    pub pc: u16,
    /// The display, row by row, one cell per pixel: `0` dark, `1` lit.
    pub screen: [u8; 2048],
    /// The stack slots; the slots below `sp` hold the return addresses.
    pub stack: [u16; 16],
    /// The index register `I`.
    pub i: u16,
    /// Number of return addresses on the stack.
    pub sp: u8,
    /// `V0` to `VF`.
    pub registers: [u8; 16],
    /// The delay timer.
    pub delay_timer: u8,
    /// The sound timer.
    pub sound_timer: u8,
    /// The keypad: `true` for a key that is down.
    pub keys: [bool; 16],
    /// The keypad as a pending key-wait last saw it.
    pub seen_keys: [bool; 16],
    /// Running, or suspended on a key-wait.
    pub state: ExecState,
    /// Policy for a word that is no instruction: `true` to stop on it,
    /// `false` to report it and step over it.
    pub strict: bool,
    /// State of the random byte generator.
    pub seed: u16,
}

impl View for Chip8 {
    type V = Machine;

    open spec fn view(&self) -> Machine {
        Machine {
            memory: self.memory@,
            registers: self.registers@,
            index: self.i as int,
            pc: self.pc as int,
            stack: self.stack@,
            sp: self.sp as int,
            delay: self.delay_timer as int,
            sound: self.sound_timer as int,
            screen: self.screen@,
            keys: self.keys@,
            seen_keys: self.seen_keys@,
            state: self.state,
            strict: self.strict,
            seed: self.seed as int,
        }
    }
}

/// Two machines with the same model are the same machine.
pub proof fn lemma_view_injective(a: Chip8, b: Chip8)
    requires
        a@ == b@,
    ensures
        a == b,
{
    assert(a.memory =~= b.memory);
    assert(a.screen =~= b.screen);
    assert(a.stack =~= b.stack);
    assert(a.registers =~= b.registers);
    assert(a.keys =~= b.keys);
    assert(a.seen_keys =~= b.seen_keys);
}

impl Chip8 {
    /// A new machine: the font in memory, the program counter at `0x200`,
    /// everything else zero.
    pub fn init() -> (vm: Chip8)
        ensures
            vm@ == Machine::initial(),
            vm@.wf(),
    {
        let mut memory: [u8; 4096] = [0; 4096];
        let table = font_table();
        let mut k: usize = 0;
        while k < 80
            invariant
                k <= 80,
                forall|a: int|
                    0 <= a < 4096 ==> #[trigger] memory@[a] == if FONT_BASE <= a < FONT_BASE + k {
                        table@[a - FONT_BASE]
                    } else {
                        0u8
                    },
            decreases 80 - k,
        {
            memory[FONT_BASE as usize + k] = table[k];
            k += 1;
        }
        let vm = Chip8 {
            memory,
            pc: PROGRAM_START,
            screen: [0; 2048],
            stack: [0; 16],
            i: 0,
            sp: 0,
            registers: [0; 16],
            delay_timer: 0,
            sound_timer: 0,
            keys: [false; 16],
            seen_keys: [false; 16],
            state: ExecState::Running,
            strict: false,
            seed: 0,
        };
        proof {
            let m = Machine::initial();
            assert(vm@.memory =~= m.memory);
            assert(vm@.registers =~= m.registers);
            assert(vm@.stack =~= m.stack);
            assert(vm@.screen =~= m.screen);
            assert(vm@.seen_keys =~= m.seen_keys);
        }
        vm
    }

    /// Copies `rom` into memory from `0x200` on. Fails with `RomTooLarge`,
    /// and loads nothing, exactly when `rom` is longer than 3584 bytes.
    pub fn load_rom(&mut self, rom: &[u8]) -> (r: Result<(), Chip8Error>)
        ensures
            match old(self)@.load_rom(rom@) {
                Ok(loaded) => r == Ok::<(), Chip8Error>(()) && final(self)@ == loaded,
                Err(error) => r == Err::<(), Chip8Error>(error) && *final(self) == *old(self),
            },
            old(self)@.wf() ==> final(self)@.wf(),
    {
        if rom.len() > MAX_PROGRAM_SIZE {
            return Err(Chip8Error::RomTooLarge);
        }
        let mut k: usize = 0;
        while k < rom.len()
            invariant
                k <= rom.len() <= MAX_PROGRAM_SIZE,
                *self == (Chip8 { memory: self.memory, ..*old(self) }),
                forall|a: int|
                    0 <= a < 4096 ==> #[trigger] self.memory@[a] == if PROGRAM_START <= a
                        < PROGRAM_START + k {
                        rom@[a - PROGRAM_START]
                    } else {
                        old(self).memory@[a]
                    },
            decreases rom.len() - k,
        {
            self.memory[PROGRAM_START as usize + k] = rom[k];
            k += 1;
        }
        assert(self@.memory =~= old(self)@.load_rom(rom@).unwrap().memory);
        Ok(())
    }

    /// Reads the instruction word at the program counter, high byte first.
    /// Fails with `MemoryFault` exactly when one of its two bytes lies
    /// outside memory.
    pub fn fetch(&self) -> (r: Result<u16, Chip8Error>)
        ensures
            match self@.fetch() {
                Ok(opcode) => r == Ok::<u16, Chip8Error>(opcode as u16) && opcode == opcode as u16,
                Err(error) => r == Err::<u16, Chip8Error>(error),
            },
    {
        if self.pc >= 4095 {
            return Err(Chip8Error::MemoryFault);
        }
        let at: usize = self.pc as usize;
        Ok(word(self.memory[at], self.memory[at + 1]))
    }

    /// `00E0`: blanks the display.
    pub fn clear_screen(&mut self)
        ensures
            final(self)@ == old(self)@.clear_screen(),
    {
        display::clear(&mut self.screen);
    }

    /// `00EE`: pops the newest return address into the program counter.
    /// Fails with `StackUnderflow` exactly when the stack is empty.
    pub fn return_from_subroutine(&mut self) -> (r: Result<(), Chip8Error>)
        ensures
            match old(self)@.return_from_subroutine() {
                Ok(after) => r == Ok::<(), Chip8Error>(()) && final(self)@ == after,
                Err(error) => r == Err::<(), Chip8Error>(error) && *final(self) == *old(self),
            },
    {
        if self.sp == 0 {
            return Err(Chip8Error::StackUnderflow);
        }
        if self.sp > 16 {
            return Err(Chip8Error::StackOverflow);
        }
        self.sp -= 1;
        self.pc = self.stack[self.sp as usize];
        Ok(())
    }

    /// `1nnn`: sets the program counter to `address`.
    pub fn jump_to_address(&mut self, address: u16)
        ensures
            final(self)@ == old(self)@.jump_to_address(address as int),
    {
        self.pc = address;
    }

    /// `Annn`: sets the index register to `value`.
    pub fn set_index_register(&mut self, value: u16)
        ensures
            final(self)@ == old(self)@.set_index_register(value as int),
    {
        self.i = value;
    }

    /// Reads register `register`.
    pub fn register(&self, register: u16) -> (value: u8)
        requires
            register < 16,
        ensures
            value == self@.registers[register as int],
    {
        self.registers[register as usize]
    }

    /// `6xkk`: sets register `register` to `value`.
    pub fn set_register(&mut self, register: u16, value: u8)
        requires
            register < 16,
        ensures
            final(self)@ == old(self)@.set_register(register as int, value),
    {
        self.registers[register as usize] = value;
    }

    /// `7xkk`: adds `value` to register `register`, modulo 256. The flag
    /// register is not written.
    pub fn add_to_register(&mut self, register: u16, value: u8)
        requires
            register < 16,
        ensures
            final(self)@ == old(self)@.add_to_register(register as int, value),
    {
        let sum: u8 = self.registers[register as usize].wrapping_add(value);
        self.registers[register as usize] = sum;
    }

    /// `8xy0`: copies register `source` to register `target`.
    pub fn set_register_to_register(&mut self, target: u16, source: u16)
        requires
            target < 16,
            source < 16,
        ensures
            final(self)@ == old(self)@.set_register_to_register(target as int, source as int),
    {
        self.registers[target as usize] = self.registers[source as usize];
    }

    /// Writes `result` to register `target`, then the flag for `condition`
    /// to `VF`.
    fn set_register_and_flag(&mut self, target: u16, result: u8, condition: bool)
        requires
            target < 16,
        ensures
            final(self)@ == old(self)@.set_register_and_flag(target as int, result, condition),
    {
        self.registers[target as usize] = result;
        self.registers[0xF] = if condition {
            1
        } else {
            0
        };
    }

    /// `8xy4`: adds register `source` to register `target`, modulo 256, and
    /// sets `VF` to 1 if the sum exceeds 255, else to 0.
    pub fn add_registers(&mut self, target: u16, source: u16)
        requires
            target < 16,
            source < 16,
        ensures
            final(self)@ == old(self)@.add_registers(target as int, source as int),
    {
        let a: u8 = self.registers[target as usize];
        let b: u8 = self.registers[source as usize];
        let sum: u16 = a as u16 + b as u16;
        self.set_register_and_flag(target, (sum % 256) as u8, sum > 255);
    }

    /// `8xy5`: subtracts register `source` from register `target`, modulo
    /// 256, and sets `VF` to 1 if there was no borrow (`target >= source`
    /// before), else to 0.
    pub fn subtract_registers(&mut self, target: u16, source: u16)
        requires
            target < 16,
            source < 16,
        ensures
            final(self)@ == old(self)@.subtract_registers(target as int, source as int),
    {
        let a: u8 = self.registers[target as usize];
        let b: u8 = self.registers[source as usize];
        self.set_register_and_flag(target, a.wrapping_sub(b), a >= b);
    }

    /// `8xy7`: sets register `target` to register `source` minus register
    /// `target`, modulo 256, and sets `VF` to 1 if there was no borrow
    /// (`source >= target` before), else to 0.
    pub fn subtract_reversed(&mut self, target: u16, source: u16)
        requires
            target < 16,
            source < 16,
        ensures
            final(self)@ == old(self)@.subtract_reversed(target as int, source as int),
    {
        let a: u8 = self.registers[target as usize];
        let b: u8 = self.registers[source as usize];
        self.set_register_and_flag(target, b.wrapping_sub(a), b >= a);
    }

    /// `8xy1`: ors register `source` into register `target`.
    pub fn or_registers(&mut self, target: u16, source: u16)
        requires
            target < 16,
            source < 16,
        ensures
            final(self)@ == old(self)@.or_registers(target as int, source as int),
    {
        let a: u8 = self.registers[target as usize];
        let b: u8 = self.registers[source as usize];
        self.registers[target as usize] = a | b;
    }

    /// `8xy2`: ands register `source` into register `target`.
    pub fn and_registers(&mut self, target: u16, source: u16)
        requires
            target < 16,
            source < 16,
        ensures
            final(self)@ == old(self)@.and_registers(target as int, source as int),
    {
        let a: u8 = self.registers[target as usize];
        let b: u8 = self.registers[source as usize];
        self.registers[target as usize] = a & b;
    }

    /// `8xy3`: xors register `source` into register `target`.
    pub fn xor_registers(&mut self, target: u16, source: u16)
        requires
            target < 16,
            source < 16,
        ensures
            final(self)@ == old(self)@.xor_registers(target as int, source as int),
    {
        let a: u8 = self.registers[target as usize];
        let b: u8 = self.registers[source as usize];
        self.registers[target as usize] = a ^ b;
    }

    /// `8xy6`: shifts register `register` right by one and sets `VF` to the
    /// bit shifted out.
    pub fn shift_right(&mut self, register: u16)
        requires
            register < 16,
        ensures
            final(self)@ == old(self)@.shift_right(register as int),
    {
        let a: u8 = self.registers[register as usize];
        assert(a >> 1 == a / 2 && (a & 1 == 1) == (a % 2 == 1)) by (bit_vector);
        self.set_register_and_flag(register, a >> 1, a & 1 == 1);
    }

    /// `8xyE`: shifts register `register` left by one, modulo 256, and sets
    /// `VF` to the bit shifted out.
    pub fn shift_left(&mut self, register: u16)
        requires
            register < 16,
        ensures
            final(self)@ == old(self)@.shift_left(register as int),
    {
        let a: u8 = self.registers[register as usize];
        assert(a << 1 == (a * 2) % 256 && (a & 0x80 != 0) == (a >= 128)) by (bit_vector);
        self.set_register_and_flag(register, a << 1, a & 0x80 != 0);
    }

    /// Moves the program counter past one instruction, modulo 65536.
    pub fn advance(&mut self)
        ensures
            final(self)@ == old(self)@.advance(),
    {
        self.pc = self.pc.wrapping_add(2);
    }

    /// Skips the next instruction if `condition` holds.
    pub fn skip_next_if(&mut self, condition: bool)
        ensures
            final(self)@ == old(self)@.skip_next_if(condition),
    {
        if condition {
            self.advance();
        }
    }

    /// `2nnn`: pushes the program counter and sets it to `address`. Fails
    /// with `StackOverflow` exactly when sixteen return addresses are on the
    /// stack.
    pub fn call_subroutine(&mut self, address: u16) -> (r: Result<(), Chip8Error>)
        ensures
            match old(self)@.call_subroutine(address as int) {
                Ok(after) => r == Ok::<(), Chip8Error>(()) && final(self)@ == after,
                Err(error) => r == Err::<(), Chip8Error>(error) && *final(self) == *old(self),
            },
    {
        if self.sp >= 16 {
            return Err(Chip8Error::StackOverflow);
        }
        self.stack[self.sp as usize] = self.pc;
        self.sp += 1;
        self.pc = address;
        Ok(())
    }

    /// `Bnnn`: sets the program counter to `address` plus `V0`.
    pub fn jump_with_offset(&mut self, address: u16)
        requires
            address < 0x1000,
        ensures
            final(self)@ == old(self)@.jump_with_offset(address as int),
    {
        self.pc = address + self.registers[0] as u16;
    }

    /// `Cxkk`: steps the generator and sets register `register` to its byte
    /// under `mask`.
    pub fn set_random(&mut self, register: u16, mask: u8)
        requires
            register < 16,
        ensures
            final(self)@ == old(self)@.set_random(register as int, mask),
    {
        let next: u32 = (self.seed as u32 * 25173 + 13849) % 0x10000;
        self.seed = next as u16;
        self.registers[register as usize] = ((next / 0x100) as u8) & mask;
    }

    /// `Dxyn`: draws the sprite of `rows` bytes at `I` with its top left
    /// corner at `(Vx mod 64, Vy mod 32)`, clipped at the right and bottom
    /// edges, and sets `VF` to 1 if a lit pixel was turned off, else to 0.
    /// Fails with `MemoryFault` exactly when the sprite does not lie in
    /// memory.
    pub fn draw_sprite(&mut self, x: u16, y: u16, rows: u16) -> (r: Result<(), Chip8Error>)
        requires
            x < 16,
            y < 16,
        ensures
            match old(self)@.draw_sprite(x as int, y as int, rows as int) {
                Ok(after) => r == Ok::<(), Chip8Error>(()) && final(self)@ == after,
                Err(error) => r == Err::<(), Chip8Error>(error) && *final(self) == *old(self),
            },
    {
        let count: usize = rows as usize;
        if count > 0 && self.i as usize + count > 4096 {
            return Err(Chip8Error::MemoryFault);
        }
        let base: usize = if count > 0 {
            self.i as usize
        } else {
            0
        };
        let x0: usize = (self.registers[x as usize] % 64) as usize;
        let y0: usize = (self.registers[y as usize] % 32) as usize;
        assert(self.memory@.subrange(base as int, base + count) =~= self@.sprite(rows as int));
        let collision = display::draw_sprite(&mut self.screen, &self.memory, base, count, x0, y0);
        self.registers[0xF] = if collision {
            1
        } else {
            0
        };
        Ok(())
    }

    /// Whether the key named by the low nibble of register `register` is
    /// down.
    pub fn key_pressed(&self, register: u16) -> (down: bool)
        requires
            register < 16,
        ensures
            down == self@.key_pressed(register as int),
    {
        let key: u8 = self.registers[register as usize] % 16;
        self.keys[key as usize]
    }

    /// `Fx07`: sets register `register` to the delay timer.
    pub fn read_delay_timer(&mut self, register: u16)
        requires
            register < 16,
        ensures
            final(self)@ == old(self)@.read_delay_timer(register as int),
    {
        self.registers[register as usize] = self.delay_timer;
    }

    /// `Fx15`: sets the delay timer to register `register`.
    pub fn set_delay_timer(&mut self, register: u16)
        requires
            register < 16,
        ensures
            final(self)@ == old(self)@.set_delay_timer(register as int),
    {
        self.delay_timer = self.registers[register as usize];
    }

    /// `Fx18`: sets the sound timer to register `register`.
    pub fn set_sound_timer(&mut self, register: u16)
        requires
            register < 16,
        ensures
            final(self)@ == old(self)@.set_sound_timer(register as int),
    {
        self.sound_timer = self.registers[register as usize];
    }

    /// `Fx1E`: adds register `register` to the index register, modulo
    /// 65536. No flag is written.
    pub fn add_to_index(&mut self, register: u16)
        requires
            register < 16,
        ensures
            final(self)@ == old(self)@.add_to_index(register as int),
    {
        self.i = self.i.wrapping_add(self.registers[register as usize] as u16);
    }

    /// `Fx29`: points the index register at the glyph for the digit in the
    /// low nibble of register `register`.
    pub fn set_index_to_glyph(&mut self, register: u16)
        requires
            register < 16,
        ensures
            final(self)@ == old(self)@.set_index_to_glyph(register as int),
    {
        self.i = glyph_address(self.registers[register as usize]);
    }

    /// `Fx33`: stores the hundreds, tens and ones of register `register` at
    /// `I`, `I+1`, `I+2`. Fails with `MemoryFault` exactly when `I + 2` lies
    /// outside memory.
    pub fn store_decimal(&mut self, register: u16) -> (r: Result<(), Chip8Error>)
        requires
            register < 16,
        ensures
            match old(self)@.store_decimal(register as int) {
                Ok(after) => r == Ok::<(), Chip8Error>(()) && final(self)@ == after,
                Err(error) => r == Err::<(), Chip8Error>(error) && *final(self) == *old(self),
            },
    {
        let at: usize = self.i as usize;
        if at + 2 > 4095 {
            return Err(Chip8Error::MemoryFault);
        }
        let value: u8 = self.registers[register as usize];
        self.memory[at] = value / 100;
        self.memory[at + 1] = (value / 10) % 10;
        self.memory[at + 2] = value % 10;
        Ok(())
    }

    /// `Fx55`: stores `V0` to register `last` at `I` and the addresses after
    /// it. Fails with `MemoryFault` exactly when `I + last` lies outside
    /// memory.
    pub fn store_registers(&mut self, last: u16) -> (r: Result<(), Chip8Error>)
        requires
            last < 16,
        ensures
            match old(self)@.store_registers(last as int) {
                Ok(after) => r == Ok::<(), Chip8Error>(()) && final(self)@ == after,
                Err(error) => r == Err::<(), Chip8Error>(error) && *final(self) == *old(self),
            },
    {
        let at: usize = self.i as usize;
        let count: usize = last as usize + 1;
        if at + count > 4096 {
            return Err(Chip8Error::MemoryFault);
        }
        let mut k: usize = 0;
        while k < count
            invariant
                k <= count <= 16,
                at + count <= 4096,
                at == old(self).i,
                *self == (Chip8 { memory: self.memory, ..*old(self) }),
                forall|a: int|
                    0 <= a < 4096 ==> #[trigger] self.memory@[a] == if at <= a < at + k {
                        old(self).registers@[a - at]
                    } else {
                        old(self).memory@[a]
                    },
            decreases count - k,
        {
            self.memory[at + k] = self.registers[k];
            k += 1;
        }
        assert(self@.memory =~= old(self)@.store_registers(last as int).unwrap().memory);
        Ok(())
    }

    /// `Fx65`: loads `V0` to register `last` from `I` and the addresses
    /// after it. Fails with `MemoryFault` exactly when `I + last` lies
    /// outside memory.
    pub fn load_registers(&mut self, last: u16) -> (r: Result<(), Chip8Error>)
        requires
            last < 16,
        ensures
            match old(self)@.load_registers(last as int) {
                Ok(after) => r == Ok::<(), Chip8Error>(()) && final(self)@ == after,
                Err(error) => r == Err::<(), Chip8Error>(error) && *final(self) == *old(self),
            },
    {
        let at: usize = self.i as usize;
        let count: usize = last as usize + 1;
        if at + count > 4096 {
            return Err(Chip8Error::MemoryFault);
        }
        let mut k: usize = 0;
        while k < count
            invariant
                k <= count <= 16,
                at + count <= 4096,
                at == old(self).i,
                *self == (Chip8 { registers: self.registers, ..*old(self) }),
                forall|r: int|
                    0 <= r < 16 ==> #[trigger] self.registers@[r] == if r < k {
                        old(self).memory@[at + r]
                    } else {
                        old(self).registers@[r]
                    },
            decreases count - k,
        {
            self.registers[k] = self.memory[at + k];
            k += 1;
        }
        assert(self@.registers =~= old(self)@.load_registers(last as int).unwrap().registers);
        Ok(())
    }

    /// `Fx0A`, first met: suspends the machine on the instruction and notes
    /// the keys as they are.
    pub fn wait_for_key(&mut self)
        ensures
            final(self)@ == old(self)@.wait_for_key(),
    {
        self.state = ExecState::WaitingForKey;
        self.seen_keys = self.keys;
    }

    /// A step of a suspended machine whose pending key-wait names register
    /// `register`. If a key went down since the last look, the lowest such
    /// key goes to the register, the program counter moves past the
    /// key-wait, the machine runs again and the result is `Continue`.
    /// Otherwise the keys are noted and the result is `AwaitKey`.
    pub fn poll_key(&mut self, register: u16) -> (signal: Signal)
        requires
            register < 16,
        ensures
            final(self)@ == old(self)@.poll_key(register as int).0,
            signal == old(self)@.poll_key(register as int).1,
    {
        let found = find_new_key(&self.seen_keys, &self.keys);
        self.seen_keys = self.keys;
        match found {
            Some(key) => {
                self.state = ExecState::Running;
                self.registers[register as usize] = key;
                self.advance();
                Signal::Continue
            },
            None => Signal::AwaitKey,
        }
    }

    /// Carries out `instruction` on a machine whose program counter has
    /// moved past it. The key-wait and the exit instruction do nothing here:
    /// `execute` handles them. An instruction that fails changes nothing.
    pub fn perform(&mut self, instruction: Instruction) -> (r: Result<(), Chip8Error>)
        requires
            instruction.wf(),
        ensures
            match old(self)@.perform(instruction) {
                Ok(after) => r == Ok::<(), Chip8Error>(()) && final(self)@ == after,
                Err(error) => r == Err::<(), Chip8Error>(error) && *final(self) == *old(self),
            },
    {
        reveal(Machine::perform);
        match instruction {
            Instruction::ClearScreen => {
                self.clear_screen();
                Ok(())
            },
            Instruction::Return => self.return_from_subroutine(),
            Instruction::Exit => Ok(()),
            Instruction::Jump { address } => {
                self.jump_to_address(address);
                Ok(())
            },
            Instruction::Call { address } => self.call_subroutine(address),
            Instruction::SkipEqual { x, value } => {
                let equal = self.register(x) == value;
                self.skip_next_if(equal);
                Ok(())
            },
            Instruction::SkipNotEqual { x, value } => {
                let differ = self.register(x) != value;
                self.skip_next_if(differ);
                Ok(())
            },
            Instruction::SkipRegistersEqual { x, y } => {
                let equal = self.register(x) == self.register(y);
                self.skip_next_if(equal);
                Ok(())
            },
            Instruction::SetRegister { x, value } => {
                self.set_register(x, value);
                Ok(())
            },
            Instruction::AddToRegister { x, value } => {
                self.add_to_register(x, value);
                Ok(())
            },
            Instruction::CopyRegister { x, y } => {
                self.set_register_to_register(x, y);
                Ok(())
            },
            Instruction::OrRegisters { x, y } => {
                self.or_registers(x, y);
                Ok(())
            },
            Instruction::AndRegisters { x, y } => {
                self.and_registers(x, y);
                Ok(())
            },
            Instruction::XorRegisters { x, y } => {
                self.xor_registers(x, y);
                Ok(())
            },
            Instruction::AddRegisters { x, y } => {
                self.add_registers(x, y);
                Ok(())
            },
            Instruction::SubtractRegisters { x, y } => {
                self.subtract_registers(x, y);
                Ok(())
            },
            Instruction::ShiftRight { x, .. } => {
                self.shift_right(x);
                Ok(())
            },
            Instruction::SubtractReversed { x, y } => {
                self.subtract_reversed(x, y);
                Ok(())
            },
            Instruction::ShiftLeft { x, .. } => {
                self.shift_left(x);
                Ok(())
            },
            Instruction::SkipRegistersNotEqual { x, y } => {
                let differ = self.register(x) != self.register(y);
                self.skip_next_if(differ);
                Ok(())
            },
            Instruction::SetIndex { address } => {
                self.set_index_register(address);
                Ok(())
            },
            Instruction::JumpOffset { address } => {
                self.jump_with_offset(address);
                Ok(())
            },
            Instruction::Random { x, mask } => {
                self.set_random(x, mask);
                Ok(())
            },
            Instruction::Draw { x, y, rows } => self.draw_sprite(x, y, rows),
            Instruction::SkipKeyPressed { x } => {
                let down = self.key_pressed(x);
                self.skip_next_if(down);
                Ok(())
            },
            Instruction::SkipKeyReleased { x } => {
                let down = self.key_pressed(x);
                self.skip_next_if(!down);
                Ok(())
            },
            Instruction::ReadDelay { x } => {
                self.read_delay_timer(x);
                Ok(())
            },
            Instruction::WaitKey { .. } => Ok(()),
            Instruction::SetDelay { x } => {
                self.set_delay_timer(x);
                Ok(())
            },
            Instruction::SetSound { x } => {
                self.set_sound_timer(x);
                Ok(())
            },
            Instruction::AddToIndex { x } => {
                self.add_to_index(x);
                Ok(())
            },
            Instruction::GlyphAddress { x } => {
                self.set_index_to_glyph(x);
                Ok(())
            },
            Instruction::StoreDecimal { x } => self.store_decimal(x),
            Instruction::StoreRegisters { x } => self.store_registers(x),
            Instruction::LoadRegisters { x } => self.load_registers(x),
        }
    }

    /// Executes `instruction` on a machine whose program counter is on it,
    /// without looking at the executor state. A key-wait suspends the machine where it stands and yields
    /// `AwaitKey`; the exit instruction yields `Halt`; every other
    /// instruction yields `Continue`. An instruction that fails changes
    /// nothing.
    pub fn execute(&mut self, instruction: Instruction) -> (r: Result<Signal, Chip8Error>)
        requires
            instruction.wf(),
        ensures
            final(self)@ == old(self)@.execute(instruction).0,
            r == old(self)@.execute(instruction).1,
            r is Err ==> *final(self) == *old(self),
    {
        match instruction {
            Instruction::WaitKey { .. } => {
                self.wait_for_key();
                Ok(Signal::AwaitKey)
            },
            Instruction::Exit => {
                self.advance();
                Ok(Signal::Halt)
            },
            _ => {
                let at: u16 = self.pc;
                self.advance();
                match self.perform(instruction) {
                    Ok(()) => Ok(Signal::Continue),
                    Err(error) => {
                        self.pc = at;
                        proof {
                            lemma_view_injective(*self, *old(self));
                        }
                        Err(error)
                    },
                }
            },
        }
    }

    /// Decodes `opcode` and executes it on a machine whose program counter
    /// is on it, without looking at the executor state. A word that is no instruction is stepped over and
    /// reported as `Skipped` under the lenient policy; under the strict
    /// policy it is the error `UnknownOpcode` and nothing changes.
    pub fn decode_and_execute(&mut self, opcode: u16) -> (r: Result<Signal, Chip8Error>)
        ensures
            final(self)@ == old(self)@.decode_and_execute(opcode as int).0,
            r == old(self)@.decode_and_execute(opcode as int).1,
            r is Err ==> *final(self) == *old(self),
    {
        match decode(opcode) {
            Some(instruction) => self.execute(instruction),
            None => {
                if self.strict {
                    Err(Chip8Error::UnknownOpcode(opcode))
                } else {
                    self.advance();
                    Ok(Signal::Skipped(opcode))
                }
            },
        }
    }

    /// One step of the machine. Fetches the word at the program counter and
    /// fails with `MemoryFault` if it lies outside memory. A running machine
    /// then executes the word; a suspended machine looks for the key it
    /// awaits. A step that fails changes nothing, and no step takes the
    /// stack pointer out of the stack or the display out of `0` and `1`.
    pub fn cycle(&mut self) -> (r: Result<Signal, Chip8Error>)
        ensures
            final(self)@ == old(self)@.step().0,
            r == old(self)@.step().1,
            r is Err ==> *final(self) == *old(self),
            old(self)@.wf() ==> final(self)@.wf(),
    {
        proof {
            if self@.wf() {
                lemma_step_preserves_wf(*self);
            }
        }
        let opcode: u16 = match self.fetch() {
            Ok(opcode) => opcode,
            Err(error) => {
                return Err(error);
            },
        };
        match self.state {
            ExecState::Running => self.decode_and_execute(opcode),
            ExecState::WaitingForKey => Ok(self.poll_key(register_x(opcode))),
        }
    }

    /// One tick of the 60 Hz clock: each timer that is not zero counts down
    /// by one.
    pub fn tick_timers(&mut self)
        ensures
            final(self)@ == old(self)@.tick_timers(),
    {
        if self.delay_timer > 0 {
            self.delay_timer -= 1;
        }
        if self.sound_timer > 0 {
            self.sound_timer -= 1;
        }
    }

    /// Records that key `key` went down (`pressed`) or up.
    pub fn set_key_state(&mut self, key: u8, pressed: bool)
        requires
            key < 16,
        ensures
            final(self)@ == old(self)@.set_key_state(key as int, pressed),
    {
        self.keys[key as usize] = pressed;
    }

    /// The display, row by row: cell `y * 64 + x` is pixel `(x, y)`.
    pub fn display_snapshot(&self) -> (cells: &[u8; 2048])
        ensures
            cells@ == self@.screen,
    {
        &self.screen
    }

    /// Whether a tone is due: the sound timer is not zero.
    pub fn sound_active(&self) -> (active: bool)
        ensures
            active == self@.sound_active(),
    {
        self.sound_timer > 0
    }

    /// Whether the machine is suspended on a key-wait.
    pub fn is_waiting_for_key(&self) -> (waiting: bool)
        ensures
            waiting == (self@.state == ExecState::WaitingForKey),
    {
        match self.state {
            ExecState::WaitingForKey => true,
            ExecState::Running => false,
        }
    }

    /// Chooses the policy for a word that is no instruction: `true` to stop
    /// on it, `false` to report it and step over it.
    pub fn set_strict(&mut self, strict: bool)
        ensures
            final(self)@ == (Machine { strict, ..old(self)@ }),
    {
        self.strict = strict;
    }

    /// Sets the state of the random byte generator.
    pub fn seed_random(&mut self, seed: u16)
        ensures
            final(self)@ == (Machine { seed: seed as int, ..old(self)@ }),
    {
        self.seed = seed;
    }
}

} // verus!
