//! The mathematical model of the machine: its state as sequences and
//! integers, and the meaning of every operation as a function on that state.

use vstd::prelude::*;
use crate::display::{blank, collides, drawn, is_bitmap};
use crate::font::{font, glyph_address_of, FONT_BASE, FONT_BYTES};
use crate::keypad::first_new_key;
use crate::opcode::{decoded, word_of, x_of, Instruction};
use crate::status::{Chip8Error, ExecState, Signal};

verus! {

/// Bytes of memory.
pub const MEMORY_SIZE: usize = 4096;

/// Address at which programs are loaded and start.
pub const PROGRAM_START: u16 = 0x200;

/// Largest program that fits between the load address and the end of memory.
pub const MAX_PROGRAM_SIZE: usize = 3584;

/// Return addresses the stack can hold.
pub const STACK_DEPTH: u8 = 16;

/// Index of `VF`, the flag register.
pub const FLAG: usize = 15;

/// The state of a machine.
pub struct Machine {
    /// The 4096 bytes of memory.
    pub memory: Seq<u8>,
    /// `V0` to `VF`.
    pub registers: Seq<u8>,
    /// The index register `I`.
    pub index: int,
    /// The program counter.
    pub pc: int,
    /// The sixteen stack slots; the slots below `sp` hold the return
    /// addresses, the oldest first.
    pub stack: Seq<u16>,
    /// Number of return addresses on the stack.
    pub sp: int,
    /// The delay timer.
    pub delay: int,
    /// The sound timer.
    pub sound: int,
    /// The 2048 cells of the display, row by row.
    pub screen: Seq<u8>,
    /// The sixteen keys, `true` for a key that is down.
    pub keys: Seq<bool>,
    /// The keys as a pending key-wait last saw them.
    pub seen_keys: Seq<bool>,
    /// Whether a key-wait is pending.
    pub state: ExecState,
    /// Whether a word that is no instruction stops the machine.
    pub strict: bool,
    /// State of the random byte generator.
    pub seed: int,
}

/// The generator's next state: a linear congruential step modulo 65536.
pub open spec fn next_seed(seed: int) -> int {
    (seed * 25173 + 13849) % 0x10000
}

/// The byte a generator state yields: its high byte.
pub open spec fn random_byte(seed: int) -> u8 {
    (seed / 0x100) as u8
}

/// The flag value for a condition.
pub open spec fn flag(condition: bool) -> u8 {
    if condition {
        1
    } else {
        0
    }
}

impl Machine {
    /// The stack pointer is within the stack and the display holds only
    /// `0` and `1`.
    pub open spec fn wf(self) -> bool {
        &&& 0 <= self.sp <= 16
        &&& is_bitmap(self.screen)
    }

    /// A new machine: the font in memory, the program counter at the load
    /// address, everything else zero, running, lenient.
    pub open spec fn initial() -> Machine {
        Machine {
            memory: Seq::new(
                4096,
                |a: int|
                    if FONT_BASE <= a < FONT_BASE + FONT_BYTES {
                        font()[a - FONT_BASE]
                    } else {
                        0u8
                    },
            ),
            registers: Seq::new(16, |r: int| 0u8),
            index: 0,
            pc: PROGRAM_START as int,
            stack: Seq::new(16, |s: int| 0u16),
            sp: 0,
            delay: 0,
            sound: 0,
            screen: blank(),
            keys: Seq::new(16, |k: int| false),
            seen_keys: Seq::new(16, |k: int| false),
            state: ExecState::Running,
            strict: false,
            seed: 0,
        }
    }

    /// The machine with `rom` copied to the load address; `RomTooLarge`
    /// exactly when `rom` is longer than the room there.
    pub open spec fn load_rom(self, rom: Seq<u8>) -> Result<Machine, Chip8Error> {
        if rom.len() > MAX_PROGRAM_SIZE {
            Err(Chip8Error::RomTooLarge)
        } else {
            Ok(
                Machine {
                    memory: Seq::new(
                        4096,
                        |a: int|
                            if PROGRAM_START <= a < PROGRAM_START + rom.len() {
                                rom[a - PROGRAM_START]
                            } else {
                                self.memory[a]
                            },
                    ),
                    ..self
                },
            )
        }
    }

    /// Both bytes of the instruction word at the program counter lie in memory.
    pub open spec fn can_fetch(self) -> bool {
        0 <= self.pc && self.pc + 1 < 4096
    }

    /// The instruction word at the program counter, high byte first.
    pub open spec fn fetch(self) -> Result<int, Chip8Error> {
        if self.can_fetch() {
            Ok(word_of(self.memory[self.pc], self.memory[self.pc + 1]))
        } else {
            Err(Chip8Error::MemoryFault)
        }
    }

    /// The program counter moved past one instruction. The counter has
    /// sixteen bits.
    pub open spec fn advance(self) -> Machine {
        Machine { pc: (self.pc + 2) % 0x10000, ..self }
    }

    /// `3xkk`, `4xkk`, `5xy0`, `9xy0`, `Ex9E`, `ExA1`: the next instruction
    /// is skipped if `condition` holds.
    pub open spec fn skip_next_if(self, condition: bool) -> Machine {
        if condition {
            self.advance()
        } else {
            self
        }
    }

    /// `00E0`.
    pub open spec fn clear_screen(self) -> Machine {
        Machine { screen: blank(), ..self }
    }

    /// `00EE`: the newest return address becomes the program counter.
    /// `StackUnderflow` on an empty stack; a stack pointer past the stack is
    /// reported as `StackOverflow`.
    pub open spec fn return_from_subroutine(self) -> Result<Machine, Chip8Error> {
        if self.sp <= 0 {
            Err(Chip8Error::StackUnderflow)
        } else if self.sp > 16 {
            Err(Chip8Error::StackOverflow)
        } else {
            Ok(Machine { pc: self.stack[self.sp - 1] as int, sp: self.sp - 1, ..self })
        }
    }

    /// `1nnn`.
    pub open spec fn jump_to_address(self, address: int) -> Machine {
        Machine { pc: address, ..self }
    }

    /// `2nnn`: the program counter is pushed, then set to `address`.
    /// `StackOverflow` exactly when the stack is full.
    pub open spec fn call_subroutine(self, address: int) -> Result<Machine, Chip8Error> {
        if self.sp >= 16 {
            Err(Chip8Error::StackOverflow)
        } else {
            Ok(
                Machine {
                    stack: self.stack.update(self.sp, self.pc as u16),
                    sp: self.sp + 1,
                    pc: address,
                    ..self
                },
            )
        }
    }

    /// `6xkk`.
    pub open spec fn set_register(self, x: int, value: u8) -> Machine {
        Machine { registers: self.registers.update(x, value), ..self }
    }

    /// `7xkk`: the sum modulo 256; the flag register is not written.
    pub open spec fn add_to_register(self, x: int, value: u8) -> Machine {
        self.set_register(x, ((self.registers[x] + value) % 256) as u8)
    }

    /// `8xy0`.
    pub open spec fn set_register_to_register(self, x: int, y: int) -> Machine {
        self.set_register(x, self.registers[y])
    }

    /// `8xy1`.
    pub open spec fn or_registers(self, x: int, y: int) -> Machine {
        self.set_register(x, self.registers[x] | self.registers[y])
    }

    /// `8xy2`.
    pub open spec fn and_registers(self, x: int, y: int) -> Machine {
        self.set_register(x, self.registers[x] & self.registers[y])
    }

    /// `8xy3`.
    pub open spec fn xor_registers(self, x: int, y: int) -> Machine {
        self.set_register(x, self.registers[x] ^ self.registers[y])
    }

    /// `Vx = result`, then `VF = flag`: where `x` is the flag register
    /// itself, the flag stands.
    pub open spec fn set_register_and_flag(self, x: int, result: u8, condition: bool) -> Machine {
        self.set_register(x, result).set_register(FLAG as int, flag(condition))
    }

    /// `8xy4`: the sum modulo 256; the flag is set exactly when the sum
    /// exceeds 255.
    pub open spec fn add_registers(self, x: int, y: int) -> Machine {
        let sum = self.registers[x] + self.registers[y];
        self.set_register_and_flag(x, (sum % 256) as u8, sum > 255)
    }

    /// `8xy5`: `Vx - Vy` modulo 256; the flag is set exactly when `Vx >= Vy`.
    pub open spec fn subtract_registers(self, x: int, y: int) -> Machine {
        let vx = self.registers[x];
        let vy = self.registers[y];
        self.set_register_and_flag(x, ((vx - vy) % 256) as u8, vx >= vy)
    }

    /// `8xy7`: `Vy - Vx` modulo 256; the flag is set exactly when `Vy >= Vx`.
    pub open spec fn subtract_reversed(self, x: int, y: int) -> Machine {
        let vx = self.registers[x];
        let vy = self.registers[y];
        self.set_register_and_flag(x, ((vy - vx) % 256) as u8, vy >= vx)
    }

    /// `8xy6`: `Vx` halved; the flag is the bit shifted out.
    pub open spec fn shift_right(self, x: int) -> Machine {
        let vx = self.registers[x];
        self.set_register_and_flag(x, vx / 2, vx % 2 == 1)
    }

    /// `8xyE`: `Vx` doubled modulo 256; the flag is the bit shifted out.
    pub open spec fn shift_left(self, x: int) -> Machine {
        let vx = self.registers[x];
        self.set_register_and_flag(x, ((vx * 2) % 256) as u8, vx >= 128)
    }

    /// `Annn`.
    pub open spec fn set_index_register(self, value: int) -> Machine {
        Machine { index: value, ..self }
    }

    /// `Bnnn`.
    pub open spec fn jump_with_offset(self, address: int) -> Machine {
        Machine { pc: address + self.registers[0], ..self }
    }

    /// `Cxkk`: the generator steps once and `Vx` is its byte under `mask`.
    pub open spec fn set_random(self, x: int, mask: u8) -> Machine {
        let seed = next_seed(self.seed);
        Machine { seed, ..self }.set_register(x, random_byte(seed) & mask)
    }

    /// The sprite of `rows` bytes at the index register; the empty sprite
    /// where `rows` is zero, whatever the index register holds.
    pub open spec fn sprite(self, rows: int) -> Seq<u8> {
        if rows > 0 {
            self.memory.subrange(self.index, self.index + rows)
        } else {
            Seq::empty()
        }
    }

    /// `Dxyn`: the sprite of `rows` bytes at `I` is drawn at
    /// `(Vx mod 64, Vy mod 32)`, clipped at the right and bottom edges; the
    /// flag is set exactly when a lit cell was turned off. `MemoryFault`
    /// exactly when the sprite does not lie in memory.
    pub open spec fn draw_sprite(self, x: int, y: int, rows: int) -> Result<Machine, Chip8Error> {
        let x0 = self.registers[x] % 64;
        let y0 = self.registers[y] % 32;
        if rows > 0 && self.index + rows > 4096 {
            Err(Chip8Error::MemoryFault)
        } else {
            let sprite = self.sprite(rows);
            Ok(
                Machine {
                    screen: drawn(self.screen, sprite, x0 as int, y0 as int),
                    ..self
                }.set_register(
                    FLAG as int,
                    flag(collides(self.screen, sprite, x0 as int, y0 as int)),
                ),
            )
        }
    }

    /// The key named by the low nibble of `Vx` is down.
    pub open spec fn key_pressed(self, x: int) -> bool {
        self.keys[(self.registers[x] % 16) as int]
    }

    /// `Fx07`.
    pub open spec fn read_delay_timer(self, x: int) -> Machine {
        self.set_register(x, self.delay as u8)
    }

    /// `Fx15`.
    pub open spec fn set_delay_timer(self, x: int) -> Machine {
        Machine { delay: self.registers[x] as int, ..self }
    }

    /// `Fx18`.
    pub open spec fn set_sound_timer(self, x: int) -> Machine {
        Machine { sound: self.registers[x] as int, ..self }
    }

    /// `Fx1E`: the sum modulo 65536; no flag.
    pub open spec fn add_to_index(self, x: int) -> Machine {
        Machine { index: (self.index + self.registers[x]) % 0x10000, ..self }
    }

    /// `Fx29`: the digit is the low nibble of `Vx`.
    pub open spec fn set_index_to_glyph(self, x: int) -> Machine {
        Machine { index: glyph_address_of(self.registers[x]), ..self }
    }

    /// `Fx33`: hundreds, tens and ones of `Vx` at `I`, `I+1`, `I+2`.
    /// `MemoryFault` exactly when `I + 2` lies outside memory.
    pub open spec fn store_decimal(self, x: int) -> Result<Machine, Chip8Error> {
        let vx = self.registers[x];
        if self.index + 2 > 4095 {
            Err(Chip8Error::MemoryFault)
        } else {
            Ok(
                Machine {
                    memory: self.memory.update(self.index, vx / 100).update(
                        self.index + 1,
                        (vx / 10) % 10,
                    ).update(self.index + 2, vx % 10),
                    ..self
                },
            )
        }
    }

    /// `Fx55`: `V0..=Vx` at `I..=I+x`; `I` stays. `MemoryFault` exactly when
    /// `I + x` lies outside memory.
    pub open spec fn store_registers(self, x: int) -> Result<Machine, Chip8Error> {
        if self.index + x > 4095 {
            Err(Chip8Error::MemoryFault)
        } else {
            Ok(
                Machine {
                    memory: Seq::new(
                        4096,
                        |a: int|
                            if self.index <= a <= self.index + x {
                                self.registers[a - self.index]
                            } else {
                                self.memory[a]
                            },
                    ),
                    ..self
                },
            )
        }
    }

    /// `Fx65`: `V0..=Vx` from `I..=I+x`; `I` stays. `MemoryFault` exactly
    /// when `I + x` lies outside memory.
    pub open spec fn load_registers(self, x: int) -> Result<Machine, Chip8Error> {
        if self.index + x > 4095 {
            Err(Chip8Error::MemoryFault)
        } else {
            Ok(
                Machine {
                    registers: Seq::new(
                        16,
                        |r: int|
                            if r <= x {
                                self.memory[self.index + r]
                            } else {
                                self.registers[r]
                            },
                    ),
                    ..self
                },
            )
        }
    }

    /// `Fx0A`, first met: the machine suspends with the program counter on
    /// the instruction and remembers the keys as they are, so that only a key
    /// that goes down from now on ends the wait.
    pub open spec fn wait_for_key(self) -> Machine {
        Machine { state: ExecState::WaitingForKey, seen_keys: self.keys, ..self }
    }

    /// A step of a suspended machine whose pending key-wait names `Vx`: if
    /// a key went down since the last look, the lowest such key goes to `Vx`,
    /// the instruction is retired and the machine runs again; else the
    /// machine notes the keys and stays suspended.
    pub open spec fn poll_key(self, x: int) -> (Machine, Signal) {
        match first_new_key(self.seen_keys, self.keys) {
            Some(key) => (
                Machine { state: ExecState::Running, seen_keys: self.keys, ..self }.set_register(
                    x,
                    key,
                ).advance(),
                Signal::Continue,
            ),
            None => (Machine { seen_keys: self.keys, ..self }, Signal::AwaitKey),
        }
    }

    /// The effect of `instruction` on a machine whose program counter has
    /// moved past it. The key-wait and the exit instruction have no effect
    /// of this kind: what they do is said in `execute`.
    #[verifier::opaque]
    pub open spec fn perform(self, instruction: Instruction) -> Result<Machine, Chip8Error> {
        let v = self.registers;
        match instruction {
            Instruction::ClearScreen => Ok(self.clear_screen()),
            Instruction::Return => self.return_from_subroutine(),
            Instruction::Exit => Ok(self),
            Instruction::Jump { address } => Ok(self.jump_to_address(address as int)),
            Instruction::Call { address } => self.call_subroutine(address as int),
            Instruction::SkipEqual { x, value } => Ok(self.skip_next_if(v[x as int] == value)),
            Instruction::SkipNotEqual { x, value } => Ok(self.skip_next_if(v[x as int] != value)),
            Instruction::SkipRegistersEqual { x, y } => Ok(
                self.skip_next_if(v[x as int] == v[y as int]),
            ),
            Instruction::SetRegister { x, value } => Ok(self.set_register(x as int, value)),
            Instruction::AddToRegister { x, value } => Ok(self.add_to_register(x as int, value)),
            Instruction::CopyRegister { x, y } => Ok(
                self.set_register_to_register(x as int, y as int),
            ),
            Instruction::OrRegisters { x, y } => Ok(self.or_registers(x as int, y as int)),
            Instruction::AndRegisters { x, y } => Ok(self.and_registers(x as int, y as int)),
            Instruction::XorRegisters { x, y } => Ok(self.xor_registers(x as int, y as int)),
            Instruction::AddRegisters { x, y } => Ok(self.add_registers(x as int, y as int)),
            Instruction::SubtractRegisters { x, y } => Ok(
                self.subtract_registers(x as int, y as int),
            ),
            Instruction::ShiftRight { x, .. } => Ok(self.shift_right(x as int)),
            Instruction::SubtractReversed { x, y } => Ok(
                self.subtract_reversed(x as int, y as int),
            ),
            Instruction::ShiftLeft { x, .. } => Ok(self.shift_left(x as int)),
            Instruction::SkipRegistersNotEqual { x, y } => Ok(
                self.skip_next_if(v[x as int] != v[y as int]),
            ),
            Instruction::SetIndex { address } => Ok(self.set_index_register(address as int)),
            Instruction::JumpOffset { address } => Ok(self.jump_with_offset(address as int)),
            Instruction::Random { x, mask } => Ok(self.set_random(x as int, mask)),
            Instruction::Draw { x, y, rows } => self.draw_sprite(x as int, y as int, rows as int),
            Instruction::SkipKeyPressed { x } => Ok(self.skip_next_if(self.key_pressed(x as int))),
            Instruction::SkipKeyReleased { x } => Ok(
                self.skip_next_if(!self.key_pressed(x as int)),
            ),
            Instruction::ReadDelay { x } => Ok(self.read_delay_timer(x as int)),
            Instruction::WaitKey { .. } => Ok(self),
            Instruction::SetDelay { x } => Ok(self.set_delay_timer(x as int)),
            Instruction::SetSound { x } => Ok(self.set_sound_timer(x as int)),
            Instruction::AddToIndex { x } => Ok(self.add_to_index(x as int)),
            Instruction::GlyphAddress { x } => Ok(self.set_index_to_glyph(x as int)),
            Instruction::StoreDecimal { x } => self.store_decimal(x as int),
            Instruction::StoreRegisters { x } => self.store_registers(x as int),
            Instruction::LoadRegisters { x } => self.load_registers(x as int),
        }
    }

    /// One instruction on a running machine whose program counter is on it.
    /// A key-wait suspends the machine where it stands. For every other
    /// instruction the program counter moves past it first, so that a jump,
    /// call, return or skip has the last word. An instruction that fails
    /// leaves the machine as it was.
    pub open spec fn execute(self, instruction: Instruction) -> (
        Machine,
        Result<Signal, Chip8Error>,
    ) {
        match instruction {
            Instruction::WaitKey { .. } => (self.wait_for_key(), Ok(Signal::AwaitKey)),
            Instruction::Exit => (self.advance(), Ok(Signal::Halt)),
            _ => match self.advance().perform(instruction) {
                Ok(after) => (after, Ok(Signal::Continue)),
                Err(error) => (self, Err(error)),
            },
        }
    }

    /// One instruction word on a running machine whose program counter is
    /// on it. A word that is no instruction is stepped over and reported
    /// under the lenient policy, and is an error under the strict one.
    pub open spec fn decode_and_execute(self, opcode: int) -> (
        Machine,
        Result<Signal, Chip8Error>,
    ) {
        match decoded(opcode) {
            Some(instruction) => self.execute(instruction),
            None => if self.strict {
                (self, Err(Chip8Error::UnknownOpcode(opcode as u16)))
            } else {
                (self.advance(), Ok(Signal::Skipped(opcode as u16)))
            },
        }
    }

    /// One step: fetch the word at the program counter, then execute it if
    /// the machine is running, or look for the awaited key if it is
    /// suspended.
    pub open spec fn step(self) -> (Machine, Result<Signal, Chip8Error>) {
        match self.fetch() {
            Err(error) => (self, Err(error)),
            Ok(opcode) => match self.state {
                ExecState::Running => self.decode_and_execute(opcode),
                ExecState::WaitingForKey => {
                    let (after, signal) = self.poll_key(x_of(opcode));
                    (after, Ok(signal))
                },
            },
        }
    }

    /// One tick of the 60 Hz clock: each timer counts down by one and stops
    /// at zero.
    pub open spec fn tick_timers(self) -> Machine {
        Machine {
            delay: if self.delay > 0 {
                self.delay - 1
            } else {
                0
            },
            sound: if self.sound > 0 {
                self.sound - 1
            } else {
                0
            },
            ..self
        }
    }

    /// The keypad with key `key` set to `pressed`.
    pub open spec fn set_key_state(self, key: int, pressed: bool) -> Machine {
        Machine { keys: self.keys.update(key, pressed), ..self }
    }

    /// A tone is due: the sound timer is running.
    pub open spec fn sound_active(self) -> bool {
        self.sound > 0
    }
}

} // verus!
