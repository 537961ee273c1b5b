//! Laws of the machine, proved of the model that the operations of
//! [`crate::vm::Chip8`] are verified against.

use vstd::prelude::*;
use crate::display::{collides, erases, is_bitmap, sprite_lit};
use crate::machine::Machine;
use crate::opcode::{decoded, lemma_decoded_encode, Instruction};
use crate::status::{Chip8Error, ExecState, Signal};
use crate::vm::Chip8;

verus! {

/// A register holds what was last written to it, and a write to one
/// register leaves the others alone.
pub proof fn law_register_write_then_read(vm: Chip8, register: int, value: u8)
    requires
        0 <= register < 16,
    ensures
        vm@.set_register(register, value).registers[register] == value,
        forall|other: int|
            0 <= other < 16 && other != register ==> vm@.set_register(
                register,
                value,
            ).registers[other] == vm@.registers[other],
{
}

/// Adding an immediate wraps modulo 256 and leaves the flag register alone,
/// unless the flag register is the one added to.
pub proof fn law_add_immediate_wraps(vm: Chip8, x: int, value: u8)
    requires
        0 <= x < 16,
    ensures
        vm@.add_to_register(x, value).registers[x] == (vm@.registers[x] + value) % 256,
        x != 15 ==> vm@.add_to_register(x, value).registers[15] == vm@.registers[15],
{
}

/// Adding two registers wraps modulo 256, and the flag is 1 exactly when
/// the unwrapped sum is 256 or more, else 0.
pub proof fn law_add_registers_carry(vm: Chip8, x: int, y: int)
    requires
        0 <= x < 16,
        0 <= y < 16,
    ensures
        x != 15 ==> vm@.add_registers(x, y).registers[x] == (vm@.registers[x] + vm@.registers[y])
            % 256,
        vm@.registers[x] + vm@.registers[y] >= 256 ==> vm@.add_registers(x, y).registers[15] == 1,
        vm@.registers[x] + vm@.registers[y] < 256 ==> vm@.add_registers(x, y).registers[15] == 0,
{
}

/// Both subtractions set the flag to 1 exactly when nothing is borrowed,
/// that is when the minuend is at least the subtrahend, equal operands
/// included; else to 0. The difference wraps modulo 256.
pub proof fn law_subtract_borrow(vm: Chip8, x: int, y: int)
    requires
        0 <= x < 16,
        0 <= y < 16,
    ensures
        vm@.subtract_registers(x, y).registers[15] == if vm@.registers[x] >= vm@.registers[y] {
            1u8
        } else {
            0u8
        },
        vm@.subtract_reversed(x, y).registers[15] == if vm@.registers[y] >= vm@.registers[x] {
            1u8
        } else {
            0u8
        },
        x != 15 ==> vm@.subtract_registers(x, y).registers[x] == (vm@.registers[x]
            - vm@.registers[y]) % 256,
        x != 15 ==> vm@.subtract_reversed(x, y).registers[x] == (vm@.registers[y]
            - vm@.registers[x]) % 256,
        x != 15 && vm@.registers[x] == vm@.registers[y] ==> vm@.subtract_registers(
            x,
            y,
        ).registers[x] == 0,
{
}

/// A fetch joins the byte at the program counter, as the high byte, with
/// the byte after it, and fails exactly when one of the two lies outside
/// memory.
pub proof fn law_fetch_is_big_endian(vm: Chip8)
    ensures
        vm@.pc + 1 < 4096 ==> vm@.fetch() == Ok::<int, Chip8Error>(
            vm@.memory[vm@.pc] * 256 + vm@.memory[vm@.pc + 1],
        ),
        vm@.pc + 1 >= 4096 ==> vm@.fetch() == Err::<int, Chip8Error>(Chip8Error::MemoryFault),
{
}

/// The step of a running machine whose program counter is on the word of
/// `instruction` is the execution of `instruction`.
pub proof fn lemma_step_executes(vm: Chip8, instruction: Instruction)
    requires
        instruction.wf(),
        vm@.state == ExecState::Running,
        vm@.fetch() == Ok::<int, Chip8Error>(instruction.encode()),
    ensures
        vm@.step() == vm@.execute(instruction),
{
    lemma_decoded_encode(instruction);
}

/// A jump sets the program counter to its address, whatever the program
/// counter was.
pub proof fn law_jump_sets_pc(vm: Chip8, address: u16)
    requires
        address < 0x1000,
        vm@.state == ExecState::Running,
        vm@.fetch() == Ok::<int, Chip8Error>(0x1000 + address),
    ensures
        vm@.step().0 == (Machine { pc: address as int, ..vm@ }),
        vm@.step().1 == Ok::<Signal, Chip8Error>(Signal::Continue),
{
    let jump = Instruction::Jump { address };
    lemma_step_executes(vm, jump);
    let advanced = vm@.advance();
    assert(advanced.perform(jump) == Ok::<Machine, Chip8Error>(
        advanced.jump_to_address(address as int),
    )) by {
        reveal(Machine::perform);
    }
}

/// A call followed by a return puts the program counter and the stack
/// pointer back where they were before the call.
pub proof fn law_call_then_return(vm: Chip8, address: int)
    requires
        vm@.sp < 16,
    ensures
        vm@.call_subroutine(address) is Ok,
        vm@.call_subroutine(address).unwrap().pc == address,
        vm@.call_subroutine(address).unwrap().return_from_subroutine() is Ok,
        vm@.call_subroutine(address).unwrap().return_from_subroutine().unwrap().pc == vm@.pc,
        vm@.call_subroutine(address).unwrap().return_from_subroutine().unwrap().sp == vm@.sp,
{
}

/// A call instruction whose target holds a return instruction: after the
/// two steps the program counter is on the instruction after the call and
/// the stack pointer is what it was.
pub proof fn law_call_step_then_return_step(vm: Chip8, address: u16)
    requires
        address < 0x0FFF,
        vm@.state == ExecState::Running,
        vm@.sp < 16,
        vm@.fetch() == Ok::<int, Chip8Error>(0x2000 + address),
        vm@.memory[address as int] == 0x00,
        vm@.memory[address + 1] == 0xEE,
    ensures
        vm@.step().1 == Ok::<Signal, Chip8Error>(Signal::Continue),
        vm@.step().0.pc == address,
        vm@.step().0.sp == vm@.sp + 1,
        vm@.step().0.step().1 == Ok::<Signal, Chip8Error>(Signal::Continue),
        vm@.step().0.step().0.pc == vm@.pc + 2,
        vm@.step().0.step().0.sp == vm@.sp,
{
    let call = Instruction::Call { address };
    lemma_step_executes(vm, call);
    let advanced = vm@.advance();
    assert(advanced.perform(call) == advanced.call_subroutine(address as int)) by {
        reveal(Machine::perform);
    }
    let called = advanced.call_subroutine(address as int).unwrap();
    lemma_decoded_encode(Instruction::Return);
    let returning = called.advance();
    assert(returning.perform(Instruction::Return) == returning.return_from_subroutine()) by {
        reveal(Machine::perform);
    }
}

/// Clearing the display turns every pixel off, whatever it showed.
pub proof fn law_clear_screen_blanks(vm: Chip8)
    ensures
        vm@.clear_screen().screen.len() == 2048,
        forall|p: int| 0 <= p < 2048 ==> vm@.clear_screen().screen[p] == 0,
{
}

/// Drawing composes by exclusive or: a cell under a set sprite bit is
/// flipped, every other cell is kept. The flag is 1 exactly when some cell
/// that was lit is dark afterwards, else 0.
pub proof fn law_draw_xors(vm: Chip8, x: int, y: int, rows: int)
    requires
        0 <= x < 16,
        0 <= y < 16,
        0 <= rows < 16,
        rows > 0 ==> vm@.index + rows <= 4096,
        is_bitmap(vm@.screen),
    ensures
        vm@.draw_sprite(x, y, rows) is Ok,
        ({
            let after = vm@.draw_sprite(x, y, rows).unwrap();
            let x0 = vm@.registers[x] % 64;
            let y0 = vm@.registers[y] % 32;
            &&& is_bitmap(after.screen)
            &&& forall|p: int|
                0 <= p < 2048 ==> #[trigger] after.screen[p] == vm@.screen[p] ^ flag_bit(
                    sprite_lit(vm@.sprite(rows), x0 as int, y0 as int, p % 64, p / 64),
                )
            &&& after.registers[15] == 1 <==> exists|p: int|
                0 <= p < 2048 && vm@.screen[p] == 1 && #[trigger] after.screen[p] == 0
            &&& after.registers[15] == 0 || after.registers[15] == 1
        }),
{
    let after = vm@.draw_sprite(x, y, rows).unwrap();
    let x0 = (vm@.registers[x] % 64) as int;
    let y0 = (vm@.registers[y] % 32) as int;
    let sprite = vm@.sprite(rows);
    assert forall|p: int| 0 <= p < 2048 implies #[trigger] after.screen[p] == vm@.screen[p]
        ^ flag_bit(sprite_lit(sprite, x0, y0, p % 64, p / 64)) by {
        let cell = vm@.screen[p];
        assert(cell <= 1 ==> (cell ^ 1 == if cell != 0 {
            0u8
        } else {
            1u8
        }) && cell ^ 0 == cell) by (bit_vector);
    }
    if collides(vm@.screen, sprite, x0, y0) {
        let p = choose|p: int| erases(vm@.screen, sprite, x0, y0, p);
        assert(vm@.screen[p] == 1 && after.screen[p] == 0);
    }
    if exists|p: int| 0 <= p < 2048 && vm@.screen[p] == 1 && #[trigger] after.screen[p] == 0 {
        let p = choose|p: int|
            0 <= p < 2048 && vm@.screen[p] == 1 && #[trigger] after.screen[p] == 0;
        assert(erases(vm@.screen, sprite, x0, y0, p));
    }
}

/// The cell value of a sprite bit.
pub open spec fn flag_bit(lit: bool) -> u8 {
    if lit {
        1
    } else {
        0
    }
}

/// Under the lenient policy a word that is no instruction does not stop the
/// machine: the step succeeds, reports the word, moves the program counter
/// past it and changes nothing else.
pub proof fn law_unknown_opcode_is_stepped_over(vm: Chip8)
    requires
        vm@.state == ExecState::Running,
        !vm@.strict,
        vm@.can_fetch(),
        decoded(vm@.fetch().unwrap()) is None,
    ensures
        vm@.step().0 == (Machine { pc: vm@.pc + 2, ..vm@ }),
        vm@.step().1 == Ok::<Signal, Chip8Error>(Signal::Skipped(vm@.fetch().unwrap() as u16)),
{
}

/// Under the strict policy a word that is no instruction is an error, and
/// the machine stays on it.
pub proof fn law_unknown_opcode_stops_strict_machine(vm: Chip8)
    requires
        vm@.state == ExecState::Running,
        vm@.strict,
        vm@.can_fetch(),
        decoded(vm@.fetch().unwrap()) is None,
    ensures
        vm@.step().0 == vm@,
        vm@.step().1 == Err::<Signal, Chip8Error>(
            Chip8Error::UnknownOpcode(vm@.fetch().unwrap() as u16),
        ),
{
}

/// The machine after `n` ticks of the timer clock.
pub open spec fn ticked(machine: Machine, n: nat) -> Machine
    decreases n,
{
    if n == 0 {
        machine
    } else {
        ticked(machine.tick_timers(), (n - 1) as nat)
    }
}

/// However often the clock ticks, no timer goes below zero: after `n` ticks
/// a timer that held `t` holds `t - n`, or zero if `n` exceeds `t`.
pub proof fn law_timers_stop_at_zero(vm: Chip8, n: nat)
    ensures
        ticked(vm@, n).delay == if vm@.delay >= n {
            vm@.delay - n
        } else {
            0
        },
        ticked(vm@, n).sound == if vm@.sound >= n {
            vm@.sound - n
        } else {
            0
        },
        ticked(vm@, n).delay >= 0,
        ticked(vm@, n).sound >= 0,
{
    lemma_ticked(vm@, n);
}

proof fn lemma_ticked(machine: Machine, n: nat)
    requires
        machine.delay >= 0,
        machine.sound >= 0,
    ensures
        ticked(machine, n).delay == if machine.delay >= n {
            machine.delay - n
        } else {
            0
        },
        ticked(machine, n).sound == if machine.sound >= n {
            machine.sound - n
        } else {
            0
        },
    decreases n,
{
    if n > 0 {
        lemma_ticked(machine.tick_timers(), (n - 1) as nat);
    }
}

/// An instruction keeps the stack pointer within the stack and the display
/// a bitmap.
pub proof fn lemma_perform_preserves_wf(machine: Machine, instruction: Instruction)
    requires
        machine.wf(),
        machine.screen.len() == 2048,
    ensures
        machine.perform(instruction) matches Ok(after) ==> after.wf() && after.screen.len()
            == 2048,
{
    reveal(Machine::perform);
}

/// A step keeps the stack pointer within the stack and the display a
/// bitmap.
pub proof fn lemma_step_preserves_wf(vm: Chip8)
    requires
        vm@.wf(),
    ensures
        vm@.step().0.wf(),
{
    if vm@.can_fetch() && vm@.state == ExecState::Running {
        match decoded(vm@.fetch().unwrap()) {
            Some(instruction) => {
                lemma_perform_preserves_wf(vm@.advance(), instruction);
            },
            None => {},
        }
    }
}

/// `instruction` is one that may set the program counter: a jump, a call,
/// a return or a skip.
pub open spec fn is_control_flow(instruction: Instruction) -> bool {
    ||| instruction is Jump
    ||| instruction is JumpOffset
    ||| instruction is Call
    ||| instruction is Return
    ||| instruction is SkipEqual
    ||| instruction is SkipNotEqual
    ||| instruction is SkipRegistersEqual
    ||| instruction is SkipRegistersNotEqual
    ||| instruction is SkipKeyPressed
    ||| instruction is SkipKeyReleased
}

/// An instruction never writes the keypad, nor the policy; it changes the
/// display only by a clear or a draw, a timer only by setting it, and the
/// program counter only if it is a jump, a call, a return or a skip.
pub proof fn lemma_perform_frame(machine: Machine, instruction: Instruction)
    ensures
        machine.perform(instruction) matches Ok(after) ==> {
            &&& after.keys == machine.keys
            &&& after.strict == machine.strict
            &&& after.state == machine.state
            &&& after.delay != machine.delay ==> instruction is SetDelay
            &&& after.sound != machine.sound ==> instruction is SetSound
            &&& after.screen != machine.screen ==> instruction is ClearScreen || instruction is Draw
            &&& after.pc != machine.pc ==> is_control_flow(instruction)
        },
{
    reveal(Machine::perform);
}

/// A successful step of a running machine on an instruction that is no
/// jump, call, return, skip or key-wait moves the program counter on by
/// exactly two.
pub proof fn law_step_advances_pc(vm: Chip8, instruction: Instruction)
    requires
        instruction.wf(),
        vm@.state == ExecState::Running,
        vm@.fetch() == Ok::<int, Chip8Error>(instruction.encode()),
        !is_control_flow(instruction),
        !(instruction is WaitKey),
        vm@.step().1 is Ok,
    ensures
        vm@.step().0.pc == vm@.pc + 2,
{
    lemma_step_executes(vm, instruction);
    lemma_perform_frame(vm@.advance(), instruction);
}

/// A step never writes the keypad, nor the policy; it changes the display
/// only by a clear or a draw, and a timer only by the instruction that sets
/// it.
pub proof fn law_step_frame(vm: Chip8)
    ensures
        vm@.step().0.keys == vm@.keys,
        vm@.step().0.strict == vm@.strict,
        vm@.step().0.delay != vm@.delay ==> vm@.state == ExecState::Running && decoded(
            vm@.fetch().unwrap(),
        ) matches Some(Instruction::SetDelay { .. }),
        vm@.step().0.sound != vm@.sound ==> vm@.state == ExecState::Running && decoded(
            vm@.fetch().unwrap(),
        ) matches Some(Instruction::SetSound { .. }),
        vm@.step().0.screen != vm@.screen ==> vm@.state == ExecState::Running && (decoded(
            vm@.fetch().unwrap(),
        ) matches Some(Instruction::ClearScreen) || decoded(vm@.fetch().unwrap()) matches Some(
            Instruction::Draw { .. },
        )),
{
    if vm@.can_fetch() && vm@.state == ExecState::Running {
        match decoded(vm@.fetch().unwrap()) {
            Some(instruction) => {
                lemma_perform_frame(vm@.advance(), instruction);
            },
            None => {},
        }
    }
}

} // verus!
