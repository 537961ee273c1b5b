//! What a step of the machine reports to its driver.

use vstd::prelude::*;

verus! {

/// The conditions under which an operation of the machine fails. A failed
/// operation leaves the machine as it found it.
#[derive(Clone, Copy, Debug, PartialEq, Eq, Structural)]
pub enum Chip8Error {
    /// The program does not fit between the load address and the end of memory.
    RomTooLarge,
    /// The program counter or an address operand lies outside memory.
    MemoryFault,
    /// A call with sixteen return addresses already on the stack.
    StackOverflow,
    /// A return with no return address on the stack.
    StackUnderflow,
    /// Under the strict policy: the word at the program counter, which is
    /// the word of no instruction.
    UnknownOpcode(u16),
}

/// What a successful step tells the driver.
#[derive(Clone, Copy, Debug, PartialEq, Eq, Structural)]
pub enum Signal {
    /// An instruction was retired; the machine runs on.
    Continue,
    /// The machine is suspended on a key-wait instruction.
    AwaitKey,
    /// Under the lenient policy: this word is the word of no instruction and
    /// was stepped over.
    Skipped(u16),
    /// The program asked to stop.
    Halt,
}

/// The two states of the executor.
#[derive(Clone, Copy, Debug, PartialEq, Eq, Structural)]
pub enum ExecState {
    /// Each step fetches and executes one instruction.
    Running,
    /// A key-wait instruction is pending at the program counter; each step
    /// only looks at the keypad.
    WaitingForKey,
}

} // verus!
