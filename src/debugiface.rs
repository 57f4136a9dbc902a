//! The commands a debugger sends to the machine and the machine's answers.
use vstd::prelude::*;

verus! {

/// The commands the machine understands from a debugger.
#[derive(Debug, Clone, Copy, PartialEq, Eq, Structural)]
pub enum EmulatorCommand {
    /// Stop the machine.
    Exit,
    /// Read `nbytes` bytes of memory from an address.
    PeekAddr(u16, usize),
    /// Read register I.
    PeekI,
    /// Read the program counter.
    PeekPC,
    /// Read a general register.
    PeekReg(u8),
    /// Read the sound timer.
    PeekSoundTimer,
    /// Read the stack pointer.
    PeekSP,
    /// Read the whole stack.
    PeekStack,
    /// Leave a `BRK` pause.
    ResumeExecution,
    /// Set the number of instructions executed per second.
    SetClockRate(u64),
}

/// The machine's answers to the peek commands.
#[derive(Debug, Clone, PartialEq, Eq)]
pub enum EmulatorResponse {
    /// The contents of register I.
    I(u16),
    /// A slice of memory.
    MemorySlice(Vec<u8>),
    /// The program counter.
    PC(u16),
    /// The contents of a general register.
    Reg(u8),
    /// The sound timer.
    SoundTimer(u8),
    /// The stack pointer.
    SP(u8),
    /// The whole stack.
    Stack(Vec<u16>),
}

/// Whether a command ends a `BRK` pause.
pub fn ends_pause(cmd: &EmulatorCommand) -> (r: bool)
    ensures
        r <==> (*cmd is ResumeExecution || *cmd is Exit),
{
    match cmd {
        EmulatorCommand::ResumeExecution | EmulatorCommand::Exit => true,
        _ => false,
    }
}

/// Whether a command takes effect as soon as it arrives while the program
/// runs. Every other command waits for the next `BRK`, where commands are
/// carried out in the order they came, so that a peek sent after a resume
/// sees the state at the next `BRK`.
pub fn handled_while_running(cmd: &EmulatorCommand) -> (r: bool)
    ensures
        r <==> (*cmd is Exit || *cmd is SetClockRate),
{
    match cmd {
        EmulatorCommand::Exit | EmulatorCommand::SetClockRate(_) => true,
        _ => false,
    }
}

} // verus!
