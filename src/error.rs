use vstd::prelude::*;

verus! {

/// What can go wrong while loading a program or executing one instruction.
#[derive(Debug, Clone, Copy, PartialEq, Eq, Structural)]
pub enum VmError {
    /// The program does not fit in the memory above the reserved area.
    ProgramTooLarge,
    /// A memory access outside `[0, 4096)`.
    OutOfBounds,
    /// The two opcode bytes at the program counter are not both in memory.
    FetchOutOfBounds,
    /// A call with all sixteen stack slots in use.
    StackOverflow,
    /// A return with an empty stack.
    StackUnderflow,
    /// The fetched opcode matches no instruction.
    UnknownOpcode(u16),
}

} // verus!
