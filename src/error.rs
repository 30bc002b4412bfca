use vstd::prelude::*;

verus! {

/// A condition that stops the machine: the program in memory is malformed
/// or does not fit this architecture.
#[derive(Debug, Clone, Copy, PartialEq, Eq, Structural)]
pub enum Fault {
    /// An access outside the 4096 bytes of memory.
    OutOfBounds,
    /// A program longer than the space from the load address to the end of memory.
    ProgramTooLarge,
    /// A font glyph was asked for a value above 0xF.
    InvalidDigit,
    /// A return with no subroutine call to return from.
    StackUnderflow,
    /// A call beyond the sixteen levels of subroutine nesting.
    StackOverflow,
    /// An instruction word that matches no known encoding.
    UnknownInstruction(u16),
}

} // verus!
