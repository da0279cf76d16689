use vstd::prelude::*;

verus! {

/// The fatal conditions that stop the machine.
#[derive(Clone, Copy, Debug, PartialEq, Eq, Structural)]
pub enum Chip8Error {
    /// A subroutine call found all sixteen stack slots in use.
    StackOverflow,
    /// A return found the call stack empty.
    StackUnderflow,
    /// A program image does not fit between `0x200` and `0xFFF`.
    RomTooLarge,
}

impl Chip8Error {
    /// A short description of the condition, for the host to show.
    pub fn message(&self) -> (s: &'static str)
        ensures
            s@ == match *self {
                Chip8Error::StackOverflow => "call stack overflow"@,
                Chip8Error::StackUnderflow => "call stack underflow"@,
                Chip8Error::RomTooLarge => "program image too large"@,
            },
    {
        match self {
            Chip8Error::StackOverflow => "call stack overflow",
            Chip8Error::StackUnderflow => "call stack underflow",
            Chip8Error::RomTooLarge => "program image too large",
        }
    }
}

} // verus!
