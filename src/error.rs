use vstd::prelude::*;

verus! {

/// Why a bus or cartridge access failed.
#[derive(Clone, Copy, Debug, PartialEq, Eq, Structural)]
pub enum MemError {
    /// No backing store answers at this address.
    OutOfBounds(u16),
    /// A store into program ROM with no cartridge adapter to take it.
    WriteToRom,
}

impl MemError {
    /// A short description for diagnostics.
    pub fn message(&self) -> (r: &'static str)
        ensures
            *self == MemError::WriteToRom ==> r@ == "cannot write to ROM"@,
            *self is OutOfBounds ==> r@ == "out of bounds"@,
    {
        match self {
            MemError::OutOfBounds(_) => "out of bounds",
            MemError::WriteToRom => "cannot write to ROM",
        }
    }
}

/// Why a save-state image could not be restored.
#[derive(Clone, Copy, Debug, PartialEq, Eq, Structural)]
pub enum StateError {
    Truncated,
}

/// Why the processor stopped.
#[derive(Clone, Copy, Debug, PartialEq, Eq, Structural)]
pub enum CpuError {
    /// A bus access of an instruction failed.
    Bus(MemError),
    /// A push with the stack pointer at the bottom of the stack page.
    StackOverflow,
    /// A pop with the stack pointer at its power-on value.
    StackUnderflow,
    /// The opcode at `pc` names an addressing mode with no rule.
    UnsupportedMode { pc: u16, opcode: u8 },
}

} // verus!
