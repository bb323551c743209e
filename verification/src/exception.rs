//! The exceptions that stop the hart.

use vstd::prelude::*;

verus! {

/// The reasons for which the core stops executing.
///
/// None of them is recovered inside the core: whatever raised one hands it
/// up unchanged to the caller.
#[derive(Clone, Copy, Debug, PartialEq, Eq, Structural)]
pub enum Exception {
    /// The word fetched is no instruction that the core supports.
    IllegalInstruction,
    /// The bus was given an address below the base of memory.
    Unmapped,
    /// A memory access would touch a byte outside the memory window.
    OutOfBounds,
    /// A memory access was asked for a width other than 8, 16, 32 or 64 bits.
    BadSize,
    /// An `ecall` instruction was executed.
    EnvCall,
    /// An `ebreak` instruction was executed.
    Breakpoint,
}

} // verus!
