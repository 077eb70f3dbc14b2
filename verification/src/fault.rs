//! The conditions that stop the machine.

use vstd::prelude::*;

verus! {

/// A fatal condition. A step or a load that reports one leaves the machine
/// exactly as it found it.
#[derive(Clone, Copy, Debug, PartialEq, Eq, Structural)]
pub enum Fault {
    /// The fetched word, carried here, denotes no instruction.
    UnknownInstruction(u16),
    /// A return was executed with an empty call stack.
    StackUnderflow,
    /// An access, or the program counter, would leave the 4096-byte memory,
    /// or a key number is not one of the sixteen keys.
    OutOfBounds,
}

} // verus!
