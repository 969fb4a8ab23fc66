//! Fatal conditions a single execution step can report.
//!
//! Every fault is returned as a typed value so the host can decide whether
//! to halt, reset or skip; the core never aborts the process.

use vstd::prelude::*;

verus! {

/// A fatal condition raised by one fetch-decode-execute step.
#[derive(Clone, Copy, PartialEq, Eq, Structural, Debug)]
pub enum ExecutionError {
    /// The fetched opcode matched no dispatch pattern. Carries the raw
    /// opcode and the program counter at the time of the fetch.
    UnimplementedOpcode { opcode: u16, pc: u16 },
    /// A return was attempted with an empty call stack.
    StackUnderflow,
    /// A call was attempted with a full call stack (depth 16).
    StackOverflow,
    /// A memory access fell outside the 4096-byte address space.
    /// Carries the highest address the access needed.
    OutOfBounds { address: usize },
}

} // verus!
