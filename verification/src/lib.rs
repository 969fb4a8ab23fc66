//! A verified CHIP-8 instruction-execution core.
//!
//! The crate holds the machine's architectural state (memory, registers,
//! stack, timers, display buffer, keypad snapshot) and implements the
//! fetch-decode-execute cycle with bit-exact CHIP-8 semantics: wraparound
//! arithmetic, carry/borrow flag conventions, shift-operand selection,
//! BCD conversion, block register transfer and XOR sprite composition.
//! Fatal conditions (unknown opcodes, stack misuse, out-of-range memory
//! access) are reported as typed errors, never as process aborts.

pub mod display;
pub mod errors;
pub mod exec;
pub mod laws;
pub mod machine;
pub mod semantics;
