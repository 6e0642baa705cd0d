//! A stepping interpreter for the eight-symbol tape language.
//!
//! The library holds the interpreter as a single-owner state machine: the
//! tape, the instruction and data pointers, the input queue and the output
//! sink live in one value, and [`BrainfuckInterpreterInterface::step`]
//! advances it by exactly one instruction. Whoever drives it (a worker thread
//! that paces the steps, or a plain loop) decides when to step and when to
//! stop.

pub mod tape;
pub mod program;
pub mod model;
pub mod interface;

pub use interface::{BrainfuckInterpreterInterface, DEFAULT_DELAY_MS, DEFAULT_TAPE_LEN};
pub use model::{HaltReason, RunState, StepOutcome};
