//! The mathematical model of the interpreter and of one execution step.

use vstd::prelude::*;
use crate::program::{backward_target, forward_target};
use crate::tape::{cell_at, spec_decrement, spec_increment, zero_extended};

verus! {

/// The coarse lifecycle phase of the interpreter.
#[derive(Clone, Copy, Debug, PartialEq, Eq, Structural)]
pub enum RunState {
    /// Nothing has been started yet.
    Idle,
    /// A run is in progress.
    Running,
    /// The last run ended by itself.
    Completed,
    /// The last run was cancelled from outside.
    Stopped,
}

/// Why a run ended before the instruction pointer reached the end.
#[derive(Clone, Copy, Debug, PartialEq, Eq, Structural)]
pub enum HaltReason {
    /// A `]` at the very first position had to jump back: there is nothing
    /// before it to jump to.
    UnmatchedClose,
    /// `>` would have moved the data pointer past the largest addressable
    /// cell.
    TapeExhausted,
}

/// What one step did.
#[derive(Clone, Copy, Debug, PartialEq, Eq, Structural)]
pub enum StepOutcome {
    /// An instruction was executed; the driver pauses for the delay before
    /// the next step.
    Executed,
    /// A character that is no instruction was passed over; no pause is due.
    Skipped,
    /// `,` found the input queue empty and left the instruction pointer where
    /// it was; the step is retried after the delay, once input may have come.
    AwaitingInput,
    /// The instruction pointer had reached the end of the program: the run is
    /// over.
    Completed,
    /// The run ended early, for the reason given.
    Halted(HaltReason),
    /// No run is in progress; nothing was done.
    Inactive,
}

/// Everything the interpreter holds, as mathematical values.
pub struct InterpreterModel {
    /// The program text, one character per position.
    pub program: Seq<char>,
    /// The cells of the tape.
    pub tape: Seq<u8>,
    /// The data pointer.
    pub dp: nat,
    /// The instruction pointer.
    pub ip: nat,
    /// Bytes waiting to be read by `,`, oldest first.
    pub input: Seq<u8>,
    /// Bytes written by `.`, oldest first.
    pub output: Seq<u8>,
    /// The lifecycle phase.
    pub state: RunState,
    /// The pause between instructions, in milliseconds.
    pub delay: u64,
}

impl InterpreterModel {
    /// While a run is in progress the data pointer addresses an existing cell.
    pub open spec fn wf(self) -> bool {
        self.state == RunState::Running ==> self.dp < self.tape.len()
    }

    /// The value of the addressed cell.
    pub open spec fn current_cell(self) -> u8 {
        cell_at(self.tape, self.dp)
    }

    /// The symbol under the instruction pointer.
    pub open spec fn current_symbol(self) -> char {
        self.program[self.ip as int]
    }
}

/// The model with the instruction pointer moved to the next symbol.
pub open spec fn advanced(m: InterpreterModel) -> InterpreterModel {
    InterpreterModel { ip: m.ip + 1, ..m }
}

/// The model with the addressed cell set to `v`, growing the tape if need be,
/// and the instruction pointer moved on.
pub open spec fn written(m: InterpreterModel, v: u8) -> InterpreterModel {
    InterpreterModel { tape: zero_extended(m.tape, m.dp).update(m.dp as int, v), ip: m.ip + 1, ..m }
}

/// The model after one step.
pub open spec fn next_state(m: InterpreterModel) -> InterpreterModel {
    if m.state != RunState::Running {
        m
    } else if m.ip >= m.program.len() {
        InterpreterModel { state: RunState::Completed, ..m }
    } else {
        let c = m.current_symbol();
        let v = m.current_cell();
        if c == '>' {
            if m.dp + 1 >= usize::MAX {
                InterpreterModel { state: RunState::Completed, ..m }
            } else {
                InterpreterModel {
                    dp: m.dp + 1,
                    tape: zero_extended(m.tape, m.dp + 1),
                    ip: m.ip + 1,
                    ..m
                }
            }
        } else if c == '<' {
            InterpreterModel {
                dp: if m.dp > 0 { (m.dp - 1) as nat } else { 0 },
                ip: m.ip + 1,
                ..m
            }
        } else if c == '+' {
            written(m, spec_increment(v))
        } else if c == '-' {
            written(m, spec_decrement(v))
        } else if c == '.' {
            InterpreterModel { output: m.output.push(v), ip: m.ip + 1, ..m }
        } else if c == ',' {
            if m.input.len() > 0 {
                InterpreterModel { input: m.input.drop_first(), ..written(m, m.input[0]) }
            } else {
                m
            }
        } else if c == '[' {
            if v == 0 {
                InterpreterModel { ip: forward_target(m.program, m.ip as int) as nat, ..m }
            } else {
                advanced(m)
            }
        } else if c == ']' {
            if v != 0 {
                if m.ip == 0 {
                    InterpreterModel { state: RunState::Completed, ..m }
                } else {
                    InterpreterModel { ip: backward_target(m.program, m.ip as int) as nat, ..m }
                }
            } else {
                advanced(m)
            }
        } else {
            advanced(m)
        }
    }
}

/// What one step reports.
pub open spec fn step_outcome(m: InterpreterModel) -> StepOutcome {
    if m.state != RunState::Running {
        StepOutcome::Inactive
    } else if m.ip >= m.program.len() {
        StepOutcome::Completed
    } else {
        let c = m.current_symbol();
        let v = m.current_cell();
        if c == '>' && m.dp + 1 >= usize::MAX {
            StepOutcome::Halted(HaltReason::TapeExhausted)
        } else if c == ',' && m.input.len() == 0 {
            StepOutcome::AwaitingInput
        } else if c == ']' && v != 0 && m.ip == 0 {
            StepOutcome::Halted(HaltReason::UnmatchedClose)
        } else if c == '>' || c == '<' || c == '+' || c == '-' || c == '.' || c == ','
            || c == '[' || c == ']' {
            StepOutcome::Executed
        } else {
            StepOutcome::Skipped
        }
    }
}

/// The model after at most `fuel` steps, stopping early when the run is over
/// or waits for input.
pub open spec fn run_model(m: InterpreterModel, fuel: nat) -> InterpreterModel
    decreases fuel,
{
    if fuel == 0 || m.state != RunState::Running || step_outcome(m) == StepOutcome::AwaitingInput {
        m
    } else {
        run_model(next_state(m), (fuel - 1) as nat)
    }
}

/// The model after `start`: nothing changes while a run is in progress or
/// when there is no program; otherwise the tape is cleared (and given one
/// cell if it had none), the output emptied, both pointers set to zero, and
/// the run begins.
pub open spec fn start_model(m: InterpreterModel) -> InterpreterModel {
    if m.state == RunState::Running || m.program.len() == 0 {
        m
    } else {
        InterpreterModel {
            tape: zero_extended(Seq::new(m.tape.len(), |i: int| 0u8), 0),
            output: Seq::empty(),
            dp: 0,
            ip: 0,
            state: RunState::Running,
            ..m
        }
    }
}

/// The model after `stop`: a run in progress is marked stopped; otherwise
/// nothing changes.
pub open spec fn stop_model(m: InterpreterModel) -> InterpreterModel {
    if m.state == RunState::Running {
        InterpreterModel { state: RunState::Stopped, ..m }
    } else {
        m
    }
}

/// A run that ends is never left running: a step that reports the end of
/// the run leaves the model completed, and a stop leaves a running model
/// stopped and any other model as it was.
pub proof fn lemma_ended_run_not_running(m: InterpreterModel)
    ensures
        step_outcome(m) == StepOutcome::Completed ==> next_state(m).state == RunState::Completed,
        step_outcome(m) is Halted ==> next_state(m).state == RunState::Completed,
        m.state == RunState::Running ==> stop_model(m).state == RunState::Stopped,
        stop_model(m).state != RunState::Running,
{
}

/// Moving left never takes the data pointer below zero: at zero `<` leaves
/// it there, elsewhere it goes down by one, and either way the instruction
/// pointer moves on.
pub proof fn lemma_move_left_clamps(m: InterpreterModel)
    requires
        m.state == RunState::Running,
        m.ip < m.program.len(),
        m.current_symbol() == '<',
    ensures
        next_state(m).dp == if m.dp == 0 { 0 } else { m.dp - 1 },
        next_state(m).ip == m.ip + 1,
        next_state(m).state == RunState::Running,
        step_outcome(m) == StepOutcome::Executed,
{
}

} // verus!
