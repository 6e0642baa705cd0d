//! The interpreter itself: one value that owns the program, the tape, both
//! pointers, the input queue and the output sink.

use vstd::prelude::*;
use std::collections::VecDeque;
use crate::model::{
    next_state, run_model, start_model, step_outcome, stop_model, HaltReason, InterpreterModel,
    RunState, StepOutcome,
};
use crate::program::{backward_jump, chars_of, forward_jump, push_char};
use crate::tape::{decrement, increment, resized, Tape};

verus! {

/// The number of cells a new interpreter's tape starts with.
pub const DEFAULT_TAPE_LEN: usize = 256;

/// The pause between instructions that a new interpreter starts with, in
/// milliseconds.
pub const DEFAULT_DELAY_MS: u64 = 5;

/// The length that the tape takes when shrunk by `step`: `step` cells
/// fewer, but never under two.
pub open spec fn shrunk_len(len: nat, step: nat) -> nat {
    if len >= step + 2 {
        (len - step) as nat
    } else {
        2
    }
}

/// A stepping interpreter. Its view is an [`InterpreterModel`].
pub struct BrainfuckInterpreterInterface {
    program: Vec<char>,
    tape: Tape,
    dp: usize,
    ip: usize,
    input: VecDeque<u8>,
    output: Vec<u8>,
    state: RunState,
    delay: u64,
}

impl View for BrainfuckInterpreterInterface {
    type V = InterpreterModel;

    closed spec fn view(&self) -> InterpreterModel {
        InterpreterModel {
            program: self.program@,
            tape: self.tape@,
            dp: self.dp as nat,
            ip: self.ip as nat,
            input: self.input@,
            output: self.output@,
            state: self.state,
            delay: self.delay,
        }
    }
}

/// The model of a new interpreter: no program, a tape of
/// [`DEFAULT_TAPE_LEN`] zero cells, both pointers at zero, no input, no
/// output, idle, and a delay of [`DEFAULT_DELAY_MS`].
pub open spec fn initial_model() -> InterpreterModel {
    InterpreterModel {
        program: Seq::empty(),
        tape: Seq::new(DEFAULT_TAPE_LEN as nat, |i: int| 0u8),
        dp: 0,
        ip: 0,
        input: Seq::empty(),
        output: Seq::empty(),
        state: RunState::Idle,
        delay: DEFAULT_DELAY_MS,
    }
}

impl Default for BrainfuckInterpreterInterface {
    fn default() -> (r: Self)
        ensures
            r@ == initial_model(),
            r.wf(),
    {
        BrainfuckInterpreterInterface {
            program: Vec::new(),
            tape: Tape::new(DEFAULT_TAPE_LEN),
            dp: 0,
            ip: 0,
            input: VecDeque::new(),
            output: Vec::new(),
            state: RunState::Idle,
            delay: DEFAULT_DELAY_MS,
        }
    }
}

impl BrainfuckInterpreterInterface {
    /// The interpreter is well formed: its model is.
    pub open spec fn wf(&self) -> bool {
        self@.wf()
    }

    /// A new interpreter, as [`Default`] gives it.
    pub fn new() -> (r: Self)
        ensures
            r@ == initial_model(),
            r.wf(),
    {
        Self::default()
    }

    /// Starts a run: does nothing while a run is in progress or when there
    /// is no program; otherwise clears the tape and the output, sets both
    /// pointers to zero and marks the interpreter running.
    pub fn start_interpreter(&mut self)
        requires
            old(self).wf(),
        ensures
            final(self).wf(),
            final(self)@ == start_model(old(self)@),
    {
        if matches!(self.state, RunState::Running) || self.program.len() == 0 {
            return;
        }
        self.tape.clear();
        self.tape.ensure_cell(0);
        self.output.clear();
        self.dp = 0;
        self.ip = 0;
        self.state = RunState::Running;
    }

    /// Cancels a run in progress: the interpreter is then stopped, and no
    /// later step changes anything until the next start. Does nothing when
    /// no run is in progress.
    pub fn stop_interpreter(&mut self)
        requires
            old(self).wf(),
        ensures
            final(self).wf(),
            final(self)@ == stop_model(old(self)@),
            final(self)@.state != RunState::Running,
    {
        if matches!(self.state, RunState::Running) {
            self.state = RunState::Stopped;
        }
    }

    /// Executes one instruction of the run in progress, or reports that no
    /// run is in progress. A step that ends the run leaves the interpreter
    /// completed.
    pub fn step(&mut self) -> (r: StepOutcome)
        requires
            old(self).wf(),
        ensures
            final(self).wf(),
            final(self)@ == next_state(old(self)@),
            r == step_outcome(old(self)@),
            (r == StepOutcome::Completed || r is Halted) ==> final(self)@.state
                == RunState::Completed,
    {
        if !matches!(self.state, RunState::Running) {
            return StepOutcome::Inactive;
        }
        if self.ip >= self.program.len() {
            self.state = RunState::Completed;
            return StepOutcome::Completed;
        }
        let ghost m = self@;
        let c = self.program[self.ip];
        let dp = self.dp;
        // The length is a usize, so the addressed cell lies below usize::MAX.
        let _len = self.tape.len();
        let v = self.tape.read(dp);
        if c == '>' {
            if dp + 1 >= usize::MAX {
                self.state = RunState::Completed;
                StepOutcome::Halted(HaltReason::TapeExhausted)
            } else {
                self.dp = dp + 1;
                self.tape.ensure_cell(dp + 1);
                self.ip = self.ip + 1;
                StepOutcome::Executed
            }
        } else if c == '<' {
            if dp > 0 {
                self.dp = dp - 1;
            }
            self.ip = self.ip + 1;
            StepOutcome::Executed
        } else if c == '+' {
            self.tape.write(dp, increment(v));
            self.ip = self.ip + 1;
            StepOutcome::Executed
        } else if c == '-' {
            self.tape.write(dp, decrement(v));
            self.ip = self.ip + 1;
            StepOutcome::Executed
        } else if c == '.' {
            self.output.push(v);
            self.ip = self.ip + 1;
            StepOutcome::Executed
        } else if c == ',' {
            match self.input.pop_front() {
                Some(b) => {
                    self.tape.write(dp, b);
                    self.ip = self.ip + 1;
                    assert(self.input@ =~= m.input.drop_first());
                    StepOutcome::Executed
                },
                None => StepOutcome::AwaitingInput,
            }
        } else if c == '[' {
            if v == 0 {
                self.ip = forward_jump(&self.program, self.ip);
            } else {
                self.ip = self.ip + 1;
            }
            StepOutcome::Executed
        } else if c == ']' {
            if v != 0 {
                if self.ip == 0 {
                    self.state = RunState::Completed;
                    return StepOutcome::Halted(HaltReason::UnmatchedClose);
                }
                self.ip = backward_jump(&self.program, self.ip);
            } else {
                self.ip = self.ip + 1;
            }
            StepOutcome::Executed
        } else {
            self.ip = self.ip + 1;
            StepOutcome::Skipped
        }
    }

    /// Steps the run in progress until it ends, until `,` waits for input, or
    /// until `max_steps` steps have been taken, whichever comes first. No
    /// pause is made between steps.
    pub fn run_steps(&mut self, max_steps: usize)
        requires
            old(self).wf(),
        ensures
            final(self).wf(),
            final(self)@ == run_model(old(self)@, max_steps as nat),
    {
        let mut taken: usize = 0;
        let mut waiting = false;
        while taken < max_steps && !waiting && matches!(self.state, RunState::Running)
            invariant
                self.wf(),
                taken <= max_steps,
                run_model(old(self)@, max_steps as nat) == if waiting {
                    self@
                } else {
                    run_model(self@, (max_steps - taken) as nat)
                },
            decreases max_steps - taken,
        {
            let outcome = self.step();
            taken = taken + 1;
            if matches!(outcome, StepOutcome::AwaitingInput) {
                waiting = true;
            }
        }
    }

    /// The lifecycle phase.
    pub fn state(&self) -> (r: RunState)
        ensures
            r == self@.state,
    {
        self.state
    }

    /// Whether a run is in progress.
    pub fn is_running(&self) -> (r: bool)
        ensures
            r == (self@.state == RunState::Running),
    {
        matches!(self.state, RunState::Running)
    }

    /// The data pointer, as last published.
    pub fn data_pointer(&self) -> (r: usize)
        ensures
            r == self@.dp,
    {
        self.dp
    }

    /// The instruction pointer, as last published.
    pub fn instruction_pointer(&self) -> (r: usize)
        ensures
            r == self@.ip,
    {
        self.ip
    }

    /// The cells of the tape.
    pub fn tape(&self) -> (r: &[u8])
        ensures
            r@ == self@.tape,
    {
        self.tape.cells()
    }

    /// The number of cells of the tape.
    pub fn memory_size(&self) -> (r: usize)
        ensures
            r == self@.tape.len(),
    {
        self.tape.len()
    }

    /// The bytes written so far by `.`.
    pub fn output(&self) -> (r: &[u8])
        ensures
            r@ == self@.output,
    {
        self.output.as_slice()
    }

    /// The program, one character per position.
    pub fn program(&self) -> (r: &[char])
        ensures
            r@ == self@.program,
    {
        self.program.as_slice()
    }

    /// The pause between instructions, in milliseconds.
    pub fn delay(&self) -> (r: u64)
        ensures
            r == self@.delay,
    {
        self.delay
    }

    /// The number of input bytes not yet read.
    pub fn pending_input(&self) -> (r: usize)
        ensures
            r == self@.input.len(),
    {
        self.input.len()
    }

    /// Appends `bytes` to the input queue; allowed at any time, also while a
    /// run is in progress.
    pub fn feed_input(&mut self, bytes: &[u8])
        requires
            old(self).wf(),
        ensures
            final(self).wf(),
            final(self)@ == (InterpreterModel { input: old(self)@.input + bytes@, ..old(self)@ }),
    {
        let mut i: usize = 0;
        while i < bytes.len()
            invariant
                self.wf(),
                i <= bytes@.len(),
                self@ == (InterpreterModel {
                    input: old(self)@.input + bytes@.subrange(0, i as int),
                    ..old(self)@
                }),
            decreases bytes@.len() - i,
        {
            self.input.push_back(bytes[i]);
            i = i + 1;
            assert(self.input@ =~= old(self)@.input + bytes@.subrange(0, i as int));
        }
        assert(bytes@.subrange(0, bytes@.len() as int) =~= bytes@);
    }

    /// Sets the pause between instructions; ignored while a run is in
    /// progress.
    pub fn set_delay(&mut self, ms: u64)
        requires
            old(self).wf(),
        ensures
            final(self).wf(),
            final(self)@ == if old(self)@.state == RunState::Running {
                old(self)@
            } else {
                InterpreterModel { delay: ms, ..old(self)@ }
            },
    {
        if !matches!(self.state, RunState::Running) {
            self.delay = ms;
        }
    }

    /// Replaces the program with the characters of `text`; ignored while a
    /// run is in progress.
    pub fn set_program(&mut self, text: &str)
        requires
            old(self).wf(),
        ensures
            final(self).wf(),
            final(self)@ == if old(self)@.state == RunState::Running {
                old(self)@
            } else {
                InterpreterModel { program: text@, ..old(self)@ }
            },
    {
        if matches!(self.state, RunState::Running) {
            return;
        }
        self.program = chars_of(text);
    }

    /// The output, each byte taken as the character with that code.
    pub fn output_text(&self) -> (r: String)
        ensures
            r@ == self@.output.map_values(|b: u8| b as char),
    {
        let mut text = String::new();
        let mut i: usize = 0;
        while i < self.output.len()
            invariant
                i <= self.output@.len(),
                text@ == self.output@.subrange(0, i as int).map_values(|b: u8| b as char),
            decreases self.output@.len() - i,
        {
            let c = self.output[i] as char;
            push_char(&mut text, c);
            i = i + 1;
            assert(text@ =~= self.output@.subrange(0, i as int).map_values(|b: u8| b as char));
        }
        assert(self.output@.subrange(0, self.output@.len() as int) =~= self.output@);
        text
    }

    /// Adds `step` zero cells at the end of the tape; ignored while a run is
    /// in progress, and when the length would pass `usize::MAX`.
    pub fn grow_memory(&mut self, step: usize)
        requires
            old(self).wf(),
        ensures
            final(self).wf(),
            final(self)@ == if old(self)@.state == RunState::Running || old(self)@.tape.len()
                + step > usize::MAX {
                old(self)@
            } else {
                InterpreterModel {
                    tape: old(self)@.tape + Seq::new(step as nat, |i: int| 0u8),
                    ..old(self)@
                }
            },
    {
        let len = self.tape.len();
        if matches!(self.state, RunState::Running) || step > usize::MAX - len {
            return;
        }
        self.tape.resize(len + step);
        assert(self.tape@ =~= old(self)@.tape + Seq::new(step as nat, |i: int| 0u8));
    }

    /// Removes `step` cells from the end of the tape, keeping at least two
    /// (a shorter tape grows to two); ignored while a run is in progress.
    pub fn shrink_memory(&mut self, step: usize)
        requires
            old(self).wf(),
        ensures
            final(self).wf(),
            final(self)@ == if old(self)@.state == RunState::Running {
                old(self)@
            } else {
                InterpreterModel {
                    tape: resized(old(self)@.tape, shrunk_len(old(self)@.tape.len(), step as nat)),
                    ..old(self)@
                }
            },
    {
        if matches!(self.state, RunState::Running) {
            return;
        }
        let len = self.tape.len();
        let new_len = if len >= 2 && len - 2 >= step {
            len - step
        } else {
            2
        };
        self.tape.resize(new_len);
    }
}

} // verus!
