use brain_fuck_interpreter::program::{backward_jump, filter_instructions, forward_jump, is_instruction};
use brain_fuck_interpreter::tape::{decrement, increment, Tape};
use brain_fuck_interpreter::{
    BrainfuckInterpreterInterface, RunState, StepOutcome, DEFAULT_DELAY_MS, DEFAULT_TAPE_LEN,
};

fn started(program: &str) -> BrainfuckInterpreterInterface {
    let mut interface = BrainfuckInterpreterInterface::new();
    interface.set_delay(0);
    interface.set_program(program);
    interface.start_interpreter();
    interface
}

fn chars(text: &str) -> Vec<char> {
    text.chars().collect()
}

#[test]
fn new_interpreter_is_idle_with_defaults() {
    let interface = BrainfuckInterpreterInterface::new();
    assert_eq!(interface.state(), RunState::Idle);
    assert_eq!(interface.memory_size(), DEFAULT_TAPE_LEN);
    assert_eq!(interface.memory_size(), 256);
    assert_eq!(interface.delay(), DEFAULT_DELAY_MS);
    assert_eq!(interface.delay(), 5);
    assert!(interface.tape().iter().all(|&c| c == 0));
    assert!(interface.output().is_empty());
    assert!(interface.program().is_empty());
    assert_eq!(interface.data_pointer(), 0);
    assert_eq!(interface.instruction_pointer(), 0);
}

#[test]
fn cell_arithmetic_wraps_modulo_256() {
    assert_eq!(increment(255), 0);
    assert_eq!(decrement(0), 255);
    assert_eq!(increment(7), 8);
    assert_eq!(decrement(7), 6);
    for v in 0..=255u8 {
        assert_eq!(increment(decrement(v)), v);
        assert_eq!(decrement(increment(v)), v);
    }
}

#[test]
fn writing_past_the_end_grows_the_tape() {
    let mut tape = Tape::new(3);
    tape.write(1, 42);
    tape.write(6, 9);
    assert_eq!(tape.len(), 7);
    assert_eq!(tape.cells(), &[0, 42, 0, 0, 0, 0, 9]);
    assert_eq!(tape.read(9), 0);
    assert_eq!(tape.len(), 10);
    tape.write(2, 5);
    assert_eq!(tape.len(), 10);
    assert_eq!(tape.cells()[..3], [0, 42, 5]);
}

#[test]
fn tape_clear_and_resize() {
    let mut tape = Tape::new(2);
    tape.write(0, 1);
    tape.resize(4);
    assert_eq!(tape.cells(), &[1, 0, 0, 0]);
    tape.resize(1);
    assert_eq!(tape.cells(), &[1]);
    tape.clear();
    assert_eq!(tape.cells(), &[0]);
}

#[test]
fn recognized_symbols() {
    for c in "<>+-.,[]".chars() {
        assert!(is_instruction(c));
    }
    for c in "ab 1\n{}".chars() {
        assert!(!is_instruction(c));
    }
    assert_eq!(filter_instructions("a+b[c]d.\n<x>,"), "+[].<>,".to_string());
    assert_eq!(filter_instructions("hello"), "".to_string());
}

#[test]
fn forward_jump_lands_after_matching_close() {
    let p = chars("[+[-]+]+");
    assert_eq!(forward_jump(&p, 0), 7);
    assert_eq!(forward_jump(&p, 2), 5);
}

#[test]
fn forward_jump_without_match_goes_to_end() {
    let p = chars("[[]");
    assert_eq!(forward_jump(&p, 0), 3);
    assert_eq!(forward_jump(&p, 1), 3);
}

#[test]
fn backward_jump_lands_after_matching_open() {
    let p = chars("+[+[-]+]");
    assert_eq!(backward_jump(&p, 7), 2);
    assert_eq!(backward_jump(&p, 5), 4);
    let q = chars("[-]");
    assert_eq!(backward_jump(&q, 2), 1);
}

#[test]
fn backward_jump_without_match_goes_to_one() {
    let p = chars("+-]");
    assert_eq!(backward_jump(&p, 2), 1);
    let q = chars("+[]]");
    assert_eq!(backward_jump(&q, 3), 1);
}

#[test]
fn step_outcomes() {
    let mut interface = started("+x]");
    assert_eq!(interface.step(), StepOutcome::Executed);
    assert_eq!(interface.tape()[0], 1);
    assert_eq!(interface.step(), StepOutcome::Skipped);
    assert_eq!(interface.instruction_pointer(), 2);
    // `]` with a nonzero cell and no `[` before it goes back to position 1.
    assert_eq!(interface.step(), StepOutcome::Executed);
    assert_eq!(interface.instruction_pointer(), 1);
    assert_eq!(interface.step(), StepOutcome::Skipped);
    interface.stop_interpreter();
    assert_eq!(interface.step(), StepOutcome::Inactive);
}

#[test]
fn completion_is_reported_once_the_end_is_reached() {
    let mut interface = started("+");
    assert_eq!(interface.step(), StepOutcome::Executed);
    assert_eq!(interface.state(), RunState::Running);
    assert_eq!(interface.step(), StepOutcome::Completed);
    assert_eq!(interface.state(), RunState::Completed);
    assert_eq!(interface.step(), StepOutcome::Inactive);
}

#[test]
fn moving_left_at_zero_stays_at_zero() {
    let mut interface = started("<<<<");
    interface.run_steps(100);
    assert_eq!(interface.state(), RunState::Completed);
    assert_eq!(interface.data_pointer(), 0);
    assert_eq!(interface.instruction_pointer(), 4);
}

#[test]
fn stop_cancels_a_run_in_progress() {
    let mut interface = started("+[+.]");
    interface.run_steps(100);
    assert_eq!(interface.state(), RunState::Running);
    interface.stop_interpreter();
    assert_eq!(interface.state(), RunState::Stopped);
    let output = interface.output().to_vec();
    interface.run_steps(10_000);
    assert_eq!(interface.output(), &output[..]);
    assert_eq!(interface.state(), RunState::Stopped);
}

#[test]
fn a_loop_that_wraps_its_counter_ends() {
    let mut interface = started("+[+.]");
    interface.run_steps(10_000);
    assert_eq!(interface.state(), RunState::Completed);
    assert_eq!(interface.output().len(), 255);
    assert_eq!(interface.output()[0], 2);
    assert_eq!(interface.output()[254], 0);
    interface.stop_interpreter();
    assert_eq!(interface.state(), RunState::Completed);
}

#[test]
fn stop_when_idle_changes_nothing() {
    let mut interface = BrainfuckInterpreterInterface::new();
    interface.stop_interpreter();
    assert_eq!(interface.state(), RunState::Idle);
}

#[test]
fn empty_input_waits_without_advancing() {
    let mut interface = started(",.");
    interface.run_steps(100);
    assert_eq!(interface.state(), RunState::Running);
    assert_eq!(interface.instruction_pointer(), 0);
    assert_eq!(interface.step(), StepOutcome::AwaitingInput);
    interface.feed_input(&[66, 67]);
    assert_eq!(interface.pending_input(), 2);
    interface.run_steps(100);
    assert_eq!(interface.state(), RunState::Completed);
    assert_eq!(interface.output(), &[66]);
    assert_eq!(interface.pending_input(), 1);
}

#[test]
fn start_resets_tape_and_output_and_is_ignored_while_running() {
    let mut interface = started("+.>+");
    interface.run_steps(100);
    assert_eq!(interface.output(), &[1]);
    assert_eq!(interface.tape()[..2], [1, 1]);
    interface.start_interpreter();
    assert!(interface.is_running());
    assert!(interface.output().is_empty());
    assert!(interface.tape().iter().all(|&c| c == 0));
    interface.step();
    interface.start_interpreter();
    assert_eq!(interface.instruction_pointer(), 1);
    assert_eq!(interface.tape()[0], 1);
}

#[test]
fn start_without_program_does_nothing() {
    let mut interface = BrainfuckInterpreterInterface::new();
    interface.start_interpreter();
    assert_eq!(interface.state(), RunState::Idle);
}

#[test]
fn moving_right_grows_the_tape() {
    let mut interface = BrainfuckInterpreterInterface::new();
    interface.shrink_memory(1000);
    assert_eq!(interface.memory_size(), 2);
    interface.set_program(">>>+");
    interface.start_interpreter();
    interface.run_steps(100);
    assert_eq!(interface.memory_size(), 4);
    assert_eq!(interface.tape(), &[0, 0, 0, 1]);
    assert_eq!(interface.data_pointer(), 3);
}

#[test]
fn memory_grows_and_shrinks_between_runs_only() {
    let mut interface = BrainfuckInterpreterInterface::new();
    interface.grow_memory(4);
    assert_eq!(interface.memory_size(), 260);
    interface.shrink_memory(16);
    assert_eq!(interface.memory_size(), 244);
    interface.shrink_memory(243);
    assert_eq!(interface.memory_size(), 2);
    interface.set_program("+[]");
    interface.start_interpreter();
    interface.grow_memory(8);
    interface.shrink_memory(1);
    assert_eq!(interface.memory_size(), 2);
}

#[test]
fn settings_are_frozen_while_running() {
    let mut interface = started("+[]");
    interface.set_delay(300);
    interface.set_program(".");
    assert_eq!(interface.delay(), 0);
    assert_eq!(interface.program(), &['+', '[', ']']);
    interface.stop_interpreter();
    interface.set_delay(300);
    assert_eq!(interface.delay(), 300);
}

#[test]
fn output_text_maps_each_byte_to_its_code_point() {
    let mut interface = started("-.");
    interface.run_steps(10);
    assert_eq!(interface.output(), &[255]);
    assert_eq!(interface.output_text(), "\u{ff}".to_string());
}

#[test]
fn decrement_below_zero_wraps_in_a_run() {
    let mut interface = started("-");
    interface.run_steps(10);
    assert_eq!(interface.tape()[0], 255);
}
