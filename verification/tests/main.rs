use std::cell::{Cell, RefCell};

use unwind_safe::state_machine::{Runner, RunnerWithTryEval};
use unwind_safe::{try_eval, with_state};

/// A state that can be neither copied nor cloned: whoever holds it is its
/// only owner.
struct NotCopy(u32);

#[test]
fn finalizer_runs_once_after_the_step_on_normal_return() {
    let log = RefCell::new(Vec::new());
    let result = with_state(vec![1u32, 2])
        .try_eval(|state: &mut Vec<u32>| {
            log.borrow_mut().push(format!("eval {:?}", state));
            state.push(3);
            state.len()
        })
        .finally(|state: Vec<u32>| {
            log.borrow_mut().push(format!("finally {:?}", state));
        });
    assert_eq!(result, 3);
    assert_eq!(
        log.into_inner(),
        vec!["eval [1, 2]".to_string(), "finally [1, 2, 3]".to_string()]
    );
}

#[test]
fn both_closures_run_on_a_state_that_is_not_copy() {
    let mut body_called = false;
    let mut finally_called = false;
    with_state(NotCopy(0))
        .try_eval(|_: &mut NotCopy| {
            body_called = true;
        })
        .finally(|_: NotCopy| {
            finally_called = true;
        });
    assert!(body_called);
    assert!(finally_called);
}

#[test]
fn finalizer_owns_the_state_as_the_step_left_it() {
    let mut received = None;
    with_state(NotCopy(41))
        .try_eval(|state: &mut NotCopy| state.0 += 1)
        .finally(|state: NotCopy| received = Some(state));
    assert_eq!(received.map(|state| state.0), Some(42));
}

#[test]
fn ok_of_the_step_is_returned_unchanged() {
    let result: Result<u32, String> = with_state(20u32)
        .try_eval(|state: &mut u32| Ok(*state + 1))
        .finally(|_: u32| {});
    assert_eq!(result, Ok(21));
}

#[test]
fn err_of_the_step_is_returned_unchanged_and_finalized() {
    let finalized = Cell::new(0u32);
    let result: Result<u32, String> = with_state(String::from("disk"))
        .try_eval(|state: &mut String| {
            state.push_str(" full");
            Err(state.clone())
        })
        .finally(|state: String| {
            assert_eq!(state, "disk full");
            finalized.set(finalized.get() + 1);
        });
    assert_eq!(result, Err(String::from("disk full")));
    assert_eq!(finalized.get(), 1);
}

#[test]
fn nothing_runs_before_finally_is_called() {
    let body_called = Cell::new(false);
    let finally_called = Cell::new(false);
    let first: Runner<u8> = with_state(9u8);
    assert!(!body_called.get());
    let second: RunnerWithTryEval<u8, _> = first.try_eval(|state: &mut u8| {
        body_called.set(true);
        *state
    });
    assert!(!body_called.get());
    assert!(!finally_called.get());
    let result = second.finally(|_: u8| finally_called.set(true));
    assert_eq!(result, 9);
    assert!(body_called.get());
    assert!(finally_called.get());
}

#[test]
fn step_that_leaves_the_state_alone_hands_it_on_as_it_was() {
    let mut received = Vec::new();
    let result = with_state(vec![7u8, 8, 9])
        .try_eval(|state: &mut Vec<u8>| state.iter().map(|x| u32::from(*x)).sum::<u32>())
        .finally(|state: Vec<u8>| received = state);
    assert_eq!(result, 24);
    assert_eq!(received, vec![7u8, 8, 9]);
}

#[test]
fn stateless_shorthand_passes_the_result_through() {
    let finalized = Cell::new(0u32);
    let result = try_eval(|| 7u64).finally(|()| finalized.set(finalized.get() + 1));
    assert_eq!(result, 7);
    assert_eq!(finalized.get(), 1);
}

#[test]
fn stateless_shorthand_runs_the_step_before_the_finalizer() {
    let log = RefCell::new(Vec::new());
    try_eval(|| log.borrow_mut().push("eval")).finally(|()| log.borrow_mut().push("finally"));
    assert_eq!(log.into_inner(), vec!["eval", "finally"]);
}

#[test]
fn stateless_shorthand_is_lazy() {
    let called = Cell::new(false);
    let pending = try_eval(|| called.set(true));
    assert!(!called.get());
    pending.finally(|()| {});
    assert!(called.get());
}
