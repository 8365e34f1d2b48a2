//! `try`/`finally` as a builder: a piece of state, an evaluation step that
//! works on it, and a finalizer that receives the state afterwards, whether the
//! step returned or unwound.
//!
//! ```text
//! with_state(state)
//!     .try_eval(|state: &mut State| { /* the work */ })
//!     .finally(|state: State| { /* the cleanup */ })
//! ```
//!
//! The order of the calls is fixed by the types: `.finally()` can only be
//! called once `.try_eval()` has been.

use vstd::prelude::*;

pub mod state_machine;

verus! {

/// Shorthand for `with_state(()).try_eval(|_| f())`, for callers who want the
/// finalizer's guarantee and have no state to carry.
///
/// The step that is registered may be called whenever `f` may be, and
/// returns only what `f` returns.
#[must_use]
pub fn try_eval<R, F>(f: F) -> (out: state_machine::RunnerWithTryEval<
    (),
    impl FnOnce(&mut ()) -> R,
>) where F: FnOnce() -> R
    ensures
        call_requires(f, ()) ==> forall|unit: &mut ()| call_requires(out.eval_step(), (unit,)),
        forall|unit: &mut (), result: R|
            call_ensures(out.eval_step(), (unit,), result) ==> call_ensures(f, (), result),
{
    let step = move |_unit: &mut ()| -> (result: R)
        requires
            call_requires(f, ()),
        ensures
            call_ensures(f, (), result),
        {
            f()
        };
    with_state(()).try_eval(step)
}

/// The entry point of the builder: takes ownership of `state`.
#[must_use]
pub fn with_state<State>(state: State) -> (out: state_machine::Runner<State>)
    ensures
        out.state() == state,
{
    state_machine::Runner { state }
}

} // verus!
