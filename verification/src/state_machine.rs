//! The two stages of the builder, and the engine that runs them.
//!
//! A [`Runner`] owns the state and nothing else; giving it the evaluation step
//! turns it into a [`RunnerWithTryEval`], and only that second stage can be
//! run. Every method takes its stage by value, so the state has one owner at a
//! time: the first stage, then the second, then the engine's guard, and at last
//! the finalizer.

use core::marker::PhantomData;
use vstd::prelude::*;

mod sealed;

verus! {

/// First stage: the state, waiting for its evaluation step.
pub struct Runner<State> {
    pub(super) state: State,
}

/// Second stage: the state together with the evaluation step that will work
/// on it. Nothing has run yet.
pub struct RunnerWithTryEval<State, Eval> {
    pub(super) state: State,
    pub(super) try_eval: Eval,
}

impl<State> Runner<State> {
    /// The state this stage owns.
    pub open(crate) spec fn state(self) -> State {
        self.state
    }

    /// Registers the evaluation step. Nothing is run: the state and the step
    /// are moved, unchanged, into the second stage.
    #[must_use]
    pub fn try_eval<R, Eval>(self, eval: Eval) -> (out: RunnerWithTryEval<State, Eval>) where
        Eval: FnOnce(&mut State) -> R,

        ensures
            out.state() == self.state(),
            out.eval_step() == eval,
    {
        let Runner { state } = self;
        RunnerWithTryEval { state, try_eval: eval }
    }

    /// Running a stage that has no evaluation step is a mistake, and one the
    /// compiler catches: the bound on `Self` holds for no type, so no call of
    /// this method type-checks. It exists for the sake of the error message,
    /// which names the missing step.
    ///
    /// ```compile_fail
    /// let _: () = unwind_safe::with_state(0u8).finally(|_: u8| {});
    /// ```
    ///
    /// Whatever a call returned would be what the bound's own `unreachable`
    /// returned for it; with no implementor there is no such call.
    pub fn finally<R, F>(self, _finally: F) -> (never: R) where Self: sealed::missing_try_eval<F>
        ensures
            call_ensures(<Self as sealed::missing_try_eval<F>>::unreachable::<R>, (), never),
    {
        <Self as sealed::missing_try_eval<F>>::unreachable()
    }
}

impl<State, Eval> RunnerWithTryEval<State, Eval> {
    /// The state this stage owns.
    pub open(crate) spec fn state(self) -> State {
        self.state
    }

    /// The evaluation step this stage holds.
    pub open(crate) spec fn eval_step(self) -> Eval {
        self.try_eval
    }

    /// Runs the evaluation step on the state, then hands the state to
    /// `finally`, and returns what the evaluation step returned.
    ///
    /// The finalizer runs exactly once on every way out of the evaluation
    /// step. On a normal return it is called here, after the step, with the
    /// state as the step left it. If the step unwinds instead, the guard's
    /// teardown calls it while the unwinding passes through, and the unwinding
    /// then goes on to the caller.
    ///
    /// The finalizer has to accept every state, not only those that the step
    /// leaves behind when it returns: a step that unwinds may have stopped
    /// anywhere.
    ///
    /// What is promised of a call that returns: `result` is what the step
    /// returned for a borrow of the state as this stage held it, and the
    /// finalizer has since run to its end on the state that this borrow left
    /// behind. What happens when the step unwinds is beyond what a
    /// postcondition can say; there the guard's teardown stands in.
    pub fn finally<R, Finally>(self, finally: Finally) -> (result: R) where
        Eval: FnOnce(&mut State) -> R,
        Finally: FnOnce(State),

        requires
            forall|borrow: &mut State|
                *borrow == self.state() ==> call_requires(self.eval_step(), (borrow,)),
            forall|state: State| call_requires(finally, (state,)),
        ensures
            exists|borrow: &mut State|
                {
                    &&& *borrow == self.state()
                    &&& call_ensures(self.eval_step(), (borrow,), result)
                    &&& call_ensures(finally, (*final(borrow),), ())
                },
    {
        let RunnerWithTryEval { state, try_eval } = self;
        let mut guard = Guard {
            state: Some(state),
            finalizer: Some(Finalizer { call: finally, state: PhantomData }),
        };
        let result = match &mut guard.state {
            Some(state) => try_eval(state),
            None => unreached(),
        };
        guard.release();
        result
    }
}

/// A finalizer that may be called on any state whatever.
struct Finalizer<State, Finally: FnOnce(State)> {
    call: Finally,
    state: PhantomData<State>,
}

impl<State, Finally: FnOnce(State)> Finalizer<State, Finally> {
    /// The finalizer accepts every state: it is also called on one that a
    /// step left behind when it unwound, of which nothing is known.
    #[verifier::type_invariant]
    spec fn accepts_every_state(self) -> bool {
        forall|state: State| call_requires(self.call, (state,))
    }

    /// Calls the finalizer on `state`.
    fn run(self, state: State)
        ensures
            call_ensures(self.call, (state,), ()),
    {
        proof {
            use_type_invariant(&self);
        }
        let Finalizer { call, state: _ } = self;
        call(state)
    }
}

/// Owns the state and the finalizer while the evaluation step runs.
///
/// Both fields are filled until the finalizer has been called, and empty
/// afterwards, so that the finalizer cannot be called twice.
struct Guard<State, Finally: FnOnce(State)> {
    state: Option<State>,
    finalizer: Option<Finalizer<State, Finally>>,
}

impl<State, Finally: FnOnce(State)> Guard<State, Finally> {
    /// Calls the finalizer on the state if that has not happened yet, and
    /// leaves the guard empty.
    fn release(&mut self)
        ensures
            final(self).state is None,
            final(self).finalizer is None,
            old(self).state is Some && old(self).finalizer is Some ==> call_ensures(
                old(self).finalizer->0.call,
                (old(self).state->0,),
                (),
            ),
    {
        let state = self.state.take();
        let finalizer = self.finalizer.take();
        match (state, finalizer) {
            (Some(state), Some(finalizer)) => finalizer.run(state),
            _ => {},
        }
    }
}

impl<State, Finally: FnOnce(State)> Drop for Guard<State, Finally> {
    /// `Drop::drop` of `core`, which the language runs on a guard that goes
    /// out of scope, also while a panic unwinds through the scope. Verus does
    /// not model that call. It asks that the method be declared to open no
    /// invariant and not to unwind, and it cannot check either here, because
    /// the body leads to a call of a closure. So the body is not verified,
    /// and the two declarations are taken on trust. The call it makes asks
    /// for nothing.
    ///
    /// The declarations hold for these reasons. A guard is still filled at
    /// its teardown only when the evaluation step has unwound, and a
    /// finalizer that panics during an unwinding aborts the process rather
    /// than unwinding further; after a normal return the guard has been
    /// released already and `release` finds nothing to call. And a guard
    /// lives only inside [`RunnerWithTryEval::finally`], which may not be
    /// called while an invariant is open.
    #[verifier::external_body]
    fn drop(&mut self)
        opens_invariants none
        no_unwind
    {
        self.release()
    }
}

} // verus!
