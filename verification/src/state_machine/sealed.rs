use vstd::prelude::*;

verus! {

/// The bound behind [`Runner::finally`](super::Runner::finally).
///
/// No type implements this trait and, since this module is private, none
/// outside the crate can. A call of `.finally()` on a runner that has not been
/// given its `.try_eval()` step therefore fails to type-check, and the
/// compiler's message names this trait: the step is missing.
#[allow(non_camel_case_types)]
pub trait missing_try_eval<F> {
    /// Never called: there is no implementor to call it on.
    fn unreachable<R>() -> R;
}

} // verus!
