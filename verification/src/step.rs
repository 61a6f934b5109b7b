//! The answer of a step function, and the trace of a whole operation.

use vstd::prelude::*;

verus! {

/// What an operation does next, in state `S`, with calls `A` and result `T`.
#[derive(Debug, PartialEq, Eq)]
pub enum Step<S, A, T> {
    /// Make the call, then hand its outcome in together with the state.
    Call { state: S, action: A },
    /// The operation is over.
    Done(T),
    /// The event is not the outcome of the call that the state is waiting for.
    Unexpected,
}

/// The calls that an operation made, in order, and its result once it has one.
#[verifier::ext_equal]
pub struct Trace<A, T> {
    pub actions: Seq<A>,
    pub result: Option<T>,
}

/// The trace of an operation that starts in `state` and is handed `events`.
/// What comes after the result, or after an event that does not fit, is
/// ignored.
pub open spec fn trace<S, V, A, T>(
    step: spec_fn(S, V) -> Step<S, A, T>,
    state: S,
    events: Seq<V>,
) -> Trace<A, T>
    decreases events.len(),
{
    if events.len() == 0 {
        Trace { actions: Seq::empty(), result: None }
    } else {
        match step(state, events[0]) {
            Step::Call { state: next, action } => {
                let rest = trace(step, next, events.drop_first());
                Trace { actions: seq![action] + rest.actions, result: rest.result }
            },
            Step::Done(result) => Trace { actions: Seq::empty(), result: Some(result) },
            Step::Unexpected => Trace { actions: Seq::empty(), result: None },
        }
    }
}

} // verus!
