//! The manager of a host's domains.

use super::calls::{Action, Error, Event};
use crate::step::Step;
use vstd::prelude::*;

verus! {

/// Creates, restores and destroys domains with the hypercalls of `C`. Every
/// operation is a step function: it starts in its `Start` state with
/// `Event::Begin`, and is then handed the outcome of each call that it asks
/// for.
#[derive(Debug)]
pub struct PlatformDomainManager<C> {
    call: C,
}

/// What the destruction of a domain is waiting for.
#[derive(Clone, Copy, Debug, PartialEq, Eq, Structural)]
pub enum DestroyState {
    Start,
    Destroying,
}

/// What the destruction of a domain does when `event` comes in `state`.
pub open spec fn destroy_step<E>(domid: u32, state: DestroyState, event: Event<E>) -> Step<
    DestroyState,
    Action,
    Result<(), Error<E>>,
> {
    match (state, event) {
        (DestroyState::Start, Event::Begin) => Step::Call {
            state: DestroyState::Destroying,
            action: Action::DestroyDomain { domid },
        },
        (DestroyState::Destroying, Event::Returned(Ok(_))) => Step::Done(Ok(())),
        (DestroyState::Destroying, Event::Returned(Err(error))) => Step::Done(
            Err(Error::Call(error)),
        ),
        _ => Step::Unexpected,
    }
}

impl<C> PlatformDomainManager<C> {
    /// The hypercalls.
    pub closed spec fn hypercalls(&self) -> C {
        self.call
    }

    /// A manager that makes its hypercalls with `call`. It never fails.
    pub fn new<E>(call: C) -> (manager: Result<Self, Error<E>>)
        ensures
            manager matches Ok(made) && made.hypercalls() == call,
    {
        Ok(PlatformDomainManager { call })
    }

    /// The hypercalls, to make one.
    pub fn call(&self) -> (call: &C)
        ensures
            *call == self.hypercalls(),
    {
        &self.call
    }

    /// Destroys a domain.
    pub fn destroy<E>(&self, domid: u32, state: DestroyState, event: Event<E>) -> (step: Step<
        DestroyState,
        Action,
        Result<(), Error<E>>,
    >)
        ensures
            step == destroy_step(domid, state, event),
    {
        match (state, event) {
            (DestroyState::Start, Event::Begin) => Step::Call {
                state: DestroyState::Destroying,
                action: Action::DestroyDomain { domid },
            },
            (DestroyState::Destroying, Event::Returned(returned)) => match returned {
                Ok(_) => Step::Done(Ok(())),
                Err(error) => Step::Done(Err(Error::Call(error))),
            },
            _ => Step::Unexpected,
        }
    }
}

} // verus!
