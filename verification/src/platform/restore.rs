//! Restoring a domain from a checkpoint.

use super::calls::{Action, Error, ErrorView, Event};
use super::config::{
    DomainInfoView, PlatformBootResourcesInfo, PlatformDomainInfo, PlatformResourcesConfig,
    PlatformRestoreConfig,
};
use super::create::base_domain_spec;
use super::manager::PlatformDomainManager;
use super::ring::{ring_step, RingState};
use crate::outside::uuid_octets;
use crate::restore::RestoreResult;
use crate::step::Step;
use crate::text::joined;
use vstd::prelude::*;

verus! {

/// What the restore of a domain is waiting for.
#[derive(Debug, PartialEq, Eq)]
pub enum RestoringState {
    Start,
    CreatingDomain,
    SettingVcpus { domid: u32 },
    SettingMemory { domid: u32 },
    AllocatingStore { domid: u32 },
    AllocatingConsole { domid: u32, store_evtchn: u32 },
    Restoring { domid: u32, store_evtchn: u32, console_evtchn: u32 },
    /// The checkpoint could not be loaded, and the domain is being destroyed.
    Destroying { reason: String },
    ResettingRing {
        domid: u32,
        store_evtchn: u32,
        console_evtchn: u32,
        result: RestoreResult,
        ring: RingState,
    },
}

/// A step of a restore.
pub type RestoringStep<E> = Step<RestoringState, Action, Result<PlatformDomainInfo, Error<E>>>;

/// A step of a restore, with sequences for the texts and lists of its result.
pub type RestoringStepView<E> = Step<RestoringState, Action, Result<DomainInfoView, ErrorView<E>>>;

/// A step, with sequences for the texts and lists of its result.
pub open spec fn restoring_step_view<E>(step: RestoringStep<E>) -> RestoringStepView<E> {
    match step {
        Step::Call { state, action } => Step::Call { state, action },
        Step::Done(Ok(info)) => Step::Done(Ok(info@)),
        Step::Done(Err(error)) => Step::Done(Err(error@)),
        Step::Unexpected => Step::Unexpected,
    }
}

/// What is known of a restored domain: its channels and the frames of its
/// shared pages. It has no boot resources.
pub open spec fn restored_info(
    domid: u32,
    store_evtchn: u32,
    console_evtchn: u32,
    result: RestoreResult,
) -> DomainInfoView {
    DomainInfoView {
        domid,
        store_evtchn,
        store_mfn: result.store_mfn,
        console_evtchn,
        console_mfn: result.console_mfn,
        ninepfs: Seq::empty(),
    }
}

/// A step of the ring's reset, within the restore: once the ring is clean the
/// domain is restored.
pub open spec fn reset_within<E>(
    domid: u32,
    store_evtchn: u32,
    console_evtchn: u32,
    result: RestoreResult,
    step: Step<RingState, Action, Result<(), Error<E>>>,
) -> RestoringStepView<E> {
    match step {
        Step::Call { state, action } => Step::Call {
            state: RestoringState::ResettingRing {
                domid,
                store_evtchn,
                console_evtchn,
                result,
                ring: state,
            },
            action,
        },
        Step::Done(Ok(_)) => Step::Done(
            Ok(restored_info(domid, store_evtchn, console_evtchn, result)),
        ),
        Step::Done(Err(error)) => Step::Done(Err(error@)),
        Step::Unexpected => Step::Unexpected,
    }
}

/// What the restore of a domain does when `event` comes in `state`.
pub open spec fn restoring_step<P, E>(
    config: PlatformRestoreConfig<P>,
    checkpoint_fd: i32,
    state: RestoringState,
    event: Event<E>,
) -> RestoringStepView<E> {
    match (state, event) {
        (RestoringState::Start, Event::Begin) => Step::Call {
            state: RestoringState::CreatingDomain,
            action: Action::CreateDomain(
                base_domain_spec(uuid_octets(config.uuid), config.options, config.resources),
            ),
        },
        (RestoringState::CreatingDomain, Event::Created(Ok(domid))) => Step::Call {
            state: RestoringState::SettingVcpus { domid },
            action: Action::SetMaxVcpus { domid, max_vcpus: config.resources.max_vcpus },
        },
        (RestoringState::SettingVcpus { domid }, Event::Returned(Ok(_))) => Step::Call {
            state: RestoringState::SettingMemory { domid },
            action: Action::SetMaxMem {
                domid,
                max_memory_kb: config.resources.restore_max_memory_kb() as u64,
            },
        },
        (RestoringState::SettingMemory { domid }, Event::Returned(Ok(_))) => Step::Call {
            state: RestoringState::AllocatingStore { domid },
            action: Action::AllocUnbound { domid, remote_domid: 0 },
        },
        (RestoringState::AllocatingStore { domid }, Event::Allocated(Ok(store_evtchn))) =>
        Step::Call {
            state: RestoringState::AllocatingConsole { domid, store_evtchn },
            action: Action::AllocUnbound { domid, remote_domid: 0 },
        },
        (
            RestoringState::AllocatingConsole { domid, store_evtchn },
            Event::Allocated(Ok(console_evtchn)),
        ) => Step::Call {
            state: RestoringState::Restoring { domid, store_evtchn, console_evtchn },
            action: Action::RestoreDomain { domid, checkpoint_fd, store_evtchn, console_evtchn },
        },
        (RestoringState::CreatingDomain, Event::Created(Err(error))) => Step::Done(
            Err(ErrorView::Call(error)),
        ),
        (
            RestoringState::SettingVcpus { .. } | RestoringState::SettingMemory { .. },
            Event::Returned(Err(error)),
        ) => Step::Done(Err(ErrorView::Call(error))),
        (
            RestoringState::AllocatingStore { .. } | RestoringState::AllocatingConsole { .. },
            Event::Allocated(Err(error)),
        ) => Step::Done(Err(ErrorView::Call(error))),
        (RestoringState::Restoring { domid, .. }, Event::Restored(Err(reason))) => Step::Call {
            state: RestoringState::Destroying { reason },
            action: Action::DestroyDomain { domid },
        },
        (RestoringState::Destroying { reason }, Event::Returned(_)) => Step::Done(
            Err(ErrorView::GenericError("domain restore failed: "@ + reason@)),
        ),
        (
            RestoringState::Restoring { domid, store_evtchn, console_evtchn },
            Event::Restored(Ok(result)),
        ) => reset_within(
            domid,
            store_evtchn,
            console_evtchn,
            result,
            ring_step::<E>(domid, result.store_mfn, RingState::Start, Event::Begin),
        ),
        (
            RestoringState::ResettingRing { domid, store_evtchn, console_evtchn, result, ring },
            _,
        ) => reset_within(
            domid,
            store_evtchn,
            console_evtchn,
            result,
            ring_step(domid, result.store_mfn, ring, event),
        ),
        _ => Step::Unexpected,
    }
}

fn failed<E>(error: E) -> (step: RestoringStep<E>)
    ensures
        restoring_step_view(step) == RestoringStepView::<E>::Done(Err(ErrorView::Call(error))),
{
    Step::Done(Err(Error::Call(error)))
}

impl<C> PlatformDomainManager<C> {
    /// The memory that a restored domain may use, in KiB.
    pub fn restore_max_memory_kb(resources: &PlatformResourcesConfig) -> (kb: u64)
        requires
            resources.restore_max_memory_kb() <= u64::MAX,
        ensures
            kb == resources.restore_max_memory_kb(),
            kb == resources.max_memory_mb * 2048,
    {
        resources.max_memory_mb * 1024 * 2
    }

    fn reset_done<E>(
        domid: u32,
        store_evtchn: u32,
        console_evtchn: u32,
        result: RestoreResult,
        step: Step<RingState, Action, Result<(), Error<E>>>,
    ) -> (within: RestoringStep<E>)
        ensures
            restoring_step_view(within) == reset_within(
                domid,
                store_evtchn,
                console_evtchn,
                result,
                step,
            ),
            step matches Step::Done(Ok(_)) ==> {
                &&& within matches Step::Done(Ok(info))
                &&& info.domid == domid
                &&& info.store_evtchn == store_evtchn
                &&& info.store_mfn == result.store_mfn
                &&& info.console_evtchn == console_evtchn
                &&& info.console_mfn == result.console_mfn
                &&& info.boot_resources.ninepfs@.len() == 0
            },
            step matches Step::Done(Err(error)) ==> within == RestoringStep::<E>::Done(Err(error)),
            within matches Step::Done(Ok(_)) ==> step matches Step::Done(Ok(_)),
    {
        match step {
            Step::Call { state, action } => Step::Call {
                state: RestoringState::ResettingRing {
                    domid,
                    store_evtchn,
                    console_evtchn,
                    result,
                    ring: state,
                },
                action,
            },
            Step::Done(Ok(_)) => {
                let info = PlatformDomainInfo {
                    domid,
                    store_evtchn,
                    store_mfn: result.store_mfn,
                    console_evtchn,
                    console_mfn: result.console_mfn,
                    boot_resources: PlatformBootResourcesInfo::default(),
                };
                assert(info@ == restored_info(domid, store_evtchn, console_evtchn, result));
                Step::Done(Ok(info))
            },
            Step::Done(Err(error)) => Step::Done(Err(error)),
            Step::Unexpected => Step::Unexpected,
        }
    }

    /// Restores a domain from a checkpoint stream.
    ///
    /// Creates an empty domain as creation does, gives it generous memory, and
    /// an event channel each for xenstore and the console, and loads its
    /// memory from the checkpoint, which must be a raw migration stream. A
    /// domain whose checkpoint cannot be loaded is destroyed again. The grant
    /// table is left alone, as the load has seeded it. Last, the xenstore ring
    /// is reset, so that nothing stale of the old session is left on it.
    pub fn restore<P, E>(
        &self,
        config: &PlatformRestoreConfig<P>,
        checkpoint_fd: i32,
        state: RestoringState,
        event: Event<E>,
    ) -> (step: RestoringStep<E>)
        requires
            config.resources.restore_max_memory_kb() <= u64::MAX,
        ensures
            restoring_step_view(step) == restoring_step(*config, checkpoint_fd, state, event),
            step matches Step::Done(Ok(info)) ==> {
                &&& state matches RestoringState::ResettingRing {
                    domid,
                    store_evtchn,
                    console_evtchn,
                    result,
                    ring,
                }
                &&& ring is Unmapping
                &&& event is Unmapped
                &&& info.domid == domid
                &&& info.store_evtchn == store_evtchn
                &&& info.store_mfn == result.store_mfn
                &&& info.console_evtchn == console_evtchn
                &&& info.console_mfn == result.console_mfn
                &&& info.boot_resources.ninepfs@.len() == 0
            },
            step matches Step::Done(Err(Error::GenericError(text))) ==> {
                &&& state matches RestoringState::Destroying { reason }
                &&& text@ == "domain restore failed: "@ + reason@
            },
            step matches Step::Call { action: Action::SetMaxMem { max_memory_kb, .. }, .. }
                ==> max_memory_kb == config.resources.max_memory_mb * 2048,
    {
        match (state, event) {
            (RestoringState::Start, Event::Begin) => Step::Call {
                state: RestoringState::CreatingDomain,
                action: Action::CreateDomain(
                    self.create_base_domain(config.uuid, &config.options, &config.resources),
                ),
            },
            (RestoringState::CreatingDomain, Event::Created(created)) => match created {
                Err(error) => failed(error),
                Ok(domid) => Step::Call {
                    state: RestoringState::SettingVcpus { domid },
                    action: Action::SetMaxVcpus { domid, max_vcpus: config.resources.max_vcpus },
                },
            },
            (RestoringState::SettingVcpus { domid }, Event::Returned(returned)) => match returned {
                Err(error) => failed(error),
                Ok(_) => Step::Call {
                    state: RestoringState::SettingMemory { domid },
                    action: Action::SetMaxMem {
                        domid,
                        max_memory_kb: Self::restore_max_memory_kb(&config.resources),
                    },
                },
            },
            (RestoringState::SettingMemory { domid }, Event::Returned(returned)) => match returned {
                Err(error) => failed(error),
                Ok(_) => Step::Call {
                    state: RestoringState::AllocatingStore { domid },
                    action: Action::AllocUnbound { domid, remote_domid: 0 },
                },
            },
            (
                RestoringState::AllocatingStore { domid },
                Event::Allocated(allocated),
            ) => match allocated {
                Err(error) => failed(error),
                Ok(store_evtchn) => Step::Call {
                    state: RestoringState::AllocatingConsole { domid, store_evtchn },
                    action: Action::AllocUnbound { domid, remote_domid: 0 },
                },
            },
            (
                RestoringState::AllocatingConsole { domid, store_evtchn },
                Event::Allocated(allocated),
            ) => match allocated {
                Err(error) => failed(error),
                Ok(console_evtchn) => Step::Call {
                    state: RestoringState::Restoring { domid, store_evtchn, console_evtchn },
                    action: Action::RestoreDomain {
                        domid,
                        checkpoint_fd,
                        store_evtchn,
                        console_evtchn,
                    },
                },
            },
            (
                RestoringState::Restoring { domid, store_evtchn, console_evtchn },
                Event::Restored(restored),
            ) => match restored {
                Err(reason) => Step::Call {
                    state: RestoringState::Destroying { reason },
                    action: Action::DestroyDomain { domid },
                },
                Ok(result) => {
                    let begun = self.reset_xenstore_ring(
                        domid,
                        result.store_mfn,
                        RingState::Start,
                        Event::Begin,
                    );
                    Self::reset_done(domid, store_evtchn, console_evtchn, result, begun)
                },
            },
            (RestoringState::Destroying { reason }, Event::Returned(_)) => Step::Done(
                Err(Error::GenericError(joined("domain restore failed: ", reason.as_str()))),
            ),
            (
                RestoringState::ResettingRing { domid, store_evtchn, console_evtchn, result, ring },
                event,
            ) => {
                let next = self.reset_xenstore_ring(domid, result.store_mfn, ring, event);
                Self::reset_done(domid, store_evtchn, console_evtchn, result, next)
            },
            _ => Step::Unexpected,
        }
    }
}

} // verus!
