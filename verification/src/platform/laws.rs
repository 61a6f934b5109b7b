//! What holds of a whole creation or restore, however its calls turn out.

use super::calls::{Action, BootDomain, Error, ErrorView, Event};
use super::config::{
    DomainInfoView, PlatformDomainConfig, PlatformDomainInfo, PlatformResourcesConfig,
    PlatformRestoreConfig,
};
use super::create::{
    base_domain_spec, booted_info, create_step, image_load, ConfigureState, CreateState,
    InternalState,
};
use super::restore::{restored_info, restoring_step, RestoringState, RestoringStepView};
use super::ring::{RingState, XEN_PAGE_SIZE};
use crate::outside::uuid_octets;
use crate::restore::RestoreResult;
use crate::step::{trace, Step, Trace};
use vstd::prelude::*;

verus! {

/// A creation as a step function.
pub open spec fn create_machine<P, E>(config: PlatformDomainConfig<P>) -> spec_fn(
    CreateState<E>,
    Event<E>,
) -> Step<CreateState<E>, Action, Result<PlatformDomainInfo, Error<E>>> {
    |state: CreateState<E>, event: Event<E>| create_step(config, state, event)
}

/// What a whole creation does when its calls turn out as `events`, which start
/// with `Event::Begin`.
pub open spec fn create_trace<P, E>(
    config: PlatformDomainConfig<P>,
    events: Seq<Event<E>>,
) -> Trace<Action, Result<PlatformDomainInfo, Error<E>>> {
    trace(create_machine(config), CreateState::Start, events)
}

/// The calls of a creation in which nothing fails and the hypervisor names the
/// domain `domid`.
pub open spec fn create_plan<P>(config: PlatformDomainConfig<P>, domid: u32) -> Seq<Action> {
    seq![
        Action::CreateDomain(
            base_domain_spec(uuid_octets(config.uuid), config.options, config.resources),
        ),
        Action::SetMaxVcpus { domid, max_vcpus: config.resources.max_vcpus },
        Action::SetMaxMem { domid, max_memory_kb: config.resources.max_memory_kb() as u64 },
        Action::LoadImage(image_load(config.kernel.format)),
        Action::Initialize { domid },
        Action::Boot { domid },
    ]
}

/// The failure that `event` reports of a call of a creation.
pub open spec fn failure<E>(event: Event<E>) -> Option<Error<E>> {
    match event {
        Event::Created(Err(error)) => Some(Error::Call(error)),
        Event::Returned(Err(error)) => Some(Error::Call(error)),
        Event::ImageLoaded(Err(lost)) => Some(Error::AsyncJoinError(lost)),
        Event::ImageLoaded(Ok(Err(error))) => Some(Error::Call(error)),
        Event::Booted(Err(error)) => Some(Error::Call(error)),
        _ => None,
    }
}

/// How many calls have been made when the filling of a domain waits in
/// `state`.
pub open spec fn filling_calls(state: InternalState) -> nat {
    match state {
        InternalState::Start => 1,
        InternalState::Configuring(ConfigureState::Start) => 1,
        InternalState::Configuring(ConfigureState::SettingVcpus) => 2,
        InternalState::Configuring(ConfigureState::SettingMemory) => 3,
        InternalState::LoadingImage => 4,
        InternalState::Initializing => 5,
        InternalState::Booting => 6,
    }
}

/// The first calls of `plan`, with or without a destruction of `domid` behind
/// them.
pub open spec fn planned(actions: Seq<Action>, plan: Seq<Action>, domid: u32) -> bool {
    ||| actions.is_prefix_of(plan)
    ||| actions.len() > 0 && actions.last() == (Action::DestroyDomain { domid })
        && actions.drop_last().is_prefix_of(plan)
}

proof fn lemma_destroying<P, E>(
    config: PlatformDomainConfig<P>,
    error: Error<E>,
    events: Seq<Event<E>>,
)
    ensures
        trace(create_machine(config), CreateState::Destroying { error }, events).actions
            == Seq::<Action>::empty(),
        trace(create_machine(config), CreateState::Destroying { error }, events).result matches
            Some(result) ==> result == Err::<PlatformDomainInfo, Error<E>>(error),
{
}

proof fn lemma_filling<P, E>(
    config: PlatformDomainConfig<P>,
    domid: u32,
    state: InternalState,
    events: Seq<Event<E>>,
)
    requires
        filling_calls(state) >= 2,
    ensures
        ({
            let rest = trace(
                create_machine::<P, E>(config),
                CreateState::Filling { domid, state },
                events,
            );
            let made = filling_calls(state) as int;
            let plan = create_plan(config, domid).skip(made);
            let calls = rest.actions.len() as int;
            &&& planned(rest.actions, plan, domid)
            &&& rest.result matches Some(Ok(info)) ==> {
                &&& rest.actions == plan
                &&& events.len() > 6 - made
                &&& events[6 - made] matches Event::Booted(Ok(booted))
                &&& info == booted_info(domid, booted)
            }
            &&& rest.result matches Some(Err(error)) ==> {
                &&& calls > 0
                &&& rest.actions.last() == (Action::DestroyDomain { domid })
                &&& rest.actions.drop_last().is_prefix_of(plan)
                &&& events.len() > calls
                &&& failure(events[calls - 1]) == Some(error)
            }
        }),
    decreases events.len(),
{
    let machine = create_machine::<P, E>(config);
    let now = CreateState::Filling { domid, state };
    let made = filling_calls(state) as int;
    let plan = create_plan(config, domid).skip(made);
    let rest = trace(machine, now, events);
    if events.len() > 0 {
        let later_events = events.drop_first();
        match machine(now, events[0]) {
            Step::Call { state: CreateState::Filling { domid: same, state: next }, action } => {
                lemma_filling(config, domid, next, later_events);
                let later = trace(machine, CreateState::Filling { domid, state: next }, later_events);
                assert(same == domid);
                assert(filling_calls(next) == made + 1);
                assert(action == plan[0]);
                assert(plan.skip(1) == create_plan(config, domid).skip(made + 1));
                assert(rest.actions == seq![action] + later.actions);
                if later.actions.len() > 0 {
                    assert(rest.actions.last() == later.actions.last());
                    assert(rest.actions.drop_last() == seq![action] + later.actions.drop_last());
                }
                if later.result matches Some(Ok(info)) {
                    assert(rest.actions == plan);
                }
            },
            Step::Call { state: CreateState::Destroying { error }, action } => {
                lemma_destroying(config, error, later_events);
                assert(rest.actions == seq![action]);
                assert(rest.actions.drop_last() == Seq::<Action>::empty());
                assert(failure(events[0]) == Some(error));
            },
            _ => {},
        }
    }
}

/// A creation makes its calls in one fixed order. It ends in one of three
/// ways. All calls go well: the result tells of the domain that was created
/// and booted. Or no domain could be created: nothing else is called, and the
/// failure is returned. Or a later call fails: the domain that was created is
/// destroyed, nothing else is called, and the failure of that call is returned
/// whatever comes of the destruction.
pub proof fn law_creation_leaves_no_half_made_domain<P, E>(
    config: PlatformDomainConfig<P>,
    events: Seq<Event<E>>,
)
    ensures
        ({
            let whole = create_trace(config, events);
            let calls = whole.actions.len() as int;
            &&& events.len() > 1 ==> (events[1] matches Event::Created(Ok(domid)) ==> planned(
                whole.actions,
                create_plan(config, domid),
                domid,
            ))
            &&& whole.result matches Some(Ok(info)) ==> {
                &&& events.len() > 6
                &&& events[1] matches Event::Created(Ok(domid))
                &&& events[6] matches Event::Booted(Ok(booted))
                &&& whole.actions == create_plan(config, domid)
                &&& info == booted_info(domid, booted)
            }
            &&& whole.result matches Some(Err(error)) ==> {
                &&& calls > 0
                &&& events.len() > 1
                &&& match events[1] {
                    Event::Created(Ok(domid)) => {
                        &&& whole.actions.last() == (Action::DestroyDomain { domid })
                        &&& whole.actions.drop_last().is_prefix_of(create_plan(config, domid))
                        &&& events.len() > calls
                        &&& failure(events[calls - 1]) == Some(error)
                    },
                    _ => {
                        &&& whole.actions == create_plan(config, 0).take(1)
                        &&& failure(events[1]) == Some(error)
                    },
                }
            }
        }),
{
    let machine = create_machine::<P, E>(config);
    let whole = create_trace(config, events);
    reveal_with_fuel(trace, 3);
    if events.len() > 1 {
        let replies = events.drop_first();
        let later_events = replies.drop_first();
        match (events[0], replies[0]) {
            (Event::Begin, Event::Created(Ok(domid))) => {
                let state = InternalState::Configuring(ConfigureState::SettingVcpus);
                let plan = create_plan(config, domid);
                lemma_filling(config, domid, state, later_events);
                let later = trace(machine, CreateState::Filling { domid, state }, later_events);
                assert(whole.actions == seq![plan[0]] + (seq![plan[1]] + later.actions));
                assert(whole.actions == plan.take(2) + later.actions);
                assert(plan == plan.take(2) + plan.skip(2));
                if later.actions.len() > 0 {
                    assert(whole.actions.last() == later.actions.last());
                    assert(whole.actions.drop_last() == plan.take(2) + later.actions.drop_last());
                }
            },
            (Event::Begin, Event::Created(Err(error))) => {
                assert(whole.actions == create_plan(config, 0).take(1));
            },
            _ => {},
        }
    }
}

/// A creation of which every call goes well makes all of its calls and tells
/// of the booted domain.
pub proof fn law_creation_succeeds<P, E>(
    config: PlatformDomainConfig<P>,
    domid: u32,
    booted: BootDomain,
)
    ensures
        create_trace::<P, E>(
            config,
            seq![
                Event::Begin,
                Event::Created(Ok(domid)),
                Event::Returned(Ok(())),
                Event::Returned(Ok(())),
                Event::ImageLoaded(Ok(Ok(()))),
                Event::Returned(Ok(())),
                Event::Booted(Ok(booted)),
            ],
        ) == (Trace {
            actions: create_plan(config, domid),
            result: Some(Ok::<PlatformDomainInfo, Error<E>>(booted_info(domid, booted))),
        }),
{
    reveal_with_fuel(trace, 8);
    let events: Seq<Event<E>> = seq![
        Event::Begin,
        Event::Created(Ok(domid)),
        Event::Returned(Ok(())),
        Event::Returned(Ok(())),
        Event::ImageLoaded(Ok(Ok(()))),
        Event::Returned(Ok(())),
        Event::Booted(Ok(booted)),
    ];
    assert(create_trace::<P, E>(config, events).actions == create_plan(config, domid));
}

/// A restore as a step function.
pub open spec fn restoring_machine<P, E>(
    config: PlatformRestoreConfig<P>,
    checkpoint_fd: i32,
) -> spec_fn(RestoringState, Event<E>) -> RestoringStepView<E> {
    |state: RestoringState, event: Event<E>| restoring_step(config, checkpoint_fd, state, event)
}

/// What a whole restore does when its calls turn out as `events`, which start
/// with `Event::Begin`.
pub open spec fn restoring_trace<P, E>(
    config: PlatformRestoreConfig<P>,
    checkpoint_fd: i32,
    events: Seq<Event<E>>,
) -> Trace<Action, Result<DomainInfoView, ErrorView<E>>> {
    trace(restoring_machine(config, checkpoint_fd), RestoringState::Start, events)
}

/// What the calls of a restore yield when none fails.
pub struct Restored {
    pub domid: u32,
    pub store_evtchn: u32,
    pub console_evtchn: u32,
    pub result: RestoreResult,
    /// Where the xenstore ring page was mapped.
    pub addr: u64,
}

/// The calls of a restore in which nothing fails.
pub open spec fn restoring_plan<P>(
    config: PlatformRestoreConfig<P>,
    checkpoint_fd: i32,
    made: Restored,
) -> Seq<Action> {
    let domid = made.domid;
    seq![
        Action::CreateDomain(
            base_domain_spec(uuid_octets(config.uuid), config.options, config.resources),
        ),
        Action::SetMaxVcpus { domid, max_vcpus: config.resources.max_vcpus },
        Action::SetMaxMem { domid, max_memory_kb: config.resources.restore_max_memory_kb() as u64 },
        Action::AllocUnbound { domid, remote_domid: 0 },
        Action::AllocUnbound { domid, remote_domid: 0 },
        Action::RestoreDomain {
            domid,
            checkpoint_fd,
            store_evtchn: made.store_evtchn,
            console_evtchn: made.console_evtchn,
        },
        Action::Mmap { addr: 0, size: XEN_PAGE_SIZE },
        Action::MmapBatch { domid, count: 1, addr: made.addr, frame: made.result.store_mfn },
        Action::ClearRing { addr: made.addr, size: XEN_PAGE_SIZE },
        Action::Munmap { addr: made.addr, size: XEN_PAGE_SIZE },
    ]
}

/// The outcomes of the calls of a restore in which nothing fails.
pub open spec fn restoring_events<E>(made: Restored) -> Seq<Event<E>> {
    seq![
        Event::Begin,
        Event::Created(Ok(made.domid)),
        Event::Returned(Ok(())),
        Event::Returned(Ok(())),
        Event::Allocated(Ok(made.store_evtchn)),
        Event::Allocated(Ok(made.console_evtchn)),
        Event::Restored(Ok(made.result)),
        Event::Mapped(Some(made.addr)),
        Event::Returned(Ok(())),
        Event::Cleared,
        Event::Unmapped,
    ]
}

/// A restore of which every call goes well loads the checkpoint with the
/// channels that were allocated for it, clears the xenstore ring page that the
/// load reported, and tells of the domain, its channels and its frames.
pub proof fn law_restore_succeeds<P, E>(
    config: PlatformRestoreConfig<P>,
    checkpoint_fd: i32,
    made: Restored,
)
    ensures
        restoring_trace::<P, E>(config, checkpoint_fd, restoring_events(made)) == (Trace {
            actions: restoring_plan(config, checkpoint_fd, made),
            result: Some(
                Ok::<DomainInfoView, ErrorView<E>>(
                    restored_info(made.domid, made.store_evtchn, made.console_evtchn, made.result),
                ),
            ),
        }),
{
    reveal_with_fuel(trace, 12);
    let whole = restoring_trace::<P, E>(config, checkpoint_fd, restoring_events(made));
    assert(whole.actions == restoring_plan(config, checkpoint_fd, made));
}

/// What the calls of a restore yielded, read off their outcomes. Where a call
/// failed or was not made its part means nothing.
pub open spec fn yielded<E>(events: Seq<Event<E>>) -> Restored {
    Restored {
        domid: events[1]->Created_0->Ok_0,
        store_evtchn: events[4]->Allocated_0->Ok_0,
        console_evtchn: events[5]->Allocated_0->Ok_0,
        result: events[6]->Restored_0->Ok_0,
        addr: events[7]->Mapped_0->Some_0,
    }
}

/// What a restore waits in after `calls` calls that went well.
pub open spec fn restoring_state(made: Restored, calls: int) -> RestoringState {
    let Restored { domid, store_evtchn, console_evtchn, result, addr } = made;
    if calls == 0 {
        RestoringState::Start
    } else if calls == 1 {
        RestoringState::CreatingDomain
    } else if calls == 2 {
        RestoringState::SettingVcpus { domid }
    } else if calls == 3 {
        RestoringState::SettingMemory { domid }
    } else if calls == 4 {
        RestoringState::AllocatingStore { domid }
    } else if calls == 5 {
        RestoringState::AllocatingConsole { domid, store_evtchn }
    } else if calls == 6 {
        RestoringState::Restoring { domid, store_evtchn, console_evtchn }
    } else {
        RestoringState::ResettingRing {
            domid,
            store_evtchn,
            console_evtchn,
            result,
            ring: if calls == 7 {
                RingState::Reserving
            } else if calls == 8 {
                RingState::Mapping { addr }
            } else if calls == 9 {
                RingState::Clearing { addr }
            } else {
                RingState::Unmapping
            },
        }
    }
}

/// The failure that `event` reports of a call of a restore, but for the load
/// of the checkpoint.
pub open spec fn restoring_failure<E>(event: Event<E>) -> Option<ErrorView<E>> {
    match event {
        Event::Created(Err(error)) => Some(ErrorView::Call(error)),
        Event::Returned(Err(error)) => Some(ErrorView::Call(error)),
        Event::Allocated(Err(error)) => Some(ErrorView::Call(error)),
        Event::Mapped(None) => Some(ErrorView::MmapFailed),
        _ => None,
    }
}

/// The outcomes from the `from`th up to the `to`th are those of a restore in
/// which nothing fails.
pub open spec fn went_well<E>(events: Seq<Event<E>>, from: int, to: int) -> bool {
    &&& to <= events.len()
    &&& forall|i: int|
        from <= i < to ==> #[trigger] events[i] == restoring_events::<E>(yielded(events))[i]
}

pub(crate) proof fn lemma_restoring<P, E>(
    config: PlatformRestoreConfig<P>,
    checkpoint_fd: i32,
    events: Seq<Event<E>>,
    calls: int,
)
    requires
        0 <= calls <= 10,
        calls <= events.len(),
    ensures
        ({
            let made = yielded(events);
            let plan = restoring_plan(config, checkpoint_fd, made);
            let rest = trace(
                restoring_machine::<P, E>(config, checkpoint_fd),
                restoring_state(made, calls),
                events.skip(calls),
            );
            let end = calls + rest.actions.len();
            &&& end <= 10
            &&& if calls <= 6 && end == 7 && events.len() > 6 && events[6] matches Event::Restored(
                Err(_),
            ) {
                &&& went_well(events, calls, 6)
                &&& rest.actions == plan.subrange(calls, 6).push(
                    Action::DestroyDomain { domid: made.domid },
                )
                &&& rest.result is Some ==> events.len() > 7 && events[7] is Returned
            } else {
                &&& went_well(events, calls, end)
                &&& rest.actions == plan.subrange(calls, end)
            }
            &&& rest.result matches Some(Ok(info)) ==> {
                &&& went_well(events, calls, 11)
                &&& rest.actions == plan.skip(calls)
                &&& info == restored_info(
                    made.domid,
                    made.store_evtchn,
                    made.console_evtchn,
                    made.result,
                )
            }
            &&& rest.result matches Some(Err(error)) ==> if calls <= 6 && end == 7
                && events[6] matches Event::Restored(Err(reason)) {
                &&& went_well(events, calls, 6)
                &&& rest.actions == plan.subrange(calls, 6).push(
                    Action::DestroyDomain { domid: made.domid },
                )
                &&& error == ErrorView::<E>::GenericError(
                    "domain restore failed: "@ + events[6]->Restored_0->Err_0@,
                )
            } else {
                &&& end < 11
                &&& end < events.len()
                &&& went_well(events, calls, end)
                &&& rest.actions == plan.subrange(calls, end)
                &&& restoring_failure(events[end]) == Some(error)
                &&& match events[end] {
                    Event::Created(_) => end == 1,
                    Event::Returned(_) => end == 2 || end == 3 || end == 8,
                    Event::Allocated(_) => end == 4 || end == 5,
                    _ => end == 7,
                }
            }
        }),
    decreases 10 - calls,
{
    let machine = restoring_machine::<P, E>(config, checkpoint_fd);
    let made = yielded(events);
    let plan = restoring_plan(config, checkpoint_fd, made);
    let expected = restoring_events::<E>(made);
    let state = restoring_state(made, calls);
    let coming = events.skip(calls);
    let rest = trace(machine, state, coming);
    if coming.len() > 0 {
        assert(coming[0] == events[calls]);
        assert(coming.drop_first() == events.skip(calls + 1));
        if let Event::Returned(Ok(nothing)) = events[calls] {
            assert(nothing == ());
        }
        if calls < 10 && events[calls] == expected[calls] {
            lemma_restoring(config, checkpoint_fd, events, calls + 1);
            let next = restoring_state(made, calls + 1);
            assert(machine(state, events[calls]) == (Step::<
                RestoringState,
                Action,
                Result<DomainInfoView, ErrorView<E>>,
            >::Call { state: next, action: plan[calls] }));
            let later = trace(machine, next, events.skip(calls + 1));
            assert(rest.actions == seq![plan[calls]] + later.actions);
            assert(plan.skip(calls) == seq![plan[calls]] + plan.skip(calls + 1));
        } else if calls == 6 && events[6] is Restored {
            reveal_with_fuel(trace, 3);
            assert(plan.subrange(6, 6) == Seq::<Action>::empty());
        } else {
            assert(rest.actions == Seq::<Action>::empty());
            if calls < 10 {
                assert(plan.subrange(calls, calls) == Seq::<Action>::empty());
            }
        }
    }
}

/// A restore makes its calls in one fixed order. It ends in one of three ways.
/// All calls go well: the result tells of the domain, its channels and the
/// frames that the checkpoint's load reported. Or the checkpoint cannot be
/// loaded: the domain is destroyed, and the failure is returned whatever comes
/// of that. Or another call fails: nothing else is called, and its failure is
/// returned.
pub proof fn law_restore_endings<P, E>(
    config: PlatformRestoreConfig<P>,
    checkpoint_fd: i32,
    events: Seq<Event<E>>,
)
    ensures
        ({
            let made = yielded(events);
            let plan = restoring_plan(config, checkpoint_fd, made);
            let whole = restoring_trace(config, checkpoint_fd, events);
            let end = whole.actions.len() as int;
            &&& whole.result matches Some(Ok(info)) ==> {
                &&& went_well(events, 0, 11)
                &&& whole.actions == plan
                &&& info == restored_info(
                    made.domid,
                    made.store_evtchn,
                    made.console_evtchn,
                    made.result,
                )
            }
            &&& whole.result matches Some(Err(error)) ==> if end == 7 && events[6] matches
                Event::Restored(Err(reason)) {
                &&& went_well(events, 0, 6)
                &&& whole.actions == plan.take(6).push(
                    Action::DestroyDomain { domid: made.domid },
                )
                &&& error == ErrorView::<E>::GenericError(
                    "domain restore failed: "@ + events[6]->Restored_0->Err_0@,
                )
            } else {
                &&& end < 11
                &&& end < events.len()
                &&& went_well(events, 0, end)
                &&& whole.actions == plan.take(end)
                &&& restoring_failure(events[end]) == Some(error)
            }
        }),
{
    lemma_restoring(config, checkpoint_fd, events, 0);
    assert(events.skip(0) == events);
    let plan = restoring_plan(config, checkpoint_fd, yielded(events));
    assert(plan.skip(0) == plan);
}

/// Creation and restore ask for the same empty domain, given the same UUID,
/// options and resources.
pub proof fn law_restore_begins_as_creation_does<P, Q, E>(
    create: PlatformDomainConfig<P>,
    restore: PlatformRestoreConfig<Q>,
    checkpoint_fd: i32,
    events: Seq<Event<E>>,
)
    requires
        create.uuid == restore.uuid,
        create.options == restore.options,
        create.resources == restore.resources,
        events.len() > 0,
        events[0] is Begin,
    ensures
        create_trace(create, events).actions.len() > 0,
        restoring_trace(restore, checkpoint_fd, events).actions.len() > 0,
        create_trace(create, events).actions[0] == restoring_trace(
            restore,
            checkpoint_fd,
            events,
        ).actions[0],
{
}

/// `event` is an outcome of the call `action`.
pub open spec fn answers<E>(action: Action, event: Event<E>) -> bool {
    match action {
        Action::CreateDomain(_) => event is Created,
        Action::LoadImage(_) => event is ImageLoaded,
        Action::Boot { .. } => event is Booted,
        Action::AllocUnbound { .. } => event is Allocated,
        Action::RestoreDomain { .. } => event is Restored,
        Action::Mmap { .. } => event is Mapped,
        Action::ClearRing { .. } => event is Cleared,
        Action::Munmap { .. } => event is Unmapped,
        _ => event is Returned,
    }
}

/// Whatever comes of a call that a creation or a restore asked for, there is a
/// next step: an outcome of the right kind is never unexpected.
pub proof fn law_outcomes_are_expected<P, Q, E>(
    create: PlatformDomainConfig<P>,
    restore: PlatformRestoreConfig<Q>,
    checkpoint_fd: i32,
    creating: CreateState<E>,
    restoring: RestoringState,
    before: Event<E>,
    event: Event<E>,
)
    ensures
        create_step(create, creating, before) matches Step::Call { state, action } ==> answers(
            action,
            event,
        ) ==> create_step(create, state, event) !is Unexpected,
        restoring_step(restore, checkpoint_fd, restoring, before) matches Step::Call {
            state,
            action,
        } ==> answers(action, event) ==> restoring_step(restore, checkpoint_fd, state, event) !is Unexpected,
{
}

/// From two MiB on, a restored domain may use at least as much memory as a
/// newly created one with the same resources.
pub proof fn law_restore_is_generous(resources: PlatformResourcesConfig)
    requires
        resources.max_memory_mb >= 2,
    ensures
        resources.restore_max_memory_kb() >= resources.max_memory_kb(),
{
}

} // verus!
