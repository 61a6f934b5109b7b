//! What creation, restore and destruction ask of the hypervisor and hand back,
//! field by field and in plain numbers.

use super::calls::{Action, BootDomain, Error, ErrorView, Event, ImageLoad};
use super::config::{
    KernelFormat, PlatformDomainConfig, PlatformDomainInfo, PlatformOptions,
    PlatformResourcesConfig, PlatformRestoreConfig,
};
use super::create::{
    base_domain_spec, configure_step, create_step, internal_step, ConfigureState, CreateState,
    InternalState,
};
use super::laws::{
    create_machine, create_plan, lemma_restoring, restoring_machine, restoring_plan, yielded,
};
use super::manager::{destroy_step, DestroyState};
use super::restore::{restoring_step, restoring_step_view, RestoringState, RestoringStepView};
use super::ring::{cleared, ring_step, RingState};
use crate::outside::uuid_octets;
use crate::step::{trace, Step};
use vstd::prelude::*;

verus! {

/// A new domain may use its own memory and two MiB more, and a restored one
/// twice its own.
pub proof fn law_memory_limits(resources: PlatformResourcesConfig)
    ensures
        resources.max_memory_kb() == resources.max_memory_mb * 1024 + 2048,
        resources.restore_max_memory_kb() == resources.max_memory_mb * 2048,
{
}

/// One MiB more of configured memory raises the limit of a new domain by 1024
/// KiB, and that of a restored one by 2048 KiB.
pub proof fn law_memory_limits_grow_with_the_memory(
    less: PlatformResourcesConfig,
    more: PlatformResourcesConfig,
)
    requires
        more.max_memory_mb == less.max_memory_mb + 1,
    ensures
        more.max_memory_kb() - less.max_memory_kb() == 1024,
        more.restore_max_memory_kb() - less.restore_max_memory_kb() == 2048,
{
}

/// An empty domain carries the handle, the IOMMU setting and the vCPU count
/// that it was asked for, and is capped at 8 grant frames, 16 maptrack frames
/// and event channel 128.
pub proof fn law_what_an_empty_domain_is(
    handle: [u8; 16],
    options: PlatformOptions,
    resources: PlatformResourcesConfig,
)
    ensures
        base_domain_spec(handle, options, resources).handle == handle,
        base_domain_spec(handle, options, resources).iommu == options.iommu,
        base_domain_spec(handle, options, resources).max_vcpus == resources.max_vcpus,
        base_domain_spec(handle, options, resources).max_grant_frames == 8,
        base_domain_spec(handle, options, resources).max_maptrack_frames == 16,
        base_domain_spec(handle, options, resources).max_evtchn_port == 128,
{
}

/// The limits of a domain are set in two calls, first the vCPUs and then the
/// memory. The first that fails ends it.
pub proof fn law_what_setting_limits_does<E>(
    domid: u32,
    resources: PlatformResourcesConfig,
    state: ConfigureState,
    event: Event<E>,
    error: E,
)
    requires
        resources.max_memory_mb * 1024 + 2048 <= u64::MAX,
    ensures
        configure_step::<E>(domid, resources, ConfigureState::Start, Event::Begin) matches
            Step::Call { state: next, action } && next == ConfigureState::SettingVcpus && action
            == (Action::SetMaxVcpus { domid, max_vcpus: resources.max_vcpus }),
        configure_step::<E>(domid, resources, ConfigureState::SettingVcpus, Event::Returned(Ok(())))
            matches Step::Call { state: next, action } && next == ConfigureState::SettingMemory && (
        action matches Action::SetMaxMem { domid: to, max_memory_kb } && to == domid
            && max_memory_kb == resources.max_memory_mb * 1024 + 2048),
        configure_step::<E>(
            domid,
            resources,
            ConfigureState::SettingMemory,
            Event::Returned(Ok(())),
        ) matches Step::Done(Ok(_)),
        state != ConfigureState::Start ==> (configure_step::<E>(
            domid,
            resources,
            state,
            Event::Returned(Err(error)),
        ) matches Step::Done(Err(got)) && got == Error::Call(error)),
        configure_step(domid, resources, state, event) is Unexpected <==> !(match state {
            ConfigureState::Start => event is Begin,
            _ => event is Returned,
        }),
{
}

/// A domain is filled by setting its limits, loading its kernel (decompressed
/// if it is compressed), laying it out and booting it. What booting yields is
/// handed back as it is, and a failure ends the filling.
pub proof fn law_what_filling_does<P, E>(
    domid: u32,
    config: PlatformDomainConfig<P>,
    configuring: ConfigureState,
    state: InternalState,
    event: Event<E>,
    booted: BootDomain,
    error: E,
)
    ensures
        internal_step(domid, config, InternalState::Configuring(configuring), event) == (
        match configure_step(domid, config.resources, configuring, event) {
            Step::Call { state: next, action } => Step::<
                InternalState,
                Action,
                Result<BootDomain, Error<E>>,
            >::Call { state: InternalState::Configuring(next), action },
            Step::Done(Ok(_)) => Step::Call {
                state: InternalState::LoadingImage,
                action: Action::LoadImage(
                    if config.kernel.format == KernelFormat::ElfCompressed {
                        ImageLoad::Decompress
                    } else {
                        ImageLoad::AsIs
                    },
                ),
            },
            Step::Done(Err(failure)) => Step::Done(Err(failure)),
            Step::Unexpected => Step::Unexpected,
        }),
        internal_step::<P, E>(domid, config, InternalState::Start, Event::Begin) == internal_step::<
            P,
            E,
        >(domid, config, InternalState::Configuring(ConfigureState::Start), Event::Begin),
        internal_step::<P, E>(
            domid,
            config,
            InternalState::LoadingImage,
            Event::ImageLoaded(Ok(Ok(()))),
        ) matches Step::Call { state: next, action } && next == InternalState::Initializing
            && action == (Action::Initialize { domid }),
        internal_step::<P, E>(
            domid,
            config,
            InternalState::Initializing,
            Event::Returned(Ok(())),
        ) matches Step::Call { state: next, action } && next == InternalState::Booting && action
            == (Action::Boot { domid }),
        internal_step::<P, E>(domid, config, InternalState::Booting, Event::Booted(Ok(booted)))
            matches Step::Done(Ok(got)) && got == booted,
        internal_step::<P, E>(
            domid,
            config,
            InternalState::LoadingImage,
            Event::ImageLoaded(Err(error)),
        ) matches Step::Done(Err(got)) && got == Error::AsyncJoinError(error),
        internal_step::<P, E>(
            domid,
            config,
            InternalState::LoadingImage,
            Event::ImageLoaded(Ok(Err(error))),
        ) matches Step::Done(Err(got)) && got == Error::Call(error),
        internal_step::<P, E>(
            domid,
            config,
            InternalState::Initializing,
            Event::Returned(Err(error)),
        ) matches Step::Done(Err(got)) && got == Error::Call(error),
        internal_step::<P, E>(domid, config, InternalState::Booting, Event::Booted(Err(error)))
            matches Step::Done(Err(got)) && got == Error::Call(error),
        internal_step(domid, config, state, event) is Unexpected <==> !(match state {
            InternalState::Start => event is Begin,
            InternalState::Configuring(ConfigureState::Start) => event is Begin,
            InternalState::Configuring(_) => event is Returned,
            InternalState::LoadingImage => event is ImageLoaded,
            InternalState::Initializing => event is Returned,
            InternalState::Booting => event is Booted,
        }),
{
}

/// What a creation waits in after `calls` calls that went well.
spec fn creating_state<E>(domid: u32, calls: int) -> CreateState<E> {
    if calls == 0 {
        CreateState::Start
    } else if calls == 1 {
        CreateState::CreatingDomain
    } else {
        CreateState::Filling {
            domid,
            state: if calls == 2 {
                InternalState::Configuring(ConfigureState::SettingVcpus)
            } else if calls == 3 {
                InternalState::Configuring(ConfigureState::SettingMemory)
            } else if calls == 4 {
                InternalState::LoadingImage
            } else if calls == 5 {
                InternalState::Initializing
            } else {
                InternalState::Booting
            },
        }
    }
}

/// The `i`th outcome of a creation reports that all is well.
spec fn fine<E>(events: Seq<Event<E>>, i: int) -> bool {
    if i == 0 {
        events[i] is Begin
    } else if i == 1 {
        events[i] matches Event::Created(Ok(_))
    } else if i == 4 {
        events[i] == Event::<E>::ImageLoaded(Ok(Ok(())))
    } else if i == 6 {
        events[i] matches Event::Booted(Ok(_))
    } else {
        events[i] == Event::<E>::Returned(Ok(()))
    }
}

/// `event` reports that a call on an existing domain failed with `error`.
spec fn fails<E>(event: Event<E>, error: Error<E>) -> bool {
    match event {
        Event::Returned(Err(cause)) => error == Error::Call(cause),
        Event::ImageLoaded(Err(cause)) => error == Error::AsyncJoinError(cause),
        Event::ImageLoaded(Ok(Err(cause))) => error == Error::Call(cause),
        Event::Booted(Err(cause)) => error == Error::Call(cause),
        _ => false,
    }
}

/// `event` reports that a call on an existing domain failed.
spec fn failed<E>(event: Event<E>) -> bool {
    match event {
        Event::Returned(reply) => reply is Err,
        Event::ImageLoaded(Ok(reply)) => reply is Err,
        Event::ImageLoaded(Err(_)) => true,
        Event::Booted(reply) => reply is Err,
        _ => false,
    }
}

proof fn lemma_creating<P, E>(config: PlatformDomainConfig<P>, events: Seq<Event<E>>, calls: int)
    requires
        0 <= calls <= 6,
        calls <= events.len(),
    ensures
        ({
            let domid = events[1]->Created_0->Ok_0;
            let plan = create_plan(config, domid);
            let rest = trace(
                create_machine::<P, E>(config),
                creating_state::<E>(domid, calls),
                events.skip(calls),
            );
            let end = calls + rest.actions.len();
            let destroyed = rest.actions.len() > 0 && rest.actions.last() is DestroyDomain;
            &&& !destroyed ==> {
                &&& end <= 6
                &&& end <= events.len()
                &&& rest.actions == plan.subrange(calls, end)
                &&& forall|i: int| calls <= i < end ==> fine(events, i)
            }
            &&& destroyed ==> {
                &&& 3 <= end <= 7
                &&& end <= events.len()
                &&& rest.actions == plan.subrange(calls, end - 1).push(
                    Action::DestroyDomain { domid },
                )
                &&& forall|i: int| calls <= i < end - 1 ==> fine(events, i)
                &&& failed(events[end - 1])
            }
            &&& rest.result matches Some(Ok(info)) ==> {
                &&& !destroyed
                &&& end == 6
                &&& events.len() > 6
                &&& fine(events, 6)
                &&& info.domid == domid
                &&& info.store_evtchn == events[6]->Booted_0->Ok_0.store_evtchn
                &&& info.store_mfn == events[6]->Booted_0->Ok_0.store_mfn
                &&& info.console_evtchn == events[6]->Booted_0->Ok_0.console_evtchn
                &&& info.console_mfn == events[6]->Booted_0->Ok_0.console_mfn
                &&& info.boot_resources == events[6]->Booted_0->Ok_0.boot_resources
            }
            &&& rest.result matches Some(Err(error)) ==> {
                &&& events.len() > end
                &&& destroyed ==> fails(events[end - 1], error) && events[end] is Returned
                &&& !destroyed ==> end == 1 && (events[1] matches Event::Created(Err(cause))
                    && error == Error::Call(cause))
            }
        }),
    decreases 6 - calls,
{
    let machine = create_machine::<P, E>(config);
    let domid = events[1]->Created_0->Ok_0;
    let plan = create_plan(config, domid);
    let state = creating_state::<E>(domid, calls);
    let coming = events.skip(calls);
    let rest = trace(machine, state, coming);
    if coming.len() > 0 {
        assert(coming[0] == events[calls]);
        assert(coming.drop_first() == events.skip(calls + 1));
        if let Event::Returned(Ok(nothing)) = events[calls] {
            assert(nothing == ());
        }
        if let Event::ImageLoaded(Ok(Ok(nothing))) = events[calls] {
            assert(nothing == ());
        }
        if calls < 6 && fine(events, calls) {
            lemma_creating(config, events, calls + 1);
            let next = creating_state::<E>(domid, calls + 1);
            assert(machine(state, events[calls]) == (Step::<
                CreateState<E>,
                Action,
                Result<PlatformDomainInfo, Error<E>>,
            >::Call { state: next, action: plan[calls] }));
            let later = trace(machine, next, events.skip(calls + 1));
            assert(rest.actions == seq![plan[calls]] + later.actions);
            if later.actions.len() > 0 {
                assert(rest.actions.last() == later.actions.last());
            }
        } else if let Step::Call { state: CreateState::Destroying { error }, action } = machine(
            state,
            events[calls],
        ) {
            reveal_with_fuel(trace, 3);
            assert(rest.actions == seq![action]);
            assert(fails(events[calls], error));
            assert(plan.subrange(calls, calls) == Seq::<Action>::empty());
            if events.len() > calls + 1 {
                assert(coming.drop_first()[0] == events[calls + 1]);
            }
        } else {
            assert(rest.actions == Seq::<Action>::empty());
            assert(plan.subrange(calls, calls) == Seq::<Action>::empty());
        }
    } else {
        assert(plan.subrange(calls, calls) == Seq::<Action>::empty());
    }
}

/// The calls of a creation, in their order and with their arguments. Each is
/// made only after all calls before it went well. The one other call is the
/// destruction of the domain that was created: it is the last, and follows a
/// call on that domain that failed.
pub proof fn law_what_a_creation_calls<P, E>(
    config: PlatformDomainConfig<P>,
    events: Seq<Event<E>>,
)
    requires
        config.resources.max_memory_mb * 1024 + 2048 <= u64::MAX,
    ensures
        ({
            let actions = trace(
                |state: CreateState<E>, event: Event<E>| create_step(config, state, event),
                CreateState::Start,
                events,
            ).actions;
            let calls = actions.len();
            &&& calls <= events.len()
            &&& calls > 0 ==> {
                &&& events[0] is Begin
                &&& actions[0] matches Action::CreateDomain(asked)
                &&& asked.iommu == config.options.iommu
                &&& asked.handle == uuid_octets(config.uuid)
                &&& asked.max_vcpus == config.resources.max_vcpus
                &&& asked.max_grant_frames == 8
                &&& asked.max_maptrack_frames == 16
                &&& asked.max_evtchn_port == 128
            }
            &&& calls > 1 ==> {
                &&& events[1] matches Event::Created(Ok(domid))
                &&& actions[1] == Action::SetMaxVcpus {
                    domid,
                    max_vcpus: config.resources.max_vcpus,
                }
            }
            &&& calls > 2 && actions[2] !is DestroyDomain ==> {
                &&& events[2] == Event::<E>::Returned(Ok(()))
                &&& actions[2] matches Action::SetMaxMem { domid, max_memory_kb }
                &&& domid == events[1]->Created_0->Ok_0
                &&& max_memory_kb == config.resources.max_memory_mb * 1024 + 2048
            }
            &&& calls > 3 && actions[3] !is DestroyDomain ==> {
                &&& events[3] == Event::<E>::Returned(Ok(()))
                &&& actions[3] == Action::LoadImage(
                    if config.kernel.format == KernelFormat::ElfCompressed {
                        ImageLoad::Decompress
                    } else {
                        ImageLoad::AsIs
                    },
                )
            }
            &&& calls > 4 && actions[4] !is DestroyDomain ==> {
                &&& events[4] == Event::<E>::ImageLoaded(Ok(Ok(())))
                &&& actions[4] == Action::Initialize { domid: events[1]->Created_0->Ok_0 }
            }
            &&& calls > 5 && actions[5] !is DestroyDomain ==> {
                &&& events[5] == Event::<E>::Returned(Ok(()))
                &&& actions[5] == Action::Boot { domid: events[1]->Created_0->Ok_0 }
            }
            &&& calls > 6 ==> actions[6] is DestroyDomain
            &&& forall|i: int|
                0 <= i < calls && #[trigger] actions[i] is DestroyDomain ==> {
                    &&& i == calls - 1
                    &&& i >= 2
                    &&& actions[i] == Action::DestroyDomain { domid: events[1]->Created_0->Ok_0 }
                    &&& match events[i] {
                        Event::Returned(reply) => reply is Err,
                        Event::ImageLoaded(Ok(reply)) => reply is Err,
                        Event::ImageLoaded(Err(_)) => true,
                        Event::Booted(reply) => reply is Err,
                        _ => false,
                    }
                }
        }),
{
    lemma_creating(config, events, 0);
    assert(events.skip(0) == events);
    let machine = |state: CreateState<E>, event: Event<E>| create_step(config, state, event);
    assert(machine =~= create_machine::<P, E>(config));
    let whole = trace(machine, CreateState::Start, events);
    let domid = events[1]->Created_0->Ok_0;
    let plan = create_plan(config, domid);
    let calls = whole.actions.len() as int;
    if calls > 0 && whole.actions.last() is DestroyDomain {
        let good = plan.subrange(0, calls - 1);
        assert forall|i: int| 0 <= i < calls - 1 implies #[trigger] whole.actions[i] == plan[i]
            && fine(events, i) by {
            assert(whole.actions[i] == good[i]);
        }
    } else {
        assert forall|i: int| 0 <= i < calls implies #[trigger] whole.actions[i] == plan[i] && fine(
            events,
            i,
        ) by {}
    }
}

/// What a creation returns. It succeeds after its six calls, all of which went
/// well, with the domain that was created and what booting it yielded, each
/// field unchanged. It fails at once where no domain was created, and else
/// after the domain was destroyed, with the error of the call that failed.
pub proof fn law_what_a_creation_returns<P, E>(
    config: PlatformDomainConfig<P>,
    events: Seq<Event<E>>,
)
    ensures
        ({
            let whole = trace(
                |state: CreateState<E>, event: Event<E>| create_step(config, state, event),
                CreateState::Start,
                events,
            );
            let calls = whole.actions.len() as int;
            &&& whole.result matches Some(Ok(info)) ==> {
                &&& calls == 6
                &&& events.len() > 6
                &&& events[1] matches Event::Created(Ok(domid))
                &&& events[2] == Event::<E>::Returned(Ok(()))
                &&& events[3] == Event::<E>::Returned(Ok(()))
                &&& events[4] == Event::<E>::ImageLoaded(Ok(Ok(())))
                &&& events[5] == Event::<E>::Returned(Ok(()))
                &&& events[6] matches Event::Booted(Ok(booted))
                &&& info.domid == domid
                &&& info.store_evtchn == booted.store_evtchn
                &&& info.store_mfn == booted.store_mfn
                &&& info.console_evtchn == booted.console_evtchn
                &&& info.console_mfn == booted.console_mfn
                &&& info.boot_resources == booted.boot_resources
            }
            &&& whole.result matches Some(Err(error)) ==> {
                &&& events.len() > calls >= 1
                &&& calls == 1 ==> (events[1] matches Event::Created(Err(cause)) && error
                    == Error::Call(cause))
                &&& calls > 1 ==> {
                    &&& events[1] matches Event::Created(Ok(domid))
                    &&& whole.actions.last() == Action::DestroyDomain { domid }
                    &&& events[calls] is Returned
                    &&& match events[calls - 1] {
                        Event::Returned(Err(cause)) => error == Error::Call(cause),
                        Event::ImageLoaded(Ok(Err(cause))) => error == Error::Call(cause),
                        Event::ImageLoaded(Err(cause)) => error == Error::AsyncJoinError(cause),
                        Event::Booted(Err(cause)) => error == Error::Call(cause),
                        _ => false,
                    }
                }
            }
        }),
{
    lemma_creating(config, events, 0);
    assert(events.skip(0) == events);
    let machine = |state: CreateState<E>, event: Event<E>| create_step(config, state, event);
    assert(machine =~= create_machine::<P, E>(config));
    let whole = trace(machine, CreateState::Start, events);
    if let Some(Ok(info)) = whole.result {
        assert(fine(events, 1) && fine(events, 2) && fine(events, 3) && fine(events, 4) && fine(
            events,
            5,
        ));
    }
    if whole.actions.len() > 1 && whole.actions.last() is DestroyDomain {
        assert(fine(events, 1));
    }
}

/// A creation takes the outcome of the call that it waits for and nothing else.
pub proof fn law_creation_takes_what_it_waits_for<P, E>(
    config: PlatformDomainConfig<P>,
    state: CreateState<E>,
    event: Event<E>,
)
    ensures
        create_step(config, state, event) is Unexpected <==> !(match state {
            CreateState::Start => event is Begin,
            CreateState::CreatingDomain => event is Created,
            CreateState::Filling { state: InternalState::Start, .. } => event is Begin,
            CreateState::Filling {
                state: InternalState::Configuring(ConfigureState::Start),
                ..
            } => event is Begin,
            CreateState::Filling { state: InternalState::Configuring(_), .. } => event is Returned,
            CreateState::Filling { state: InternalState::LoadingImage, .. } => event is ImageLoaded,
            CreateState::Filling { state: InternalState::Initializing, .. } => event is Returned,
            CreateState::Filling { state: InternalState::Booting, .. } => event is Booted,
            CreateState::Destroying { .. } => event is Returned,
        }),
{
}

/// The calls of a restore, in their order and with their arguments. Each is
/// made only after all calls before it went well, but for the destruction of
/// the domain, which follows a checkpoint that could not be loaded and is the
/// last.
pub proof fn law_what_a_restore_calls<P, E>(
    config: PlatformRestoreConfig<P>,
    checkpoint_fd: i32,
    events: Seq<Event<E>>,
)
    requires
        config.resources.max_memory_mb * 2048 <= u64::MAX,
    ensures
        ({
            let actions = trace(
                |state: RestoringState, event: Event<E>|
                    restoring_step(config, checkpoint_fd, state, event),
                RestoringState::Start,
                events,
            ).actions;
            let calls = actions.len();
            &&& calls <= 10
            &&& calls <= events.len()
            &&& calls > 0 ==> {
                &&& events[0] is Begin
                &&& actions[0] matches Action::CreateDomain(asked)
                &&& asked.iommu == config.options.iommu
                &&& asked.handle == uuid_octets(config.uuid)
                &&& asked.max_vcpus == config.resources.max_vcpus
                &&& asked.max_grant_frames == 8
                &&& asked.max_maptrack_frames == 16
                &&& asked.max_evtchn_port == 128
            }
            &&& calls > 1 ==> {
                &&& events[1] matches Event::Created(Ok(domid))
                &&& actions[1] == Action::SetMaxVcpus {
                    domid,
                    max_vcpus: config.resources.max_vcpus,
                }
            }
            &&& calls > 2 ==> {
                &&& events[2] == Event::<E>::Returned(Ok(()))
                &&& actions[2] matches Action::SetMaxMem { domid, max_memory_kb }
                &&& domid == events[1]->Created_0->Ok_0
                &&& max_memory_kb == config.resources.max_memory_mb * 2048
            }
            &&& calls > 3 ==> {
                &&& events[3] == Event::<E>::Returned(Ok(()))
                &&& actions[3] == Action::AllocUnbound {
                    domid: events[1]->Created_0->Ok_0,
                    remote_domid: 0,
                }
            }
            &&& calls > 4 ==> {
                &&& events[4] matches Event::Allocated(Ok(_))
                &&& actions[4] == Action::AllocUnbound {
                    domid: events[1]->Created_0->Ok_0,
                    remote_domid: 0,
                }
            }
            &&& calls > 5 ==> {
                &&& events[5] matches Event::Allocated(Ok(console_evtchn))
                &&& actions[5] == Action::RestoreDomain {
                    domid: events[1]->Created_0->Ok_0,
                    checkpoint_fd,
                    store_evtchn: events[4]->Allocated_0->Ok_0,
                    console_evtchn,
                }
            }
            &&& calls > 6 ==> match events[6] {
                Event::Restored(Ok(_)) => actions[6] == (Action::Mmap { addr: 0, size: 4096 }),
                Event::Restored(Err(_)) => calls == 7 && actions[6] == (Action::DestroyDomain {
                    domid: events[1]->Created_0->Ok_0,
                }),
                _ => false,
            }
            &&& calls > 7 ==> {
                &&& events[6] matches Event::Restored(Ok(load))
                &&& events[7] matches Event::Mapped(Some(addr))
                &&& actions[7] == Action::MmapBatch {
                    domid: events[1]->Created_0->Ok_0,
                    count: 1,
                    addr,
                    frame: load.store_mfn,
                }
            }
            &&& calls > 8 ==> {
                &&& events[8] == Event::<E>::Returned(Ok(()))
                &&& actions[8] == Action::ClearRing {
                    addr: events[7]->Mapped_0->Some_0,
                    size: 4096,
                }
            }
            &&& calls > 9 ==> {
                &&& events[9] is Cleared
                &&& actions[9] == Action::Munmap { addr: events[7]->Mapped_0->Some_0, size: 4096 }
            }
        }),
{
    lemma_restoring(config, checkpoint_fd, events, 0);
    assert(events.skip(0) == events);
    let machine = |state: RestoringState, event: Event<E>|
        restoring_step(config, checkpoint_fd, state, event);
    assert(machine =~= restoring_machine::<P, E>(config, checkpoint_fd));
    let actions = trace(machine, RestoringState::Start, events).actions;
    let plan = restoring_plan(config, checkpoint_fd, yielded(events));
    let calls = actions.len() as int;
    if calls == 7 && actions[6] is DestroyDomain {
        let good = plan.subrange(0, 6);
        assert forall|i: int| 0 <= i < 6 implies #[trigger] actions[i] == plan[i] by {
            assert(actions[i] == good[i]);
        }
    } else {
        assert forall|i: int| 0 <= i < calls implies #[trigger] actions[i] == plan[i] by {}
    }
}

/// What a restore returns. It succeeds after its ten calls, all of which went
/// well, with the domain that was created, the first and the second channel
/// that were allocated, and the two frames that the load of the checkpoint
/// returned, each under its own name and without boot resources. It fails with
/// the error of the call that failed; where that is the load of the
/// checkpoint, the domain has been destroyed and the text says why.
pub proof fn law_what_a_restore_returns<P, E>(
    config: PlatformRestoreConfig<P>,
    checkpoint_fd: i32,
    events: Seq<Event<E>>,
)
    ensures
        ({
            let whole = trace(
                |state: RestoringState, event: Event<E>|
                    restoring_step(config, checkpoint_fd, state, event),
                RestoringState::Start,
                events,
            );
            let calls = whole.actions.len() as int;
            &&& whole.result matches Some(Ok(info)) ==> {
                &&& calls == 10
                &&& events.len() > 10
                &&& events[1] matches Event::Created(Ok(domid))
                &&& events[2] == Event::<E>::Returned(Ok(()))
                &&& events[3] == Event::<E>::Returned(Ok(()))
                &&& events[4] matches Event::Allocated(Ok(first))
                &&& events[5] matches Event::Allocated(Ok(second))
                &&& events[6] matches Event::Restored(Ok(load))
                &&& events[7] matches Event::Mapped(Some(_))
                &&& events[8] == Event::<E>::Returned(Ok(()))
                &&& events[9] is Cleared
                &&& events[10] is Unmapped
                &&& info.domid == domid
                &&& info.store_evtchn == first
                &&& info.console_evtchn == second
                &&& info.store_mfn == load.store_mfn
                &&& info.console_mfn == load.console_mfn
                &&& info.ninepfs.len() == 0
            }
            &&& whole.result matches Some(Err(error)) ==> {
                &&& events.len() > calls >= 1
                &&& calls == 1 || calls == 2 || calls == 3 || calls == 4 || calls == 5 || calls == 7
                    || calls == 8
                &&& calls == 1 ==> (events[1] matches Event::Created(Err(cause)) && error
                    == ErrorView::Call(cause))
                &&& calls == 2 || calls == 3 || calls == 8 ==> (events[calls] matches
                    Event::Returned(Err(cause)) && error == ErrorView::Call(cause))
                &&& calls == 4 || calls == 5 ==> (events[calls] matches Event::Allocated(Err(cause))
                    && error == ErrorView::Call(cause))
                &&& calls == 7 ==> match events[6] {
                    Event::Restored(Err(reason)) => {
                        &&& whole.actions[6] is DestroyDomain
                        &&& events[7] is Returned
                        &&& error matches ErrorView::GenericError(text)
                        &&& text == "domain restore failed: "@ + reason@
                    },
                    _ => events[7] == Event::<E>::Mapped(None) && error is MmapFailed,
                }
            }
        }),
{
    lemma_restoring(config, checkpoint_fd, events, 0);
    assert(events.skip(0) == events);
    let machine = |state: RestoringState, event: Event<E>|
        restoring_step(config, checkpoint_fd, state, event);
    assert(machine =~= restoring_machine::<P, E>(config, checkpoint_fd));
}

/// A restore takes the outcome of the call that it waits for and nothing else.
pub proof fn law_restore_takes_what_it_waits_for<P, E>(
    config: PlatformRestoreConfig<P>,
    checkpoint_fd: i32,
    state: RestoringState,
    event: Event<E>,
)
    ensures
        restoring_step(config, checkpoint_fd, state, event) is Unexpected <==> !(match state {
            RestoringState::Start => event is Begin,
            RestoringState::CreatingDomain => event is Created,
            RestoringState::SettingVcpus { .. } => event is Returned,
            RestoringState::SettingMemory { .. } => event is Returned,
            RestoringState::AllocatingStore { .. } => event is Allocated,
            RestoringState::AllocatingConsole { .. } => event is Allocated,
            RestoringState::Restoring { .. } => event is Restored,
            RestoringState::Destroying { .. } => event is Returned,
            RestoringState::ResettingRing { ring, .. } => match ring {
                RingState::Start => event is Begin,
                RingState::Reserving => event is Mapped,
                RingState::Mapping { .. } => event is Returned,
                RingState::Clearing { .. } => event is Cleared,
                RingState::Unmapping => event is Unmapped,
            },
        }),
{
}

/// To look at a result by its parts loses and changes nothing.
pub proof fn law_views_keep_every_field<E>(
    info: PlatformDomainInfo,
    error: Error<E>,
    state: RestoringState,
    action: Action,
)
    ensures
        info@.domid == info.domid,
        info@.store_evtchn == info.store_evtchn,
        info@.store_mfn == info.store_mfn,
        info@.console_evtchn == info.console_evtchn,
        info@.console_mfn == info.console_mfn,
        info@.ninepfs == info.boot_resources.ninepfs@,
        error matches Error::Call(cause) ==> error@ == ErrorView::Call(cause),
        error matches Error::AsyncJoinError(cause) ==> error@ == ErrorView::AsyncJoinError(cause),
        error is MmapFailed ==> error@ == ErrorView::<E>::MmapFailed,
        error matches Error::GenericError(text) ==> error@ == ErrorView::<E>::GenericError(text@),
        restoring_step_view::<E>(Step::Done(Ok(info))) == RestoringStepView::<E>::Done(Ok(info@)),
        restoring_step_view::<E>(Step::Done(Err(error))) == RestoringStepView::<E>::Done(
            Err(error@),
        ),
        restoring_step_view::<E>(Step::Call { state, action }) == (RestoringStepView::<E>::Call {
            state,
            action,
        }),
        restoring_step_view::<E>(Step::Unexpected) == RestoringStepView::<E>::Unexpected,
{
}

/// A ring page is reset by mapping one page of the domain at the frame that
/// was given, clearing it and unmapping it at the place where it was mapped.
/// It fails where no memory can be reserved or the frame cannot be mapped.
pub proof fn law_what_a_ring_reset_does<E>(
    domid: u32,
    store_mfn: u64,
    state: RingState,
    event: Event<E>,
    addr: u64,
    error: E,
)
    ensures
        ring_step::<E>(domid, store_mfn, RingState::Start, Event::Begin) matches Step::Call {
            state: next,
            action,
        } && next == RingState::Reserving && action == (Action::Mmap { addr: 0, size: 4096 }),
        ring_step::<E>(domid, store_mfn, RingState::Reserving, Event::Mapped(Some(addr))) matches
            Step::Call { state: next, action } && next == (RingState::Mapping { addr }) && action
            == (Action::MmapBatch { domid, count: 1, addr, frame: store_mfn }),
        ring_step::<E>(domid, store_mfn, RingState::Mapping { addr }, Event::Returned(Ok(())))
            matches Step::Call { state: next, action } && next == (RingState::Clearing { addr })
            && action == (Action::ClearRing { addr, size: 4096 }),
        ring_step::<E>(domid, store_mfn, RingState::Clearing { addr }, Event::Cleared) matches
            Step::Call { state: next, action } && next == RingState::Unmapping && action == (
        Action::Munmap { addr, size: 4096 }),
        ring_step::<E>(domid, store_mfn, RingState::Unmapping, Event::Unmapped) matches Step::Done(
            Ok(_),
        ),
        ring_step::<E>(domid, store_mfn, RingState::Reserving, Event::Mapped(None)) matches
            Step::Done(Err(got)) && got == Error::<E>::MmapFailed,
        ring_step::<E>(domid, store_mfn, RingState::Mapping { addr }, Event::Returned(Err(error)))
            matches Step::Done(Err(got)) && got == Error::Call(error),
        ring_step(domid, store_mfn, state, event) is Unexpected <==> !(match state {
            RingState::Start => event is Begin,
            RingState::Reserving => event is Mapped,
            RingState::Mapping { .. } => event is Returned,
            RingState::Clearing { .. } => event is Cleared,
            RingState::Unmapping => event is Unmapped,
        }),
{
}

/// Clearing a ring page zeroes its first 2076 bytes and no other.
pub proof fn law_what_clearing_does(page: Seq<u8>, i: int)
    requires
        page.len() >= 2076,
    ensures
        cleared(page).len() == page.len(),
        0 <= i < 2076 ==> cleared(page)[i] == 0,
        2076 <= i < page.len() ==> cleared(page)[i] == page[i],
{
}

/// A destruction is one call on the domain that it was asked for, and returns
/// what came of that call.
pub proof fn law_what_a_destruction_does<E>(
    domid: u32,
    state: DestroyState,
    event: Event<E>,
    error: E,
)
    ensures
        destroy_step::<E>(domid, DestroyState::Start, Event::Begin) matches Step::Call {
            state: next,
            action,
        } && next == DestroyState::Destroying && action == (Action::DestroyDomain { domid }),
        destroy_step::<E>(domid, DestroyState::Destroying, Event::Returned(Ok(()))) matches
            Step::Done(Ok(_)),
        destroy_step::<E>(domid, DestroyState::Destroying, Event::Returned(Err(error))) matches
            Step::Done(Err(got)) && got == Error::Call(error),
        destroy_step(domid, state, event) is Unexpected <==> !(match state {
            DestroyState::Start => event is Begin,
            DestroyState::Destroying => event is Returned,
        }),
{
}

} // verus!
