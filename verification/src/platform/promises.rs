//! What the manager's functions promise to whoever calls them, told by the
//! arguments that go in and the value that comes back.

use super::calls::{Action, BootDomain, CreateDomain, Error, Event};
use super::config::{
    PlatformBootResourcesConfig, PlatformBootResourcesInfo, PlatformDomainConfig,
    PlatformDomainInfo, PlatformKernelConfig, PlatformNinepfsBootResourcesConfig, PlatformOptions,
    PlatformResourcesConfig, PlatformRestoreConfig,
};
use super::create::{
    base_domain, configure_step, create_step, internal_step, ConfigureState, CreateState,
    InternalState,
};
use super::manager::{destroy_step, DestroyState, PlatformDomainManager};
use super::restore::{restoring_step, restoring_step_view, RestoringState, RestoringStep};
use super::ring::{clear_ring, ring_step, RingState};
use crate::outside::uuid_octets;
use crate::step::Step;
use uuid::Uuid;
use vstd::prelude::*;

verus! {

/// A new domain may use its own memory and two MiB more, and a restored one
/// twice its own, in KiB.
pub proof fn law_memory_promises<C>(resources: PlatformResourcesConfig, created: u64, restored: u64)
    requires
        call_ensures(PlatformDomainManager::<C>::max_memory_kb, (&resources,), created),
        call_ensures(PlatformDomainManager::<C>::restore_max_memory_kb, (&resources,), restored),
    ensures
        created == resources.max_memory_mb * 1024 + 2048,
        restored == resources.max_memory_mb * 2048,
{
}

/// Any configured memory whose limit fits in 64 bits is accepted.
pub proof fn law_memory_is_accepted<C>(resources: PlatformResourcesConfig)
    ensures
        resources.max_memory_mb * 1024 + 2048 <= u64::MAX ==> call_requires(
            PlatformDomainManager::<C>::max_memory_kb,
            (&resources,),
        ),
        resources.max_memory_mb * 2048 <= u64::MAX ==> call_requires(
            PlatformDomainManager::<C>::restore_max_memory_kb,
            (&resources,),
        ),
{
}

/// An empty domain carries what it was asked for, and its caps are 8, 16 and
/// 128.
pub proof fn law_base_domain_promises(
    handle: [u8; 16],
    options: PlatformOptions,
    resources: PlatformResourcesConfig,
    domain: CreateDomain,
)
    requires
        call_ensures(base_domain, (handle, &options, &resources), domain),
    ensures
        domain.iommu == options.iommu,
        domain.handle == handle,
        domain.max_vcpus == resources.max_vcpus,
        domain.max_grant_frames == 8,
        domain.max_maptrack_frames == 16,
        domain.max_evtchn_port == 128,
{
}

/// The handle of the empty domain is the octets of the UUID.
pub proof fn law_create_base_domain_promises<C>(
    manager: PlatformDomainManager<C>,
    uuid: Uuid,
    options: PlatformOptions,
    resources: PlatformResourcesConfig,
    domain: CreateDomain,
)
    requires
        call_ensures(
            PlatformDomainManager::<C>::create_base_domain,
            (&manager, uuid, &options, &resources),
            domain,
        ),
    ensures
        domain.iommu == options.iommu,
        domain.handle == uuid_octets(uuid),
        domain.max_vcpus == resources.max_vcpus,
        domain.max_grant_frames == 8,
        domain.max_maptrack_frames == 16,
        domain.max_evtchn_port == 128,
{
}

/// A call of `configure_domain_resources` is a step of the limits, and its
/// calls are on the domain that was named, with the configured numbers.
pub proof fn law_configure_domain_resources_promises<C, E>(
    manager: PlatformDomainManager<C>,
    domid: u32,
    resources: PlatformResourcesConfig,
    state: ConfigureState,
    event: Event<E>,
    step: Step<ConfigureState, Action, Result<(), Error<E>>>,
)
    requires
        call_ensures(
            PlatformDomainManager::<C>::configure_domain_resources::<E>,
            (&manager, domid, &resources, state, event),
            step,
        ),
    ensures
        step == configure_step(domid, resources, state, event),
        step matches Step::Call { action, .. } ==> match action {
            Action::SetMaxVcpus { domid: to, max_vcpus } => to == domid && max_vcpus
                == resources.max_vcpus,
            Action::SetMaxMem { domid: to, max_memory_kb } => to == domid && max_memory_kb
                == resources.max_memory_mb * 1024 + 2048,
            _ => false,
        },
        step matches Step::Done(Err(error)) ==> (event matches Event::Returned(Err(cause)) && error
            == Error::Call(cause)),
        step matches Step::Done(Ok(_)) ==> event == Event::<E>::Returned(Ok(())) && state
            == ConfigureState::SettingMemory,
{
    if let Event::Returned(Ok(nothing)) = event {
        assert(nothing == ());
    }
}

/// A call of `create_internal` is a step of the filling. What it hands back is
/// what booting yielded, or the failure of the last call.
pub proof fn law_create_internal_promises<C, P, E>(
    manager: PlatformDomainManager<C>,
    domid: u32,
    config: PlatformDomainConfig<P>,
    state: InternalState,
    event: Event<E>,
    step: Step<InternalState, Action, Result<BootDomain, Error<E>>>,
)
    requires
        call_ensures(
            PlatformDomainManager::<C>::create_internal::<P, E>,
            (&manager, domid, &config, state, event),
            step,
        ),
    ensures
        step == internal_step(domid, config, state, event),
        step matches Step::Done(Ok(booted)) ==> state == InternalState::Booting && event
            == Event::<E>::Booted(Ok(booted)),
        step matches Step::Done(Err(error)) ==> match event {
            Event::Returned(Err(cause)) => error == Error::Call(cause),
            Event::ImageLoaded(Ok(Err(cause))) => error == Error::Call(cause),
            Event::ImageLoaded(Err(cause)) => error == Error::AsyncJoinError(cause),
            Event::Booted(Err(cause)) => error == Error::Call(cause),
            _ => false,
        },
{
}

/// A call of `create` is a step of a creation. What it hands back are the
/// fields of the booted domain, each under its own name, or the failure.
pub proof fn law_create_promises<C, P, E>(
    manager: PlatformDomainManager<C>,
    config: PlatformDomainConfig<P>,
    state: CreateState<E>,
    event: Event<E>,
    step: Step<CreateState<E>, Action, Result<PlatformDomainInfo, Error<E>>>,
)
    requires
        call_ensures(
            PlatformDomainManager::<C>::create::<P, E>,
            (&manager, &config, state, event),
            step,
        ),
    ensures
        step == create_step(config, state, event),
        step matches Step::Done(Ok(info)) ==> {
            &&& state matches CreateState::Filling { domid, .. }
            &&& event matches Event::Booted(Ok(booted))
            &&& info.domid == domid
            &&& info.store_evtchn == booted.store_evtchn
            &&& info.store_mfn == booted.store_mfn
            &&& info.console_evtchn == booted.console_evtchn
            &&& info.console_mfn == booted.console_mfn
            &&& info.boot_resources == booted.boot_resources
        },
        step matches Step::Done(Err(error)) ==> match state {
            CreateState::Destroying { error: reason } => error == reason && event is Returned,
            _ => state is CreatingDomain && (event matches Event::Created(Err(cause)) && error
                == Error::Call(cause)),
        },
{
}

/// A call of `restore` is a step of a restore. What it hands back are the
/// domain, the channels and the frames that it was restored with, each under
/// its own name, or the failure.
pub proof fn law_restore_promises<C, P, E>(
    manager: PlatformDomainManager<C>,
    config: PlatformRestoreConfig<P>,
    checkpoint_fd: i32,
    state: RestoringState,
    event: Event<E>,
    step: RestoringStep<E>,
)
    requires
        call_ensures(
            PlatformDomainManager::<C>::restore::<P, E>,
            (&manager, &config, checkpoint_fd, state, event),
            step,
        ),
    ensures
        restoring_step_view(step) == restoring_step(config, checkpoint_fd, state, event),
        step matches Step::Done(Ok(info)) ==> {
            &&& state matches RestoringState::ResettingRing {
                domid,
                store_evtchn,
                console_evtchn,
                result,
                ..
            }
            &&& event is Unmapped
            &&& info.domid == domid
            &&& info.store_evtchn == store_evtchn
            &&& info.store_mfn == result.store_mfn
            &&& info.console_evtchn == console_evtchn
            &&& info.console_mfn == result.console_mfn
            &&& info.boot_resources.ninepfs@.len() == 0
        },
        step matches Step::Done(Err(error)) ==> match error {
            Error::GenericError(text) => {
                &&& state matches RestoringState::Destroying { reason }
                &&& event is Returned
                &&& text@ == "domain restore failed: "@ + reason@
            },
            Error::Call(cause) => event == Event::<E>::Created(Err(cause)) || event == Event::<
                E,
            >::Returned(Err(cause)) || event == Event::<E>::Allocated(Err(cause)),
            Error::MmapFailed => event == Event::<E>::Mapped(None),
            Error::AsyncJoinError(_) => false,
        },
{
}

/// A call of `reset_xenstore_ring` is a step of the ring's reset.
pub proof fn law_reset_xenstore_ring_promises<C, E>(
    manager: PlatformDomainManager<C>,
    domid: u32,
    store_mfn: u64,
    state: RingState,
    event: Event<E>,
    step: Step<RingState, Action, Result<(), Error<E>>>,
)
    requires
        call_ensures(
            PlatformDomainManager::<C>::reset_xenstore_ring::<E>,
            (&manager, domid, store_mfn, state, event),
            step,
        ),
    ensures
        step == ring_step(domid, store_mfn, state, event),
        step matches Step::Call { action: Action::MmapBatch { domid: of, count, frame, .. }, .. }
            ==> of == domid && count == 1 && frame == store_mfn,
{
}

/// `destroy` asks for the destruction of the domain that was named, and hands
/// back what came of it.
pub proof fn law_destroy_promises<C, E>(
    manager: PlatformDomainManager<C>,
    domid: u32,
    state: DestroyState,
    event: Event<E>,
    step: Step<DestroyState, Action, Result<(), Error<E>>>,
)
    requires
        call_ensures(
            PlatformDomainManager::<C>::destroy::<E>,
            (&manager, domid, state, event),
            step,
        ),
    ensures
        step == destroy_step(domid, state, event),
        step matches Step::Call { action, .. } ==> action == (Action::DestroyDomain { domid }),
        step matches Step::Done(Ok(_)) ==> (event matches Event::Returned(Ok(_))),
        step matches Step::Done(Err(error)) ==> (event matches Event::Returned(Err(cause)) && error
            == Error::Call(cause)),
{
}

/// A manager hands out the hypercalls that it was made with.
pub proof fn law_new_promises<C, E>(call: C, made: Result<PlatformDomainManager<C>, Error<E>>)
    requires
        call_ensures(PlatformDomainManager::<C>::new::<E>, (call,), made),
    ensures
        made matches Ok(manager) && forall|got: &C|
            call_ensures(PlatformDomainManager::<C>::call, (&manager,), got) ==> *got == call,
{
}

/// By default there is no ninepfs share, and one ring for each there might be.
pub proof fn law_default_promises(
    ninepfs: PlatformNinepfsBootResourcesConfig,
    config: PlatformBootResourcesConfig,
    info: PlatformBootResourcesInfo,
)
    requires
        call_ensures(PlatformNinepfsBootResourcesConfig::default, (), ninepfs),
        call_ensures(PlatformBootResourcesConfig::default, (), config),
        call_ensures(PlatformBootResourcesInfo::default, (), info),
    ensures
        ninepfs.share_count == 0,
        ninepfs.rings_per_share == 1,
        config.ninepfs.share_count == 0,
        config.ninepfs.rings_per_share == 1,
        info.ninepfs@.len() == 0,
{
}

/// A copy of a configuration has the same kernel, initrd and command line.
pub proof fn law_kernel_clone_promises(kernel: PlatformKernelConfig, copy: PlatformKernelConfig)
    requires
        call_ensures(PlatformKernelConfig::clone, (&kernel,), copy),
    ensures
        copy.data == kernel.data,
        copy.format == kernel.format,
        copy.initrd == kernel.initrd,
        copy.cmdline@ == kernel.cmdline@,
{
}

/// A copy of a configuration is made of copies of its parts.
pub proof fn law_config_clone_promises<P: Clone>(
    config: PlatformDomainConfig<P>,
    copy: PlatformDomainConfig<P>,
    restore: PlatformRestoreConfig<P>,
    restore_copy: PlatformRestoreConfig<P>,
)
    requires
        call_ensures(PlatformDomainConfig::<P>::clone, (&config,), copy),
        call_ensures(PlatformRestoreConfig::<P>::clone, (&restore,), restore_copy),
    ensures
        copy.uuid == config.uuid,
        copy.resources == config.resources,
        copy.options == config.options,
        copy.boot_resources == config.boot_resources,
        cloned::<P>(config.platform, copy.platform),
        cloned::<PlatformKernelConfig>(config.kernel, copy.kernel),
        restore_copy.uuid == restore.uuid,
        restore_copy.resources == restore.resources,
        restore_copy.options == restore.options,
        cloned::<P>(restore.platform, restore_copy.platform),
{
}

/// `clear_ring` takes any page that holds the rings and their fields, zeroes
/// its first 2076 bytes and leaves every other as it was.
pub proof fn law_clear_ring_promises(page: &mut [u8])
    requires
        call_ensures(clear_ring, (page,), ()),
    ensures
        old(page)@.len() >= 2076 ==> call_requires(clear_ring, (page,)),
        final(page)@.len() == old(page)@.len(),
        forall|i: int| 0 <= i < 2076 ==> final(page)@[i] == 0,
        forall|i: int| 2076 <= i < old(page)@.len() ==> final(page)@[i] == old(page)@[i],
{
}

/// Creation and restore take every step whose memory limit fits in 64 bits.
pub proof fn law_steps_are_accepted<C, P, Q, E>(
    manager: PlatformDomainManager<C>,
    create: PlatformDomainConfig<P>,
    restore: PlatformRestoreConfig<Q>,
    checkpoint_fd: i32,
    creating: CreateState<E>,
    restoring: RestoringState,
    event: Event<E>,
)
    ensures
        create.resources.max_memory_mb * 1024 + 2048 <= u64::MAX ==> call_requires(
            PlatformDomainManager::<C>::create::<P, E>,
            (&manager, &create, creating, event),
        ),
        restore.resources.max_memory_mb * 2048 <= u64::MAX ==> call_requires(
            PlatformDomainManager::<C>::restore::<Q, E>,
            (&manager, &restore, checkpoint_fd, restoring, event),
        ),
{
}

} // verus!
