//! Creating a domain from a kernel.

use super::calls::{Action, BootDomain, CreateDomain, Error, Event, ImageLoad};
use super::config::{
    KernelFormat, PlatformDomainConfig, PlatformDomainInfo, PlatformOptions,
    PlatformResourcesConfig, XEN_EXTRA_MEMORY_KB,
};
use super::manager::PlatformDomainManager;
use crate::outside::uuid_octets;
use crate::step::Step;
use uuid::Uuid;
use vstd::prelude::*;

verus! {

/// How many grant frames a domain may have: enough for 4096 entries, where
/// guests need about four.
pub const MAX_GRANT_FRAMES: u32 = 8;

/// How many frames a domain may use to track mapped grants.
pub const MAX_MAPTRACK_FRAMES: u32 = 16;

/// The highest event channel of a domain, where guests need about four.
pub const MAX_EVTCHN_PORT: u32 = 128;

/// What the limits of a new domain are waiting for.
#[derive(Clone, Copy, Debug, PartialEq, Eq, Structural)]
pub enum ConfigureState {
    Start,
    SettingVcpus,
    SettingMemory,
}

/// What the filling of a new domain is waiting for.
#[derive(Clone, Copy, Debug, PartialEq, Eq, Structural)]
pub enum InternalState {
    Start,
    Configuring(ConfigureState),
    LoadingImage,
    Initializing,
    Booting,
}

/// What the creation of a domain is waiting for.
#[derive(Debug, PartialEq, Eq)]
pub enum CreateState<E> {
    Start,
    CreatingDomain,
    /// The domain exists and is being filled.
    Filling { domid: u32, state: InternalState },
    /// The domain could not be filled because of `error` and is being
    /// destroyed.
    Destroying { error: Error<E> },
}

/// An empty domain: named by its handle, with the platform's settings, and
/// capped in vCPUs, grants and event channels.
pub open spec fn base_domain_spec(
    handle: [u8; 16],
    options: PlatformOptions,
    resources: PlatformResourcesConfig,
) -> CreateDomain {
    CreateDomain {
        iommu: options.iommu,
        handle,
        max_vcpus: resources.max_vcpus,
        max_grant_frames: MAX_GRANT_FRAMES,
        max_maptrack_frames: MAX_MAPTRACK_FRAMES,
        max_evtchn_port: MAX_EVTCHN_PORT,
    }
}

/// What the setting of a domain's limits does when `event` comes in `state`.
pub open spec fn configure_step<E>(
    domid: u32,
    resources: PlatformResourcesConfig,
    state: ConfigureState,
    event: Event<E>,
) -> Step<ConfigureState, Action, Result<(), Error<E>>> {
    match (state, event) {
        (ConfigureState::Start, Event::Begin) => Step::Call {
            state: ConfigureState::SettingVcpus,
            action: Action::SetMaxVcpus { domid, max_vcpus: resources.max_vcpus },
        },
        (ConfigureState::SettingVcpus, Event::Returned(Ok(_))) => Step::Call {
            state: ConfigureState::SettingMemory,
            action: Action::SetMaxMem { domid, max_memory_kb: resources.max_memory_kb() as u64 },
        },
        (ConfigureState::SettingMemory, Event::Returned(Ok(_))) => Step::Done(Ok(())),
        (
            ConfigureState::SettingVcpus | ConfigureState::SettingMemory,
            Event::Returned(Err(error)),
        ) => Step::Done(Err(Error::Call(error))),
        _ => Step::Unexpected,
    }
}

/// How a kernel of `format` is loaded.
pub open spec fn image_load(format: KernelFormat) -> ImageLoad {
    match format {
        KernelFormat::ElfCompressed => ImageLoad::Decompress,
        KernelFormat::ElfUncompressed => ImageLoad::AsIs,
    }
}

/// What the filling of a domain does when `event` comes in `state`.
pub open spec fn internal_step<P, E>(
    domid: u32,
    config: PlatformDomainConfig<P>,
    state: InternalState,
    event: Event<E>,
) -> Step<InternalState, Action, Result<BootDomain, Error<E>>> {
    match (state, event) {
        (InternalState::Start, Event::Begin) => configured_step(
            config,
            configure_step(domid, config.resources, ConfigureState::Start, event),
        ),
        (InternalState::Configuring(configuring), _) => configured_step(
            config,
            configure_step(domid, config.resources, configuring, event),
        ),
        (InternalState::LoadingImage, Event::ImageLoaded(Err(lost))) => Step::Done(
            Err(Error::AsyncJoinError(lost)),
        ),
        (InternalState::LoadingImage, Event::ImageLoaded(Ok(Err(error)))) => Step::Done(
            Err(Error::Call(error)),
        ),
        (InternalState::LoadingImage, Event::ImageLoaded(Ok(Ok(_)))) => Step::Call {
            state: InternalState::Initializing,
            action: Action::Initialize { domid },
        },
        (InternalState::Initializing, Event::Returned(Err(error))) => Step::Done(
            Err(Error::Call(error)),
        ),
        (InternalState::Initializing, Event::Returned(Ok(_))) => Step::Call {
            state: InternalState::Booting,
            action: Action::Boot { domid },
        },
        (InternalState::Booting, Event::Booted(Err(error))) => Step::Done(Err(Error::Call(error))),
        (InternalState::Booting, Event::Booted(Ok(booted))) => Step::Done(Ok(booted)),
        _ => Step::Unexpected,
    }
}

/// A step of the limits, within the filling: once they are set, the image is
/// loaded.
pub open spec fn configured_step<P, E>(
    config: PlatformDomainConfig<P>,
    step: Step<ConfigureState, Action, Result<(), Error<E>>>,
) -> Step<InternalState, Action, Result<BootDomain, Error<E>>> {
    match step {
        Step::Call { state, action } => Step::Call {
            state: InternalState::Configuring(state),
            action,
        },
        Step::Done(Ok(_)) => Step::Call {
            state: InternalState::LoadingImage,
            action: Action::LoadImage(image_load(config.kernel.format)),
        },
        Step::Done(Err(error)) => Step::Done(Err(error)),
        Step::Unexpected => Step::Unexpected,
    }
}

/// What is known of domain `domid` once it has booted.
pub open spec fn booted_info(domid: u32, booted: BootDomain) -> PlatformDomainInfo {
    PlatformDomainInfo {
        domid,
        store_evtchn: booted.store_evtchn,
        store_mfn: booted.store_mfn,
        console_evtchn: booted.console_evtchn,
        console_mfn: booted.console_mfn,
        boot_resources: booted.boot_resources,
    }
}

/// A step of the filling, within the creation: a domain that cannot be filled
/// is destroyed.
pub open spec fn filled_step<E>(
    domid: u32,
    step: Step<InternalState, Action, Result<BootDomain, Error<E>>>,
) -> Step<CreateState<E>, Action, Result<PlatformDomainInfo, Error<E>>> {
    match step {
        Step::Call { state, action } => Step::Call {
            state: CreateState::Filling { domid, state },
            action,
        },
        Step::Done(Ok(booted)) => Step::Done(Ok(booted_info(domid, booted))),
        Step::Done(Err(error)) => Step::Call {
            state: CreateState::Destroying { error },
            action: Action::DestroyDomain { domid },
        },
        Step::Unexpected => Step::Unexpected,
    }
}

/// What the creation of a domain does when `event` comes in `state`.
pub open spec fn create_step<P, E>(
    config: PlatformDomainConfig<P>,
    state: CreateState<E>,
    event: Event<E>,
) -> Step<CreateState<E>, Action, Result<PlatformDomainInfo, Error<E>>> {
    match (state, event) {
        (CreateState::Start, Event::Begin) => Step::Call {
            state: CreateState::CreatingDomain,
            action: Action::CreateDomain(
                base_domain_spec(uuid_octets(config.uuid), config.options, config.resources),
            ),
        },
        (CreateState::CreatingDomain, Event::Created(Err(error))) => Step::Done(
            Err(Error::Call(error)),
        ),
        (CreateState::CreatingDomain, Event::Created(Ok(domid))) => filled_step(
            domid,
            internal_step(domid, config, InternalState::Start, Event::Begin),
        ),
        (CreateState::Filling { domid, state: filling }, _) => filled_step(
            domid,
            internal_step(domid, config, filling, event),
        ),
        (CreateState::Destroying { error }, Event::Returned(_)) => Step::Done(Err(error)),
        _ => Step::Unexpected,
    }
}

/// An empty domain with the given handle.
pub fn base_domain(
    handle: [u8; 16],
    options: &PlatformOptions,
    resources: &PlatformResourcesConfig,
) -> (domain: CreateDomain)
    ensures
        domain == base_domain_spec(handle, *options, *resources),
        domain.iommu == options.iommu,
        domain.handle == handle,
        domain.max_vcpus == resources.max_vcpus,
        domain.max_grant_frames == 8,
        domain.max_maptrack_frames == 16,
        domain.max_evtchn_port == 128,
{
    CreateDomain {
        iommu: options.iommu,
        handle,
        max_vcpus: resources.max_vcpus,
        max_grant_frames: MAX_GRANT_FRAMES,
        max_maptrack_frames: MAX_MAPTRACK_FRAMES,
        max_evtchn_port: MAX_EVTCHN_PORT,
    }
}

impl<C> PlatformDomainManager<C> {
    /// The memory that a new domain may use, in KiB.
    pub fn max_memory_kb(resources: &PlatformResourcesConfig) -> (kb: u64)
        requires
            resources.max_memory_kb() <= u64::MAX,
        ensures
            kb == resources.max_memory_kb(),
            kb == resources.max_memory_mb * 1024 + 2048,
    {
        (resources.max_memory_mb * 1024) + XEN_EXTRA_MEMORY_KB
    }

    /// The empty domain that creation and restore both begin with. Its handle
    /// is the UUID.
    pub fn create_base_domain(
        &self,
        uuid: Uuid,
        options: &PlatformOptions,
        resources: &PlatformResourcesConfig,
    ) -> (domain: CreateDomain)
        ensures
            domain == base_domain_spec(uuid_octets(uuid), *options, *resources),
            domain.iommu == options.iommu,
            domain.handle == uuid_octets(uuid),
            domain.max_vcpus == resources.max_vcpus,
            domain.max_grant_frames == 8,
            domain.max_maptrack_frames == 16,
            domain.max_evtchn_port == 128,
    {
        base_domain(uuid.into_bytes(), options, resources)
    }

    /// Sets the limits of a new domain: its vCPUs, then its memory.
    pub fn configure_domain_resources<E>(
        &self,
        domid: u32,
        resources: &PlatformResourcesConfig,
        state: ConfigureState,
        event: Event<E>,
    ) -> (step: Step<ConfigureState, Action, Result<(), Error<E>>>)
        requires
            resources.max_memory_kb() <= u64::MAX,
        ensures
            step == configure_step(domid, *resources, state, event),
            step matches Step::Call { action: Action::SetMaxMem { domid: to, max_memory_kb }, .. }
                ==> to == domid && max_memory_kb == resources.max_memory_mb * 1024 + 2048,
    {
        match (state, event) {
            (ConfigureState::Start, Event::Begin) => Step::Call {
                state: ConfigureState::SettingVcpus,
                action: Action::SetMaxVcpus { domid, max_vcpus: resources.max_vcpus },
            },
            (ConfigureState::SettingVcpus, Event::Returned(returned)) => match returned {
                Err(error) => Step::Done(Err(Error::Call(error))),
                Ok(_) => Step::Call {
                    state: ConfigureState::SettingMemory,
                    action: Action::SetMaxMem {
                        domid,
                        max_memory_kb: Self::max_memory_kb(resources),
                    },
                },
            },
            (ConfigureState::SettingMemory, Event::Returned(returned)) => match returned {
                Err(error) => Step::Done(Err(Error::Call(error))),
                Ok(_) => Step::Done(Ok(())),
            },
            _ => Step::Unexpected,
        }
    }

    fn configured<P, E>(
        config: &PlatformDomainConfig<P>,
        step: Step<ConfigureState, Action, Result<(), Error<E>>>,
    ) -> (within: Step<InternalState, Action, Result<BootDomain, Error<E>>>)
        ensures
            within == configured_step(*config, step),
    {
        match step {
            Step::Call { state, action } => Step::Call {
                state: InternalState::Configuring(state),
                action,
            },
            Step::Done(Ok(_)) => {
                let load = match config.kernel.format {
                    KernelFormat::ElfCompressed => ImageLoad::Decompress,
                    KernelFormat::ElfUncompressed => ImageLoad::AsIs,
                };
                Step::Call { state: InternalState::LoadingImage, action: Action::LoadImage(load) }
            },
            Step::Done(Err(error)) => Step::Done(Err(error)),
            Step::Unexpected => Step::Unexpected,
        }
    }

    /// Fills an empty domain: sets its limits, loads the kernel image, lays it
    /// out and boots it.
    pub fn create_internal<P, E>(
        &self,
        domid: u32,
        config: &PlatformDomainConfig<P>,
        state: InternalState,
        event: Event<E>,
    ) -> (step: Step<InternalState, Action, Result<BootDomain, Error<E>>>)
        requires
            config.resources.max_memory_kb() <= u64::MAX,
        ensures
            step == internal_step(domid, *config, state, event),
    {
        match (state, event) {
            (InternalState::Start, Event::Begin) => {
                let begun = self.configure_domain_resources(
                    domid,
                    &config.resources,
                    ConfigureState::Start,
                    Event::Begin,
                );
                Self::configured(config, begun)
            },
            (InternalState::Configuring(configuring), event) => {
                let next = self.configure_domain_resources(
                    domid,
                    &config.resources,
                    configuring,
                    event,
                );
                Self::configured(config, next)
            },
            (InternalState::LoadingImage, Event::ImageLoaded(joined)) => match joined {
                Err(lost) => Step::Done(Err(Error::AsyncJoinError(lost))),
                Ok(Err(error)) => Step::Done(Err(Error::Call(error))),
                Ok(Ok(_)) => Step::Call {
                    state: InternalState::Initializing,
                    action: Action::Initialize { domid },
                },
            },
            (InternalState::Initializing, Event::Returned(returned)) => match returned {
                Err(error) => Step::Done(Err(Error::Call(error))),
                Ok(_) => Step::Call {
                    state: InternalState::Booting,
                    action: Action::Boot { domid },
                },
            },
            (InternalState::Booting, Event::Booted(booted)) => match booted {
                Err(error) => Step::Done(Err(Error::Call(error))),
                Ok(domain) => Step::Done(Ok(domain)),
            },
            _ => Step::Unexpected,
        }
    }

    fn filled<E>(
        domid: u32,
        step: Step<InternalState, Action, Result<BootDomain, Error<E>>>,
    ) -> (within: Step<CreateState<E>, Action, Result<PlatformDomainInfo, Error<E>>>)
        ensures
            within == filled_step(domid, step),
    {
        match step {
            Step::Call { state, action } => Step::Call {
                state: CreateState::Filling { domid, state },
                action,
            },
            Step::Done(Ok(domain)) => Step::Done(
                Ok(
                    PlatformDomainInfo {
                        domid,
                        store_evtchn: domain.store_evtchn,
                        store_mfn: domain.store_mfn,
                        console_evtchn: domain.console_evtchn,
                        console_mfn: domain.console_mfn,
                        boot_resources: domain.boot_resources,
                    },
                ),
            ),
            Step::Done(Err(error)) => Step::Call {
                state: CreateState::Destroying { error },
                action: Action::DestroyDomain { domid },
            },
            Step::Unexpected => Step::Unexpected,
        }
    }

    /// Creates a domain and boots it. A domain that cannot be brought up is
    /// destroyed again, and the failure is returned whether or not that works.
    pub fn create<P, E>(
        &self,
        config: &PlatformDomainConfig<P>,
        state: CreateState<E>,
        event: Event<E>,
    ) -> (step: Step<CreateState<E>, Action, Result<PlatformDomainInfo, Error<E>>>)
        requires
            config.resources.max_memory_kb() <= u64::MAX,
        ensures
            step == create_step(*config, state, event),
            step matches Step::Done(Ok(info)) ==> {
                &&& state matches CreateState::Filling { domid, .. }
                &&& event matches Event::Booted(Ok(booted))
                &&& info.domid == domid
                &&& info.store_evtchn == booted.store_evtchn
                &&& info.store_mfn == booted.store_mfn
                &&& info.console_evtchn == booted.console_evtchn
                &&& info.console_mfn == booted.console_mfn
                &&& info.boot_resources == booted.boot_resources
            },
            step matches Step::Call { action: Action::SetMaxMem { max_memory_kb, .. }, .. }
                ==> max_memory_kb == config.resources.max_memory_mb * 1024 + 2048,
    {
        match (state, event) {
            (CreateState::Start, Event::Begin) => Step::Call {
                state: CreateState::CreatingDomain,
                action: Action::CreateDomain(
                    self.create_base_domain(config.uuid, &config.options, &config.resources),
                ),
            },
            (CreateState::CreatingDomain, Event::Created(created)) => match created {
                Err(error) => Step::Done(Err(Error::Call(error))),
                Ok(domid) => {
                    let begun = self.create_internal(
                        domid,
                        config,
                        InternalState::Start,
                        Event::Begin,
                    );
                    Self::filled(domid, begun)
                },
            },
            (CreateState::Filling { domid, state: filling }, event) => {
                let next = self.create_internal(domid, config, filling, event);
                Self::filled(domid, next)
            },
            (CreateState::Destroying { error }, Event::Returned(_)) => Step::Done(Err(error)),
            _ => Step::Unexpected,
        }
    }
}

} // verus!
