use std::sync::Arc;

use uuid::Uuid;
use xen::platform::calls::{Action, BootDomain, CreateDomain, Error, Event, ImageLoad};
use xen::platform::config::{
    KernelFormat, PlatformBootResourcesConfig, PlatformBootResourcesInfo, PlatformDomainConfig,
    PlatformDomainInfo, PlatformKernelConfig, PlatformNinepfsBootResourcesConfig,
    PlatformNinepfsRingResource, PlatformNinepfsShareResources, PlatformOptions,
    PlatformResourcesConfig, PlatformRestoreConfig,
};
use xen::platform::create::{base_domain, ConfigureState, CreateState, InternalState};
use xen::platform::manager::{DestroyState, PlatformDomainManager};
use xen::platform::restore::RestoringState;
use xen::platform::ring::{clear_ring, RingState};
use xen::restore::RestoreResult;
use xen::step::Step;

const OCTETS: [u8; 16] = [1, 2, 3, 4, 5, 6, 7, 8, 9, 10, 11, 12, 13, 14, 15, 16];

type Manager = PlatformDomainManager<&'static str>;

fn manager() -> Manager {
    Manager::new::<u8>("hypercalls").unwrap()
}

fn resources() -> PlatformResourcesConfig {
    PlatformResourcesConfig {
        max_vcpus: 4,
        assigned_vcpus: 2,
        max_memory_mb: 512,
        assigned_memory_mb: 256,
    }
}

fn create_config(format: KernelFormat) -> PlatformDomainConfig<()> {
    PlatformDomainConfig {
        uuid: Uuid::from_bytes(OCTETS),
        platform: (),
        resources: resources(),
        kernel: PlatformKernelConfig {
            data: Arc::new(vec![0x7f]),
            format,
            initrd: None,
            cmdline: String::from("quiet"),
        },
        options: PlatformOptions { iommu: true },
        boot_resources: PlatformBootResourcesConfig::default(),
    }
}

fn restore_config() -> PlatformRestoreConfig<()> {
    PlatformRestoreConfig {
        uuid: Uuid::from_bytes(OCTETS),
        platform: (),
        resources: resources(),
        options: PlatformOptions { iommu: true },
    }
}

fn booted() -> BootDomain {
    BootDomain {
        store_evtchn: 1,
        store_mfn: 2,
        console_evtchn: 3,
        console_mfn: 4,
        boot_resources: PlatformBootResourcesInfo {
            ninepfs: vec![PlatformNinepfsShareResources {
                rings: vec![PlatformNinepfsRingResource {
                    grant_index: 5,
                    intf_gref: 6,
                    evtchn: 7,
                }],
            }],
        },
    }
}

fn base() -> Action {
    Action::CreateDomain(CreateDomain {
        iommu: true,
        handle: OCTETS,
        max_vcpus: 4,
        max_grant_frames: 8,
        max_maptrack_frames: 16,
        max_evtchn_port: 128,
    })
}

fn create_plan(load: ImageLoad) -> Vec<Action> {
    vec![
        base(),
        Action::SetMaxVcpus { domid: 9, max_vcpus: 4 },
        Action::SetMaxMem { domid: 9, max_memory_kb: 512 * 1024 + 2048 },
        Action::LoadImage(load),
        Action::Initialize { domid: 9 },
        Action::Boot { domid: 9 },
    ]
}

fn create_events() -> Vec<Event<u8>> {
    vec![
        Event::Begin,
        Event::Created(Ok(9)),
        Event::Returned(Ok(())),
        Event::Returned(Ok(())),
        Event::ImageLoaded(Ok(Ok(()))),
        Event::Returned(Ok(())),
        Event::Booted(Ok(booted())),
    ]
}

fn create(
    format: KernelFormat,
    events: Vec<Event<u8>>,
) -> (Vec<Action>, Option<Result<PlatformDomainInfo, Error<u8>>>) {
    let manager = manager();
    let config = create_config(format);
    let mut actions = Vec::new();
    let mut state = CreateState::Start;
    for event in events {
        match manager.create(&config, state, event) {
            Step::Call { state: next, action } => {
                state = next;
                actions.push(action);
            }
            Step::Done(result) => return (actions, Some(result)),
            Step::Unexpected => panic!("unexpected"),
        }
    }
    (actions, None)
}

fn restore_plan() -> Vec<Action> {
    vec![
        base(),
        Action::SetMaxVcpus { domid: 9, max_vcpus: 4 },
        Action::SetMaxMem { domid: 9, max_memory_kb: 1024 * 1024 },
        Action::AllocUnbound { domid: 9, remote_domid: 0 },
        Action::AllocUnbound { domid: 9, remote_domid: 0 },
        Action::RestoreDomain { domid: 9, checkpoint_fd: 3, store_evtchn: 31, console_evtchn: 32 },
        Action::Mmap { addr: 0, size: 4096 },
        Action::MmapBatch { domid: 9, count: 1, addr: 0x7000, frame: 77 },
        Action::ClearRing { addr: 0x7000, size: 4096 },
        Action::Munmap { addr: 0x7000, size: 4096 },
    ]
}

fn restore_events() -> Vec<Event<u8>> {
    vec![
        Event::Begin,
        Event::Created(Ok(9)),
        Event::Returned(Ok(())),
        Event::Returned(Ok(())),
        Event::Allocated(Ok(31)),
        Event::Allocated(Ok(32)),
        Event::Restored(Ok(RestoreResult { store_mfn: 77, console_mfn: 88 })),
        Event::Mapped(Some(0x7000)),
        Event::Returned(Ok(())),
        Event::Cleared,
        Event::Unmapped,
    ]
}

fn restore(events: Vec<Event<u8>>) -> (Vec<Action>, Option<Result<PlatformDomainInfo, Error<u8>>>) {
    let manager = manager();
    let config = restore_config();
    let mut actions = Vec::new();
    let mut state = RestoringState::Start;
    for event in events {
        match manager.restore(&config, 3, state, event) {
            Step::Call { state: next, action } => {
                state = next;
                actions.push(action);
            }
            Step::Done(result) => return (actions, Some(result)),
            Step::Unexpected => panic!("unexpected"),
        }
    }
    (actions, None)
}

#[test]
fn manager_keeps_its_hypercalls() {
    assert_eq!(*manager().call(), "hypercalls");
}

#[test]
fn default_boot_resources() {
    assert_eq!(
        PlatformNinepfsBootResourcesConfig::default(),
        PlatformNinepfsBootResourcesConfig { share_count: 0, rings_per_share: 1 }
    );
    assert_eq!(PlatformBootResourcesConfig::default().ninepfs.rings_per_share, 1);
    assert!(PlatformBootResourcesInfo::default().ninepfs.is_empty());
}

#[test]
fn clones_keep_every_field() {
    let config = create_config(KernelFormat::ElfCompressed).clone();
    assert_eq!(config.uuid, Uuid::from_bytes(OCTETS));
    assert_eq!(config.resources, resources());
    assert_eq!(*config.kernel.data, vec![0x7f]);
    assert_eq!(config.kernel.format, KernelFormat::ElfCompressed);
    assert!(config.kernel.initrd.is_none());
    assert_eq!(config.kernel.cmdline, "quiet");
    assert!(config.options.iommu);
    assert_eq!(config.boot_resources.ninepfs.share_count, 0);
    let kernel = PlatformKernelConfig { initrd: Some(Arc::new(vec![3])), ..config.kernel };
    assert_eq!(kernel.clone().initrd, Some(Arc::new(vec![3])));
    let config = restore_config().clone();
    assert_eq!(config.uuid, Uuid::from_bytes(OCTETS));
    assert_eq!(config.resources, resources());
    assert!(config.options.iommu);
}

#[test]
fn base_domain_is_capped() {
    let domain = base_domain([9; 16], &PlatformOptions { iommu: false }, &resources());
    assert_eq!(
        domain,
        CreateDomain {
            iommu: false,
            handle: [9; 16],
            max_vcpus: 4,
            max_grant_frames: 8,
            max_maptrack_frames: 16,
            max_evtchn_port: 128,
        }
    );
    let named = manager().create_base_domain(
        Uuid::from_bytes(OCTETS),
        &PlatformOptions { iommu: true },
        &resources(),
    );
    assert_eq!(Action::CreateDomain(named), base());
}

#[test]
fn memory_limits() {
    assert_eq!(Manager::max_memory_kb(&resources()), 526336);
    assert_eq!(Manager::restore_max_memory_kb(&resources()), 1048576);
    let none = PlatformResourcesConfig { max_memory_mb: 0, ..resources() };
    assert_eq!(Manager::max_memory_kb(&none), 2048);
    assert_eq!(Manager::restore_max_memory_kb(&none), 0);
    let two = PlatformResourcesConfig { max_memory_mb: 2, ..resources() };
    assert_eq!(Manager::max_memory_kb(&two), 4096);
    assert_eq!(Manager::restore_max_memory_kb(&two), 4096);
}

#[test]
fn creation_runs_through() {
    let (actions, result) = create(KernelFormat::ElfCompressed, create_events());
    assert_eq!(actions, create_plan(ImageLoad::Decompress));
    assert_eq!(
        result,
        Some(Ok(PlatformDomainInfo {
            domid: 9,
            store_evtchn: 1,
            store_mfn: 2,
            console_evtchn: 3,
            console_mfn: 4,
            boot_resources: booted().boot_resources,
        }))
    );
    let (actions, _) = create(KernelFormat::ElfUncompressed, create_events());
    assert_eq!(actions, create_plan(ImageLoad::AsIs));
}

#[test]
fn creation_that_never_began_destroys_nothing() {
    let (actions, result) =
        create(KernelFormat::ElfCompressed, vec![Event::Begin, Event::Created(Err(5))]);
    assert_eq!(actions, vec![base()]);
    assert_eq!(result, Some(Err(Error::Call(5))));
}

#[test]
fn half_made_domains_are_destroyed() {
    let failures: Vec<(usize, Event<u8>, Error<u8>)> = vec![
        (2, Event::Returned(Err(20)), Error::Call(20)),
        (3, Event::Returned(Err(30)), Error::Call(30)),
        (4, Event::ImageLoaded(Err(40)), Error::AsyncJoinError(40)),
        (4, Event::ImageLoaded(Ok(Err(41))), Error::Call(41)),
        (5, Event::Returned(Err(50)), Error::Call(50)),
        (6, Event::Booted(Err(60)), Error::Call(60)),
    ];
    for (at, failure, error) in failures {
        let mut events = create_events();
        events.truncate(at);
        events.push(failure);
        // The destruction fails too, and that is not what is reported.
        events.push(Event::Returned(Err(99)));
        let (actions, result) = create(KernelFormat::ElfCompressed, events);
        let mut expected = create_plan(ImageLoad::Decompress)[..at].to_vec();
        expected.push(Action::DestroyDomain { domid: 9 });
        assert_eq!(actions, expected);
        assert_eq!(result, Some(Err(error)));
    }
}

#[test]
fn parts_of_a_creation_stand_alone() {
    let manager = manager();
    let config = create_config(KernelFormat::ElfUncompressed);
    let step = manager.configure_domain_resources::<u8>(
        1,
        &config.resources,
        ConfigureState::SettingMemory,
        Event::Returned(Ok(())),
    );
    assert_eq!(step, Step::Done(Ok(())));
    let step = manager.create_internal::<(), u8>(1, &config, InternalState::Start, Event::Begin);
    assert_eq!(
        step,
        Step::Call {
            state: InternalState::Configuring(ConfigureState::SettingVcpus),
            action: Action::SetMaxVcpus { domid: 1, max_vcpus: 4 },
        }
    );
    let step = manager.create_internal::<(), u8>(1, &config, InternalState::Booting, Event::Begin);
    assert_eq!(step, Step::Unexpected);
}

#[test]
fn restoring_runs_through() {
    let (actions, result) = restore(restore_events());
    assert_eq!(actions, restore_plan());
    assert_eq!(
        result,
        Some(Ok(PlatformDomainInfo {
            domid: 9,
            store_evtchn: 31,
            store_mfn: 77,
            console_evtchn: 32,
            console_mfn: 88,
            boot_resources: PlatformBootResourcesInfo { ninepfs: vec![] },
        }))
    );
}

#[test]
fn unloadable_checkpoint_destroys_the_domain() {
    let mut events = restore_events();
    events.truncate(6);
    events.push(Event::Restored(Err("bad stream".to_string())));
    events.push(Event::Returned(Err(1)));
    let (actions, result) = restore(events);
    let mut expected = restore_plan()[..6].to_vec();
    expected.push(Action::DestroyDomain { domid: 9 });
    assert_eq!(actions, expected);
    assert_eq!(
        result,
        Some(Err(Error::GenericError("domain restore failed: bad stream".to_string())))
    );
}

#[test]
fn other_failures_of_a_restore_are_returned_at_once() {
    let failures: Vec<(usize, Event<u8>, Error<u8>)> = vec![
        (1, Event::Created(Err(1)), Error::Call(1)),
        (2, Event::Returned(Err(2)), Error::Call(2)),
        (3, Event::Returned(Err(3)), Error::Call(3)),
        (4, Event::Allocated(Err(4)), Error::Call(4)),
        (5, Event::Allocated(Err(5)), Error::Call(5)),
        (7, Event::Mapped(None), Error::MmapFailed),
        (8, Event::Returned(Err(8)), Error::Call(8)),
    ];
    for (at, failure, error) in failures {
        let mut events = restore_events();
        events.truncate(at);
        events.push(failure);
        let (actions, result) = restore(events);
        assert_eq!(actions, restore_plan()[..at]);
        assert_eq!(result, Some(Err(error)));
    }
}

#[test]
fn ring_reset_stands_alone() {
    let manager = manager();
    let step = manager.reset_xenstore_ring::<u8>(1, 2, RingState::Start, Event::Begin);
    assert_eq!(
        step,
        Step::Call {
            state: RingState::Reserving,
            action: Action::Mmap { addr: 0, size: 4096 },
        }
    );
    let step = manager.reset_xenstore_ring::<u8>(1, 2, RingState::Unmapping, Event::Unmapped);
    assert_eq!(step, Step::Done(Ok(())));
    let step = manager.reset_xenstore_ring::<u8>(1, 2, RingState::Unmapping, Event::Cleared);
    assert_eq!(step, Step::Unexpected);
}

#[test]
fn clearing_keeps_what_lies_behind_the_fields() {
    let mut page = vec![0xaau8; 4096];
    clear_ring(&mut page);
    assert!(page[..2076].iter().all(|byte| *byte == 0));
    assert!(page[2076..].iter().all(|byte| *byte == 0xaa));
    let once = page.clone();
    clear_ring(&mut page);
    assert_eq!(page, once);
}

#[test]
fn destruction_reports_its_failure() {
    let manager = manager();
    assert_eq!(
        manager.destroy::<u8>(6, DestroyState::Start, Event::Begin),
        Step::Call {
            state: DestroyState::Destroying,
            action: Action::DestroyDomain { domid: 6 },
        }
    );
    assert_eq!(
        manager.destroy::<u8>(6, DestroyState::Destroying, Event::Returned(Ok(()))),
        Step::Done(Ok(()))
    );
    assert_eq!(
        manager.destroy(6, DestroyState::Destroying, Event::Returned(Err(7u8))),
        Step::Done(Err(Error::Call(7)))
    );
}

#[test]
fn outcomes_that_do_not_fit_are_told_apart() {
    let manager = manager();
    let step = manager.create::<(), u8>(
        &create_config(KernelFormat::ElfCompressed),
        CreateState::CreatingDomain,
        Event::Begin,
    );
    assert_eq!(step, Step::Unexpected);
    let step =
        manager.restore::<(), u8>(&restore_config(), 3, RestoringState::Start, Event::Cleared);
    assert_eq!(step, Step::Unexpected);
    let step = manager.destroy::<u8>(6, DestroyState::Start, Event::Cleared);
    assert_eq!(step, Step::Unexpected);
}
