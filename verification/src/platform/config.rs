//! What a domain is made of, and what is known of it once it runs.

use std::sync::Arc;
use uuid::Uuid;
use vstd::prelude::*;

verus! {

/// Memory that a domain may use beyond its configured maximum.
pub const XEN_EXTRA_MEMORY_KB: u64 = 2048;

/// Configuration for restoring a domain from a checkpoint. Same as
/// `PlatformDomainConfig` but without kernel data. `P` is the kind of platform
/// that the domain runs on.
#[derive(Debug)]
pub struct PlatformRestoreConfig<P> {
    pub uuid: Uuid,
    pub platform: P,
    pub resources: PlatformResourcesConfig,
    pub options: PlatformOptions,
}

impl<P: Clone> Clone for PlatformRestoreConfig<P> {
    fn clone(&self) -> (copy: Self)
        ensures
            copy.uuid == self.uuid,
            cloned::<P>(self.platform, copy.platform),
            copy.resources == self.resources,
            copy.options == self.options,
    {
        PlatformRestoreConfig {
            uuid: self.uuid,
            platform: self.platform.clone(),
            resources: self.resources,
            options: self.options,
        }
    }
}

/// Configuration for creating a domain. `P` is the kind of platform that the
/// domain runs on.
#[derive(Debug)]
pub struct PlatformDomainConfig<P> {
    pub uuid: Uuid,
    pub platform: P,
    pub resources: PlatformResourcesConfig,
    pub kernel: PlatformKernelConfig,
    pub options: PlatformOptions,
    pub boot_resources: PlatformBootResourcesConfig,
}

impl<P: Clone> Clone for PlatformDomainConfig<P> {
    fn clone(&self) -> (copy: Self)
        ensures
            copy.uuid == self.uuid,
            cloned::<P>(self.platform, copy.platform),
            copy.resources == self.resources,
            cloned::<PlatformKernelConfig>(self.kernel, copy.kernel),
            copy.options == self.options,
            copy.boot_resources == self.boot_resources,
    {
        PlatformDomainConfig {
            uuid: self.uuid,
            platform: self.platform.clone(),
            resources: self.resources,
            kernel: self.kernel.clone(),
            options: self.options,
            boot_resources: self.boot_resources,
        }
    }
}

#[derive(Debug)]
pub struct PlatformKernelConfig {
    pub data: Arc<Vec<u8>>,
    pub format: KernelFormat,
    pub initrd: Option<Arc<Vec<u8>>>,
    pub cmdline: String,
}

impl Clone for PlatformKernelConfig {
    /// The copy shares the kernel and the initrd.
    fn clone(&self) -> (copy: Self)
        ensures
            copy.data == self.data,
            copy.format == self.format,
            copy.initrd == self.initrd,
            copy.cmdline@ == self.cmdline@,
    {
        PlatformKernelConfig {
            data: self.data.clone(),
            format: self.format,
            initrd: match &self.initrd {
                Some(initrd) => Some(initrd.clone()),
                None => None,
            },
            cmdline: self.cmdline.clone(),
        }
    }
}

#[derive(Clone, Copy, Debug, PartialEq, Eq, Structural)]
pub struct PlatformResourcesConfig {
    pub max_vcpus: u32,
    pub assigned_vcpus: u32,
    pub max_memory_mb: u64,
    pub assigned_memory_mb: u64,
}

#[derive(Clone, Copy, Debug, PartialEq, Eq, Structural)]
pub struct PlatformOptions {
    pub iommu: bool,
}

#[derive(Clone, Copy, Debug, PartialEq, Eq, Structural)]
pub struct PlatformBootResourcesConfig {
    pub ninepfs: PlatformNinepfsBootResourcesConfig,
}

impl Default for PlatformBootResourcesConfig {
    fn default() -> (config: Self)
        ensures
            config.ninepfs.share_count == 0,
            config.ninepfs.rings_per_share == 1,
    {
        PlatformBootResourcesConfig { ninepfs: PlatformNinepfsBootResourcesConfig::default() }
    }
}

#[derive(Clone, Copy, Debug, PartialEq, Eq, Structural)]
pub struct PlatformNinepfsBootResourcesConfig {
    pub share_count: u32,
    pub rings_per_share: u32,
}

impl Default for PlatformNinepfsBootResourcesConfig {
    /// No share, and one ring for each there might be.
    fn default() -> (config: Self)
        ensures
            config.share_count == 0,
            config.rings_per_share == 1,
    {
        PlatformNinepfsBootResourcesConfig { share_count: 0, rings_per_share: 1 }
    }
}

#[derive(Clone, Copy, Debug, PartialEq, Eq, Structural)]
pub enum KernelFormat {
    ElfUncompressed,
    ElfCompressed,
}

/// A domain that runs.
#[derive(Clone, Debug, PartialEq, Eq)]
pub struct PlatformDomainInfo {
    pub domid: u32,
    pub store_evtchn: u32,
    pub store_mfn: u64,
    pub console_evtchn: u32,
    pub console_mfn: u64,
    pub boot_resources: PlatformBootResourcesInfo,
}

/// What is known of a domain, with a sequence for its ninepfs shares.
#[verifier::ext_equal]
pub struct DomainInfoView {
    pub domid: u32,
    pub store_evtchn: u32,
    pub store_mfn: u64,
    pub console_evtchn: u32,
    pub console_mfn: u64,
    pub ninepfs: Seq<PlatformNinepfsShareResources>,
}

impl View for PlatformDomainInfo {
    type V = DomainInfoView;

    open spec fn view(&self) -> DomainInfoView {
        DomainInfoView {
            domid: self.domid,
            store_evtchn: self.store_evtchn,
            store_mfn: self.store_mfn,
            console_evtchn: self.console_evtchn,
            console_mfn: self.console_mfn,
            ninepfs: self.boot_resources.ninepfs@,
        }
    }
}

#[derive(Clone, Debug, PartialEq, Eq)]
pub struct PlatformBootResourcesInfo {
    pub ninepfs: Vec<PlatformNinepfsShareResources>,
}

impl Default for PlatformBootResourcesInfo {
    fn default() -> (info: Self)
        ensures
            info.ninepfs@ == Seq::<PlatformNinepfsShareResources>::empty(),
    {
        PlatformBootResourcesInfo { ninepfs: Vec::new() }
    }
}

#[derive(Clone, Debug, PartialEq, Eq)]
pub struct PlatformNinepfsShareResources {
    pub rings: Vec<PlatformNinepfsRingResource>,
}

#[derive(Clone, Copy, Debug, PartialEq, Eq, Structural)]
pub struct PlatformNinepfsRingResource {
    pub grant_index: u64,
    pub intf_gref: u32,
    pub evtchn: u32,
}

impl PlatformResourcesConfig {
    /// The memory that a new domain may use, in KiB.
    pub open spec fn max_memory_kb(self) -> int {
        self.max_memory_mb * 1024 + XEN_EXTRA_MEMORY_KB
    }

    /// The memory that a restored domain may use, in KiB: twice its own, as
    /// the restore allocates page tables beyond the checkpoint's footprint.
    pub open spec fn restore_max_memory_kb(self) -> int {
        self.max_memory_mb * 1024 * 2
    }
}

} // verus!
