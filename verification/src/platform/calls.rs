//! The calls that bring a domain up and down, and their outcomes.

use super::config::PlatformBootResourcesInfo;
use crate::restore::RestoreResult;
use vstd::prelude::*;

verus! {

/// Why a domain could not be brought up or down. `E` is the error of a failed
/// call.
#[derive(Debug, PartialEq, Eq)]
pub enum Error<E> {
    /// A call failed.
    Call(E),
    /// The task that loads the kernel image was lost.
    AsyncJoinError(E),
    /// No memory to map a page of the domain.
    MmapFailed,
    GenericError(String),
}

/// An error, with its text as a sequence.
pub enum ErrorView<E> {
    Call(E),
    AsyncJoinError(E),
    MmapFailed,
    GenericError(Seq<char>),
}

impl<E> View for Error<E> {
    type V = ErrorView<E>;

    open spec fn view(&self) -> ErrorView<E> {
        match *self {
            Error::Call(error) => ErrorView::Call(error),
            Error::AsyncJoinError(error) => ErrorView::AsyncJoinError(error),
            Error::MmapFailed => ErrorView::MmapFailed,
            Error::GenericError(text) => ErrorView::GenericError(text@),
        }
    }
}

/// What is asked of the hypervisor for an empty domain. Everything else is as
/// the platform sets it up, with or without an IOMMU.
#[derive(Clone, Copy, Debug, PartialEq, Eq)]
pub struct CreateDomain {
    pub iommu: bool,
    pub handle: [u8; 16],
    pub max_vcpus: u32,
    pub max_grant_frames: u32,
    pub max_maptrack_frames: u32,
    pub max_evtchn_port: u32,
}

/// How the bytes of a kernel become an image.
#[derive(Clone, Copy, Debug, PartialEq, Eq, Structural)]
pub enum ImageLoad {
    /// They are decompressed first, which may fail.
    Decompress,
    /// They are the image.
    AsIs,
}

/// What is known of a domain that has been booted.
#[derive(Debug, PartialEq, Eq)]
pub struct BootDomain {
    pub store_evtchn: u32,
    pub store_mfn: u64,
    pub console_evtchn: u32,
    pub console_mfn: u64,
    pub boot_resources: PlatformBootResourcesInfo,
}

#[derive(Clone, Copy, Debug, PartialEq, Eq)]
pub enum Action {
    /// Create an empty domain.
    CreateDomain(CreateDomain),
    SetMaxVcpus { domid: u32, max_vcpus: u32 },
    SetMaxMem { domid: u32, max_memory_kb: u64 },
    /// Load the kernel image on a thread that may block.
    LoadImage(ImageLoad),
    /// Lay the loaded image and the boot resources out in the domain.
    Initialize { domid: u32 },
    /// Start what was laid out.
    Boot { domid: u32 },
    DestroyDomain { domid: u32 },
    /// Allocate an event channel of the domain that `remote_domid` may bind.
    AllocUnbound { domid: u32, remote_domid: u32 },
    /// Load a checkpoint into the domain.
    RestoreDomain { domid: u32, checkpoint_fd: i32, store_evtchn: u32, console_evtchn: u32 },
    /// Reserve `size` bytes of address space.
    Mmap { addr: u64, size: u64 },
    /// Map `count` frames of the domain from `frame` on to `addr`.
    MmapBatch { domid: u32, count: u64, addr: u64, frame: u64 },
    /// Clear the xenstore ring page that is mapped at `addr`, and make that
    /// visible.
    ClearRing { addr: u64, size: u64 },
    Munmap { addr: u64, size: u64 },
}

/// What came of the last call.
#[derive(Debug, PartialEq, Eq)]
pub enum Event<E> {
    Begin,
    /// `CreateDomain` returned.
    Created(Result<u32, E>),
    /// `SetMaxVcpus`, `SetMaxMem`, `Initialize`, `DestroyDomain` or
    /// `MmapBatch` returned.
    Returned(Result<(), E>),
    /// `LoadImage` returned, or its task was lost.
    ImageLoaded(Result<Result<(), E>, E>),
    /// `Boot` returned.
    Booted(Result<BootDomain, E>),
    /// `AllocUnbound` returned.
    Allocated(Result<u32, E>),
    /// `RestoreDomain` returned: a failure comes with its text.
    Restored(Result<RestoreResult, String>),
    /// `Mmap` returned.
    Mapped(Option<u64>),
    /// `ClearRing` is done.
    Cleared,
    /// `Munmap` returned, whatever its return code.
    Unmapped,
}

} // verus!
