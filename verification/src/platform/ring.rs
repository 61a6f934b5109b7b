//! The xenstore ring page of a domain.

use super::calls::{Action, Error, Event};
use super::manager::PlatformDomainManager;
use crate::step::Step;
use vstd::prelude::*;

verus! {

pub const XEN_PAGE_SHIFT: u64 = 12;

/// The size of a page of the hypervisor.
pub const XEN_PAGE_SIZE: u64 = 4096;

/// Where the two rings end.
pub const RING_DATA_SIZE: usize = 2048;

/// Where the fields that follow the rings end.
pub const RING_FIELDS_END: usize = 2076;

/// A little-endian word of the page.
pub open spec fn word(page: Seq<u8>, offset: int) -> int {
    page[offset] + page[offset + 1] * 0x100 + page[offset + 2] * 0x1_0000 + page[offset + 3]
        * 0x100_0000
}

/// The page as xenstored and the guest see it.
#[verifier::ext_equal]
pub struct XenstoreInterface {
    pub req: Seq<u8>,
    pub rsp: Seq<u8>,
    pub req_cons: int,
    pub req_prod: int,
    pub rsp_cons: int,
    pub rsp_prod: int,
    pub server_features: int,
    pub connection: int,
    pub error: int,
}

/// The layout of the page.
pub open spec fn interface(page: Seq<u8>) -> XenstoreInterface {
    XenstoreInterface {
        req: page.subrange(0, 1024),
        rsp: page.subrange(1024, 2048),
        req_cons: word(page, 2048),
        req_prod: word(page, 2052),
        rsp_cons: word(page, 2056),
        rsp_prod: word(page, 2060),
        server_features: word(page, 2064),
        connection: word(page, 2068),
        error: word(page, 2072),
    }
}

/// A page on which nothing was ever sent.
pub open spec fn clean_interface() -> XenstoreInterface {
    XenstoreInterface {
        req: Seq::new(1024, |i: int| 0u8),
        rsp: Seq::new(1024, |i: int| 0u8),
        req_cons: 0,
        req_prod: 0,
        rsp_cons: 0,
        rsp_prod: 0,
        server_features: 0,
        connection: 0,
        error: 0,
    }
}

/// The page with its rings and fields zeroed and the rest kept.
pub open spec fn cleared(page: Seq<u8>) -> Seq<u8> {
    Seq::new(RING_FIELDS_END as nat, |i: int| 0u8) + page.skip(RING_FIELDS_END as int)
}

fn zero(page: &mut [u8], from: usize, to: usize)
    requires
        from <= to <= old(page)@.len(),
    ensures
        final(page)@.len() == old(page)@.len(),
        forall|i: int| from <= i < to ==> final(page)@[i] == 0,
        forall|i: int|
            0 <= i < old(page)@.len() && !(from <= i < to) ==> final(page)@[i] == old(page)@[i],
{
    let mut at: usize = from;
    while at < to
        invariant
            from <= at <= to <= page@.len(),
            page@.len() == old(page)@.len(),
            forall|i: int| from <= i < at ==> page@[i] == 0,
            forall|i: int|
                0 <= i < page@.len() && !(from <= i < at) ==> page@[i] == old(page)@[i],
        decreases to - at,
    {
        page[at] = 0;
        at = at + 1;
    }
}

/// Clears both rings, their indices and the control fields of a xenstore ring
/// page. What lies behind the fields is kept.
pub fn clear_ring(page: &mut [u8])
    requires
        old(page)@.len() >= RING_FIELDS_END,
    ensures
        final(page)@ == cleared(old(page)@),
        final(page)@.len() == old(page)@.len(),
        forall|i: int| 0 <= i < 2076 ==> final(page)@[i] == 0,
        forall|i: int| 2076 <= i < old(page)@.len() ==> final(page)@[i] == old(page)@[i],
{
    zero(page, 0, RING_DATA_SIZE);
    zero(page, RING_DATA_SIZE, RING_FIELDS_END);
}

/// What the reset of a ring page is waiting for.
#[derive(Clone, Copy, Debug, PartialEq, Eq, Structural)]
pub enum RingState {
    Start,
    Reserving,
    Mapping { addr: u64 },
    Clearing { addr: u64 },
    Unmapping,
}

/// What the reset of a domain's ring page does when `event` comes in `state`.
pub open spec fn ring_step<E>(
    domid: u32,
    store_mfn: u64,
    state: RingState,
    event: Event<E>,
) -> Step<RingState, Action, Result<(), Error<E>>> {
    match (state, event) {
        (RingState::Start, Event::Begin) => Step::Call {
            state: RingState::Reserving,
            action: Action::Mmap { addr: 0, size: XEN_PAGE_SIZE },
        },
        (RingState::Reserving, Event::Mapped(None)) => Step::Done(Err(Error::MmapFailed)),
        (RingState::Reserving, Event::Mapped(Some(addr))) => Step::Call {
            state: RingState::Mapping { addr },
            action: Action::MmapBatch { domid, count: 1, addr, frame: store_mfn },
        },
        (RingState::Mapping { addr }, Event::Returned(Err(error))) => Step::Done(
            Err(Error::Call(error)),
        ),
        (RingState::Mapping { addr }, Event::Returned(Ok(_))) => Step::Call {
            state: RingState::Clearing { addr },
            action: Action::ClearRing { addr, size: XEN_PAGE_SIZE },
        },
        (RingState::Clearing { addr }, Event::Cleared) => Step::Call {
            state: RingState::Unmapping,
            action: Action::Munmap { addr, size: XEN_PAGE_SIZE },
        },
        (RingState::Unmapping, Event::Unmapped) => Step::Done(Ok(())),
        _ => Step::Unexpected,
    }
}

impl<C> PlatformDomainManager<C> {
    /// Resets the xenstore ring page of a domain to a clean state: maps it, clears
    /// it and unmaps it. This keeps xenstored from processing stale data of a
    /// checkpoint once the domain is introduced to it.
    pub fn reset_xenstore_ring<E>(
        &self,
        domid: u32,
        store_mfn: u64,
        state: RingState,
        event: Event<E>,
    ) -> (step: Step<RingState, Action, Result<(), Error<E>>>)
        ensures
            step == ring_step(domid, store_mfn, state, event),
    {
        let page_size: u64 = 1u64 << XEN_PAGE_SHIFT;
        assert(1u64 << XEN_PAGE_SHIFT == XEN_PAGE_SIZE) by (bit_vector);
        match (state, event) {
            (RingState::Start, Event::Begin) => Step::Call {
                state: RingState::Reserving,
                action: Action::Mmap { addr: 0, size: page_size },
            },
            (RingState::Reserving, Event::Mapped(mapped)) => match mapped {
                None => Step::Done(Err(Error::MmapFailed)),
                Some(addr) => Step::Call {
                    state: RingState::Mapping { addr },
                    action: Action::MmapBatch { domid, count: 1, addr, frame: store_mfn },
                },
            },
            (RingState::Mapping { addr }, Event::Returned(returned)) => match returned {
                Err(error) => Step::Done(Err(Error::Call(error))),
                Ok(_) => Step::Call {
                    state: RingState::Clearing { addr },
                    action: Action::ClearRing { addr, size: page_size },
                },
            },
            (RingState::Clearing { addr }, Event::Cleared) => Step::Call {
                state: RingState::Unmapping,
                action: Action::Munmap { addr, size: page_size },
            },
            (RingState::Unmapping, Event::Unmapped) => Step::Done(Ok(())),
            _ => Step::Unexpected,
        }
    }
}

/// On a cleared page both rings are empty, all indices and control fields are
/// zero, and what lies behind them is as it was.
pub proof fn law_cleared_page_is_clean(page: Seq<u8>)
    requires
        page.len() >= RING_FIELDS_END,
    ensures
        interface(cleared(page)) == clean_interface(),
        cleared(page).len() == page.len(),
        cleared(page).skip(RING_FIELDS_END as int) == page.skip(RING_FIELDS_END as int),
{
    assert(interface(cleared(page)) == clean_interface());
}

/// Clearing a page twice is clearing it once.
pub proof fn law_clearing_is_idempotent(page: Seq<u8>)
    requires
        page.len() >= RING_FIELDS_END,
    ensures
        cleared(cleared(page)) == cleared(page),
{
    law_cleared_page_is_clean(page);
}

} // verus!
