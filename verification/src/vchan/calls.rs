//! The calls into libxenvchan, their outcomes, and the loops made of them.

use super::error::{api_error, Error};
use crate::cint::c_int;
use vstd::prelude::*;

verus! {

/// `libxenvchan_is_open`: the peer is gone.
pub const XENVCHAN_OPEN_CLOSED: i32 = 0;

/// `libxenvchan_is_open`: both ends are there.
pub const XENVCHAN_OPEN_CONNECTED: i32 = 1;

/// `libxenvchan_is_open`: the server is there, the client is not yet.
pub const XENVCHAN_OPEN_WAITING_FOR_CLIENT: i32 = 2;

/// A call on an open handle. The transfers pass the caller's whole buffer,
/// whose length is `size`.
#[derive(Clone, Copy, Debug, PartialEq, Eq, Structural)]
pub enum VchanCall {
    /// `libxenvchan_wait`
    Wait,
    /// `libxenvchan_is_open`
    IsOpen,
    /// `libxenvchan_fd_for_select`
    FdForSelect,
    /// `libxenvchan_data_ready`
    DataReady,
    /// `libxenvchan_buffer_space`
    BufferSpace,
    /// `libxenvchan_read`
    Read { size: usize },
    /// `libxenvchan_write`
    Write { size: usize },
    /// `libxenvchan_recv`
    Recv { size: usize },
    /// `libxenvchan_send`
    Send { size: usize },
}

/// What a call left behind: its return code, and the error code of the
/// operating system as it stood right after, where there was one.
#[derive(Clone, Copy, Debug, PartialEq, Eq, Structural)]
pub struct Reply {
    pub rc: i32,
    pub errno: Option<i32>,
}

/// What a stream operation does next.
#[derive(Debug, PartialEq, Eq)]
pub enum VchanStep<T> {
    /// Make the call and hand its reply in.
    Call(VchanCall),
    /// The operation is over.
    Done(Result<T, Error>),
}

/// Where an operation of a single call stands.
#[derive(Clone, Copy, Debug, PartialEq, Eq, Structural)]
pub enum CallEvent {
    Start,
    Returned(Reply),
}

/// Where a wait for the peer stands: which call returned last.
#[derive(Clone, Copy, Debug, PartialEq, Eq, Structural)]
pub enum ConnectEvent {
    Start,
    /// `libxenvchan_is_open` returned.
    Opened(Reply),
    /// `libxenvchan_wait` returned.
    Waited(Reply),
}

/// Where a blocking transfer stands: which call returned last.
#[derive(Clone, Copy, Debug, PartialEq, Eq, Structural)]
pub enum TransferEvent {
    Start,
    /// The transfer call itself returned.
    Moved(Reply),
    /// `libxenvchan_is_open` returned.
    Opened(Reply),
    /// `libxenvchan_wait` returned.
    Waited(Reply),
}

/// The event that the reply to `call` makes in a transfer.
pub open spec fn transfer_answer(call: VchanCall, reply: Reply) -> TransferEvent {
    match call {
        VchanCall::IsOpen => TransferEvent::Opened(reply),
        VchanCall::Wait => TransferEvent::Waited(reply),
        _ => TransferEvent::Moved(reply),
    }
}

/// The event that the reply to `call` makes in a wait for the peer.
pub open spec fn connect_answer(call: VchanCall, reply: Reply) -> ConnectEvent {
    match call {
        VchanCall::Wait => ConnectEvent::Waited(reply),
        _ => ConnectEvent::Opened(reply),
    }
}

impl VchanCall {
    /// The event to go on with after this call of a transfer.
    pub fn transfer_event(self, reply: Reply) -> (event: TransferEvent)
        ensures
            event == transfer_answer(self, reply),
    {
        match self {
            VchanCall::IsOpen => TransferEvent::Opened(reply),
            VchanCall::Wait => TransferEvent::Waited(reply),
            _ => TransferEvent::Moved(reply),
        }
    }

    /// The event to go on with after this call of a wait for the peer.
    pub fn connect_event(self, reply: Reply) -> (event: ConnectEvent)
        ensures
            event == connect_answer(self, reply),
    {
        match self {
            VchanCall::Wait => ConnectEvent::Waited(reply),
            _ => ConnectEvent::Opened(reply),
        }
    }
}

/// An operation of a single call that fails on a negative return code and
/// else yields `value` of it.
pub open spec fn single_call<T>(
    call: VchanCall,
    op: &'static str,
    value: spec_fn(i32) -> T,
    event: CallEvent,
) -> VchanStep<T> {
    match event {
        CallEvent::Start => VchanStep::Call(call),
        CallEvent::Returned(reply) => if reply.rc < 0 {
            VchanStep::Done(Err(api_error(op, reply.errno)))
        } else {
            VchanStep::Done(Ok(value(reply.rc)))
        },
    }
}

/// One transfer call that does not block: an empty buffer is done at once.
pub open spec fn transfer_once(
    size: usize,
    call: VchanCall,
    op: &'static str,
    event: CallEvent,
) -> VchanStep<usize> {
    if size == 0 {
        VchanStep::Done(Ok(0))
    } else {
        single_call(call, op, |rc: i32| rc as usize, event)
    }
}

/// A blocking transfer: the call is repeated, with a wait in between, until
/// its return code satisfies, something fails, or the peer is closed.
pub struct TransferLoop<T> {
    /// The length of the buffer.
    pub size: usize,
    /// The transfer call.
    pub call: VchanCall,
    /// The name under which its failures are reported.
    pub op: &'static str,
    /// The result for an empty buffer.
    pub empty: T,
    /// The result that a return code of the transfer call gives, if it ends
    /// the transfer.
    pub finished: spec_fn(i32) -> Option<T>,
    /// The result when the peer turns out to be closed.
    pub closed: Result<T, Error>,
}

impl<T> TransferLoop<T> {
    /// What the transfer does after `event`.
    pub open spec fn step(self, event: TransferEvent) -> VchanStep<T> {
        match event {
            TransferEvent::Start => if self.size == 0 {
                VchanStep::Done(Ok(self.empty))
            } else {
                VchanStep::Call(self.call)
            },
            TransferEvent::Moved(reply) => match (self.finished)(reply.rc) {
                Some(value) => VchanStep::Done(Ok(value)),
                None => if reply.rc < 0 {
                    VchanStep::Done(Err(api_error(self.op, reply.errno)))
                } else {
                    VchanStep::Call(VchanCall::IsOpen)
                },
            },
            TransferEvent::Opened(reply) => if reply.rc < 0 {
                VchanStep::Done(Err(api_error("libxenvchan_is_open", reply.errno)))
            } else if reply.rc == XENVCHAN_OPEN_CLOSED {
                VchanStep::Done(self.closed)
            } else {
                VchanStep::Call(VchanCall::Wait)
            },
            TransferEvent::Waited(reply) => if reply.rc < 0 {
                VchanStep::Done(Err(api_error("libxenvchan_wait", reply.errno)))
            } else {
                VchanStep::Call(self.call)
            },
        }
    }
}

/// A read is satisfied by any byte. A closed peer is the end of the stream.
pub open spec fn read_loop(size: usize) -> TransferLoop<usize> {
    TransferLoop {
        size,
        call: VchanCall::Read { size },
        op: "libxenvchan_read",
        empty: 0,
        finished: |rc: i32|
            if rc > 0 {
                Some(rc as usize)
            } else {
                None
            },
        closed: Ok(0),
    }
}

/// A write is satisfied by any byte. A closed peer is an error.
pub open spec fn write_loop(size: usize) -> TransferLoop<usize> {
    TransferLoop {
        size,
        call: VchanCall::Write { size },
        op: "libxenvchan_write",
        empty: 0,
        finished: |rc: i32|
            if rc > 0 {
                Some(rc as usize)
            } else {
                None
            },
        closed: Err(Error::Closed),
    }
}

/// An exact receive is satisfied by a return code that equals the size, cast
/// to a C `int`.
pub open spec fn recv_loop(size: usize) -> TransferLoop<()> {
    TransferLoop {
        size,
        call: VchanCall::Recv { size },
        op: "libxenvchan_recv",
        empty: (),
        finished: |rc: i32|
            if rc == c_int(size as int) {
                Some(())
            } else {
                None
            },
        closed: Err(Error::Closed),
    }
}

/// An exact send is satisfied by a return code that equals the size, cast to
/// a C `int`.
pub open spec fn send_loop(size: usize) -> TransferLoop<()> {
    TransferLoop {
        size,
        call: VchanCall::Send { size },
        op: "libxenvchan_send",
        empty: (),
        finished: |rc: i32|
            if rc == c_int(size as int) {
                Some(())
            } else {
                None
            },
        closed: Err(Error::Closed),
    }
}

/// What a wait for the peer does after `event`: it is over once the channel is
/// connected, fails once it is closed, and waits in every other state.
pub open spec fn connect_step(event: ConnectEvent) -> VchanStep<()> {
    match event {
        ConnectEvent::Start => VchanStep::Call(VchanCall::IsOpen),
        ConnectEvent::Opened(reply) => if reply.rc < 0 {
            VchanStep::Done(Err(api_error("libxenvchan_is_open", reply.errno)))
        } else if reply.rc == XENVCHAN_OPEN_CONNECTED {
            VchanStep::Done(Ok(()))
        } else if reply.rc == XENVCHAN_OPEN_CLOSED {
            VchanStep::Done(Err(Error::Closed))
        } else {
            VchanStep::Call(VchanCall::Wait)
        },
        ConnectEvent::Waited(reply) => if reply.rc < 0 {
            VchanStep::Done(Err(api_error("libxenvchan_wait", reply.errno)))
        } else {
            VchanStep::Call(VchanCall::IsOpen)
        },
    }
}

} // verus!
