//! The operations on a handle.

use super::calls::{
    connect_step, read_loop, recv_loop, send_loop, single_call, transfer_once, write_loop,
    CallEvent, ConnectEvent, Reply, TransferEvent, VchanCall, VchanStep, XENVCHAN_OPEN_CLOSED,
    XENVCHAN_OPEN_CONNECTED, XENVCHAN_OPEN_WAITING_FOR_CLIENT,
};
use super::config::{c_path, first_nul, path_bytes, VchanConfig};
use super::error::{api_error, last_error, Error};
use crate::cint::{c_int, u32_to_c_int, usize_to_c_int};
use vstd::prelude::*;

verus! {

/// The call that brings a handle into being. `xs_path` is a C string.
#[derive(Debug, PartialEq, Eq)]
pub enum InitCall {
    /// `libxenvchan_server_init`
    Server { domid: i32, xs_path: Vec<u8>, read_min: usize, write_min: usize },
    /// `libxenvchan_client_init`
    Client { domid: i32, xs_path: Vec<u8> },
}

/// Where the making of a handle stands.
#[derive(Debug, PartialEq, Eq)]
pub enum InitEvent<H> {
    Start,
    /// The call returned: a handle, or a null pointer and the error code that
    /// stood after it.
    Returned { ptr: Option<H>, errno: Option<i32> },
}

/// What the making of a handle does next.
#[derive(Debug, PartialEq, Eq)]
pub enum InitStep<T> {
    Init(InitCall),
    Done(Result<T, Error>),
}

/// The result of the call `op` that returned `ptr`: a null pointer is a failure.
pub open spec fn init_result<H>(op: &'static str, ptr: Option<H>, errno: Option<i32>) -> InitStep<
    H,
> {
    match ptr {
        Some(handle) => InitStep::Done(Ok(handle)),
        None => InitStep::Done(Err(api_error(op, errno))),
    }
}

/// The refusal of a path that holds a NUL byte.
pub open spec fn path_refused<H>(path: Seq<char>, step: InitStep<H>) -> bool {
    &&& step matches InitStep::Done(Err(Error::InvalidPath(nul)))
    &&& nul.bytes@ == path_bytes(path)
    &&& first_nul(path_bytes(path), nul.position as int)
}

/// What the making of a server's handle answers to `event`.
pub open spec fn server_answers<H>(
    cfg: VchanConfig,
    event: InitEvent<H>,
    step: InitStep<H>,
) -> bool {
    match event {
        InitEvent::Start => if path_bytes(cfg.xs_path@).contains(0) {
            path_refused(cfg.xs_path@, step)
        } else {
            &&& step matches InitStep::Init(InitCall::Server { domid, xs_path, read_min, write_min })
            &&& domid == c_int(cfg.domid as int)
            &&& xs_path@ == path_bytes(cfg.xs_path@).push(0)
            &&& read_min == cfg.read_min
            &&& write_min == cfg.write_min
        },
        InitEvent::Returned { ptr, errno } => step == init_result(
            "libxenvchan_server_init",
            ptr,
            errno,
        ),
    }
}

/// What the making of a client's handle answers to `event`.
pub open spec fn client_answers<H>(
    cfg: VchanConfig,
    event: InitEvent<H>,
    step: InitStep<H>,
) -> bool {
    match event {
        InitEvent::Start => if path_bytes(cfg.xs_path@).contains(0) {
            path_refused(cfg.xs_path@, step)
        } else {
            &&& step matches InitStep::Init(InitCall::Client { domid, xs_path })
            &&& domid == c_int(cfg.domid as int)
            &&& xs_path@ == path_bytes(cfg.xs_path@).push(0)
        },
        InitEvent::Returned { ptr, errno } => step == init_result(
            "libxenvchan_client_init",
            ptr,
            errno,
        ),
    }
}

/// An open handle `H` of libxenvchan. Whoever owns the value owns the handle.
#[derive(Debug)]
pub struct RawVchan<H> {
    ptr: H,
}

/// A failing return code of `op`, as an error.
fn checked(op: &'static str, reply: Reply) -> (rc: Result<i32, Error>)
    ensures
        rc == (if reply.rc < 0 {
            Err::<i32, Error>(api_error(op, reply.errno))
        } else {
            Ok(reply.rc)
        }),
{
    if reply.rc < 0 {
        return Err(last_error(op, reply.errno));
    }
    Ok(reply.rc)
}

/// A return code that counts, as a size.
fn counted(op: &'static str, reply: Reply) -> (count: Result<usize, Error>)
    ensures
        count == (if reply.rc < 0 {
            Err::<usize, Error>(api_error(op, reply.errno))
        } else {
            Ok(reply.rc as usize)
        }),
{
    match checked(op, reply) {
        Ok(rc) => Ok(rc as usize),
        Err(error) => Err(error),
    }
}

impl<H> RawVchan<H> {
    /// The handle.
    pub closed spec fn handle(&self) -> H {
        self.ptr
    }

    /// The making of a handle, with the bare handle for its result.
    pub open spec fn handles(step: InitStep<RawVchan<H>>) -> InitStep<H> {
        match step {
            InitStep::Init(call) => InitStep::Init(call),
            InitStep::Done(Ok(raw)) => InitStep::Done(Ok(raw.handle())),
            InitStep::Done(Err(error)) => InitStep::Done(Err(error)),
        }
    }

    /// Makes the handle of a server.
    pub fn server(cfg: &VchanConfig, event: InitEvent<H>) -> (step: InitStep<Self>)
        ensures
            server_answers(*cfg, event, Self::handles(step)),
    {
        match event {
            InitEvent::Start => match c_path(cfg.xs_path.as_str()) {
                Ok(xs_path) => InitStep::Init(
                    InitCall::Server {
                        domid: u32_to_c_int(cfg.domid),
                        xs_path,
                        read_min: cfg.read_min,
                        write_min: cfg.write_min,
                    },
                ),
                Err(error) => InitStep::Done(Err(error)),
            },
            InitEvent::Returned { ptr, errno } => InitStep::Done(
                Self::from_init_ptr("libxenvchan_server_init", ptr, errno),
            ),
        }
    }

    /// Makes the handle of a client.
    pub fn client(cfg: &VchanConfig, event: InitEvent<H>) -> (step: InitStep<Self>)
        ensures
            client_answers(*cfg, event, Self::handles(step)),
    {
        match event {
            InitEvent::Start => match c_path(cfg.xs_path.as_str()) {
                Ok(xs_path) => InitStep::Init(
                    InitCall::Client { domid: u32_to_c_int(cfg.domid), xs_path },
                ),
                Err(error) => InitStep::Done(Err(error)),
            },
            InitEvent::Returned { ptr, errno } => InitStep::Done(
                Self::from_init_ptr("libxenvchan_client_init", ptr, errno),
            ),
        }
    }

    /// Takes the pointer that `op` returned. A null pointer is a failure.
    pub fn from_init_ptr(op: &'static str, ptr: Option<H>, errno: Option<i32>) -> (raw: Result<
        Self,
        Error,
    >)
        ensures
            Self::handles(InitStep::Done(raw)) == init_result(op, ptr, errno),
    {
        match ptr {
            Some(ptr) => Ok(RawVchan { ptr }),
            None => Err(last_error(op, errno)),
        }
    }

    /// The handle, to make a call on.
    pub fn as_ptr(&self) -> (ptr: &H)
        ensures
            *ptr == self.handle(),
    {
        &self.ptr
    }

    /// Waits until the channel is connected.
    pub fn wait_connected(&self, event: ConnectEvent) -> (step: VchanStep<()>)
        ensures
            step == connect_step(event),
    {
        match event {
            ConnectEvent::Start => VchanStep::Call(VchanCall::IsOpen),
            ConnectEvent::Opened(reply) => match checked("libxenvchan_is_open", reply) {
                Err(error) => VchanStep::Done(Err(error)),
                Ok(XENVCHAN_OPEN_CONNECTED) => VchanStep::Done(Ok(())),
                Ok(XENVCHAN_OPEN_WAITING_FOR_CLIENT) => VchanStep::Call(VchanCall::Wait),
                Ok(XENVCHAN_OPEN_CLOSED) => VchanStep::Done(Err(Error::Closed)),
                Ok(_) => VchanStep::Call(VchanCall::Wait),
            },
            ConnectEvent::Waited(reply) => match checked("libxenvchan_wait", reply) {
                Err(error) => VchanStep::Done(Err(error)),
                Ok(_) => VchanStep::Call(VchanCall::IsOpen),
            },
        }
    }

    /// Waits for the peer to move data or close.
    pub fn wait(&self, event: CallEvent) -> (step: VchanStep<()>)
        ensures
            step == single_call(VchanCall::Wait, "libxenvchan_wait", |rc: i32| (), event),
    {
        match event {
            CallEvent::Start => VchanStep::Call(VchanCall::Wait),
            CallEvent::Returned(reply) => match checked("libxenvchan_wait", reply) {
                Err(error) => VchanStep::Done(Err(error)),
                Ok(_) => VchanStep::Done(Ok(())),
            },
        }
    }

    /// The state that `libxenvchan_is_open` reports.
    pub fn open_state(&self, event: CallEvent) -> (step: VchanStep<i32>)
        ensures
            step == single_call(VchanCall::IsOpen, "libxenvchan_is_open", |rc: i32| rc, event),
    {
        match event {
            CallEvent::Start => VchanStep::Call(VchanCall::IsOpen),
            CallEvent::Returned(reply) => VchanStep::Done(checked("libxenvchan_is_open", reply)),
        }
    }

    /// The file descriptor to poll.
    pub fn fd_for_select(&self, event: CallEvent) -> (step: VchanStep<i32>)
        ensures
            step == single_call(
                VchanCall::FdForSelect,
                "libxenvchan_fd_for_select",
                |rc: i32| rc,
                event,
            ),
    {
        match event {
            CallEvent::Start => VchanStep::Call(VchanCall::FdForSelect),
            CallEvent::Returned(reply) => VchanStep::Done(
                checked("libxenvchan_fd_for_select", reply),
            ),
        }
    }

    /// How many bytes can be read without blocking.
    pub fn data_ready(&self, event: CallEvent) -> (step: VchanStep<usize>)
        ensures
            step == single_call(
                VchanCall::DataReady,
                "libxenvchan_data_ready",
                |rc: i32| rc as usize,
                event,
            ),
    {
        match event {
            CallEvent::Start => VchanStep::Call(VchanCall::DataReady),
            CallEvent::Returned(reply) => VchanStep::Done(counted("libxenvchan_data_ready", reply)),
        }
    }

    /// How many bytes can be written without blocking.
    pub fn buffer_space(&self, event: CallEvent) -> (step: VchanStep<usize>)
        ensures
            step == single_call(
                VchanCall::BufferSpace,
                "libxenvchan_buffer_space",
                |rc: i32| rc as usize,
                event,
            ),
    {
        match event {
            CallEvent::Start => VchanStep::Call(VchanCall::BufferSpace),
            CallEvent::Returned(reply) => VchanStep::Done(
                counted("libxenvchan_buffer_space", reply),
            ),
        }
    }

    /// Reads into a buffer of `size` bytes until at least one has come, or the
    /// peer is closed.
    pub fn read_some(&mut self, size: usize, event: TransferEvent) -> (step: VchanStep<usize>)
        ensures
            step == read_loop(size).step(event),
            *final(self) == *old(self),
    {
        match event {
            TransferEvent::Start => {
                if size == 0 {
                    return VchanStep::Done(Ok(0));
                }
                VchanStep::Call(VchanCall::Read { size })
            },
            TransferEvent::Moved(reply) => {
                if reply.rc > 0 {
                    return VchanStep::Done(Ok(reply.rc as usize));
                }
                if reply.rc < 0 {
                    return VchanStep::Done(Err(last_error("libxenvchan_read", reply.errno)));
                }
                VchanStep::Call(VchanCall::IsOpen)
            },
            TransferEvent::Opened(reply) => match checked("libxenvchan_is_open", reply) {
                Err(error) => VchanStep::Done(Err(error)),
                Ok(XENVCHAN_OPEN_CLOSED) => VchanStep::Done(Ok(0)),
                Ok(_) => VchanStep::Call(VchanCall::Wait),
            },
            TransferEvent::Waited(reply) => match checked("libxenvchan_wait", reply) {
                Err(error) => VchanStep::Done(Err(error)),
                Ok(_) => VchanStep::Call(VchanCall::Read { size }),
            },
        }
    }

    /// Writes from a buffer of `size` bytes until at least one is taken.
    pub fn write_some(&mut self, size: usize, event: TransferEvent) -> (step: VchanStep<usize>)
        ensures
            step == write_loop(size).step(event),
            *final(self) == *old(self),
    {
        match event {
            TransferEvent::Start => {
                if size == 0 {
                    return VchanStep::Done(Ok(0));
                }
                VchanStep::Call(VchanCall::Write { size })
            },
            TransferEvent::Moved(reply) => {
                if reply.rc > 0 {
                    return VchanStep::Done(Ok(reply.rc as usize));
                }
                if reply.rc < 0 {
                    return VchanStep::Done(Err(last_error("libxenvchan_write", reply.errno)));
                }
                VchanStep::Call(VchanCall::IsOpen)
            },
            TransferEvent::Opened(reply) => match checked("libxenvchan_is_open", reply) {
                Err(error) => VchanStep::Done(Err(error)),
                Ok(XENVCHAN_OPEN_CLOSED) => VchanStep::Done(Err(Error::Closed)),
                Ok(_) => VchanStep::Call(VchanCall::Wait),
            },
            TransferEvent::Waited(reply) => match checked("libxenvchan_wait", reply) {
                Err(error) => VchanStep::Done(Err(error)),
                Ok(_) => VchanStep::Call(VchanCall::Write { size }),
            },
        }
    }

    /// Receives a whole buffer of `size` bytes.
    pub fn recv_exact(&mut self, size: usize, event: TransferEvent) -> (step: VchanStep<()>)
        ensures
            step == recv_loop(size).step(event),
            *final(self) == *old(self),
    {
        match event {
            TransferEvent::Start => {
                if size == 0 {
                    return VchanStep::Done(Ok(()));
                }
                VchanStep::Call(VchanCall::Recv { size })
            },
            TransferEvent::Moved(reply) => {
                if reply.rc == usize_to_c_int(size) {
                    return VchanStep::Done(Ok(()));
                }
                if reply.rc < 0 {
                    return VchanStep::Done(Err(last_error("libxenvchan_recv", reply.errno)));
                }
                VchanStep::Call(VchanCall::IsOpen)
            },
            TransferEvent::Opened(reply) => match checked("libxenvchan_is_open", reply) {
                Err(error) => VchanStep::Done(Err(error)),
                Ok(XENVCHAN_OPEN_CLOSED) => VchanStep::Done(Err(Error::Closed)),
                Ok(_) => VchanStep::Call(VchanCall::Wait),
            },
            TransferEvent::Waited(reply) => match checked("libxenvchan_wait", reply) {
                Err(error) => VchanStep::Done(Err(error)),
                Ok(_) => VchanStep::Call(VchanCall::Recv { size }),
            },
        }
    }

    /// Sends a whole buffer of `size` bytes.
    pub fn send_exact(&mut self, size: usize, event: TransferEvent) -> (step: VchanStep<()>)
        ensures
            step == send_loop(size).step(event),
            *final(self) == *old(self),
    {
        match event {
            TransferEvent::Start => {
                if size == 0 {
                    return VchanStep::Done(Ok(()));
                }
                VchanStep::Call(VchanCall::Send { size })
            },
            TransferEvent::Moved(reply) => {
                if reply.rc == usize_to_c_int(size) {
                    return VchanStep::Done(Ok(()));
                }
                if reply.rc < 0 {
                    return VchanStep::Done(Err(last_error("libxenvchan_send", reply.errno)));
                }
                VchanStep::Call(VchanCall::IsOpen)
            },
            TransferEvent::Opened(reply) => match checked("libxenvchan_is_open", reply) {
                Err(error) => VchanStep::Done(Err(error)),
                Ok(XENVCHAN_OPEN_CLOSED) => VchanStep::Done(Err(Error::Closed)),
                Ok(_) => VchanStep::Call(VchanCall::Wait),
            },
            TransferEvent::Waited(reply) => match checked("libxenvchan_wait", reply) {
                Err(error) => VchanStep::Done(Err(error)),
                Ok(_) => VchanStep::Call(VchanCall::Send { size }),
            },
        }
    }

    /// One transfer call that does not block, for a buffer of `size` bytes.
    pub(crate) fn move_once(
        &mut self,
        size: usize,
        call: VchanCall,
        op: &'static str,
        event: CallEvent,
    ) -> (step: VchanStep<usize>)
        ensures
            step == transfer_once(size, call, op, event),
            *final(self) == *old(self),
    {
        if size == 0 {
            return VchanStep::Done(Ok(0));
        }
        match event {
            CallEvent::Start => VchanStep::Call(call),
            CallEvent::Returned(reply) => VchanStep::Done(counted(op, reply)),
        }
    }
}

} // verus!
