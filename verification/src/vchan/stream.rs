//! A connected end of a channel.

use super::calls::{
    connect_step, read_loop, recv_loop, send_loop, single_call, transfer_once, write_loop,
    CallEvent, ConnectEvent, TransferEvent, VchanCall, VchanStep,
};
use super::config::VchanConfig;
use super::raw::{client_answers, InitEvent, InitStep, RawVchan};
use vstd::prelude::*;

verus! {

/// A stream of bytes to and from the peer. Every operation is a step
/// function: it starts with a `Start` event, and each call that it asks for is
/// answered with the event that carries the call's reply.
#[derive(Debug)]
pub struct VchanStream<H> {
    raw: RawVchan<H>,
}

impl<H> VchanStream<H> {
    /// The handle.
    pub closed spec fn handle(&self) -> H {
        self.raw.handle()
    }

    /// The making of a stream, with the bare handle for its result.
    pub open spec fn handles(step: InitStep<VchanStream<H>>) -> InitStep<H> {
        match step {
            InitStep::Init(call) => InitStep::Init(call),
            InitStep::Done(Ok(stream)) => InitStep::Done(Ok(stream.handle())),
            InitStep::Done(Err(error)) => InitStep::Done(Err(error)),
        }
    }

    pub(crate) fn from_raw(raw: RawVchan<H>) -> (stream: Self)
        ensures
            stream.handle() == raw.handle(),
    {
        VchanStream { raw }
    }

    /// Joins the channel of `cfg` as its client.
    pub fn connect(cfg: &VchanConfig, event: InitEvent<H>) -> (step: InitStep<Self>)
        ensures
            client_answers(*cfg, event, Self::handles(step)),
    {
        match RawVchan::client(cfg, event) {
            InitStep::Init(call) => InitStep::Init(call),
            InitStep::Done(Ok(raw)) => InitStep::Done(Ok(VchanStream { raw })),
            InitStep::Done(Err(error)) => InitStep::Done(Err(error)),
        }
    }

    /// The handle, to make a call on.
    pub fn as_ptr(&self) -> (ptr: &H)
        ensures
            *ptr == self.handle(),
    {
        self.raw.as_ptr()
    }

    /// Waits for the peer to move data or close.
    pub fn wait(&self, event: CallEvent) -> (step: VchanStep<()>)
        ensures
            step == single_call(VchanCall::Wait, "libxenvchan_wait", |rc: i32| (), event),
    {
        self.raw.wait(event)
    }

    /// Waits until the channel is connected.
    pub fn wait_connected(&self, event: ConnectEvent) -> (step: VchanStep<()>)
        ensures
            step == connect_step(event),
    {
        self.raw.wait_connected(event)
    }

    /// The file descriptor to poll.
    pub fn fd_for_select(&self, event: CallEvent) -> (step: VchanStep<i32>)
        ensures
            step == single_call(
                VchanCall::FdForSelect,
                "libxenvchan_fd_for_select",
                |rc: i32| rc,
                event,
            ),
    {
        self.raw.fd_for_select(event)
    }

    /// The state that `libxenvchan_is_open` reports.
    pub fn is_open(&self, event: CallEvent) -> (step: VchanStep<i32>)
        ensures
            step == single_call(VchanCall::IsOpen, "libxenvchan_is_open", |rc: i32| rc, event),
    {
        self.raw.open_state(event)
    }

    /// How many bytes can be read without blocking.
    pub fn data_ready(&self, event: CallEvent) -> (step: VchanStep<usize>)
        ensures
            step == single_call(
                VchanCall::DataReady,
                "libxenvchan_data_ready",
                |rc: i32| rc as usize,
                event,
            ),
    {
        self.raw.data_ready(event)
    }

    /// How many bytes can be written without blocking.
    pub fn buffer_space(&self, event: CallEvent) -> (step: VchanStep<usize>)
        ensures
            step == single_call(
                VchanCall::BufferSpace,
                "libxenvchan_buffer_space",
                |rc: i32| rc as usize,
                event,
            ),
    {
        self.raw.buffer_space(event)
    }

    /// Reads what is there into a buffer of `size` bytes, without waiting.
    pub fn read_once(&mut self, size: usize, event: CallEvent) -> (step: VchanStep<usize>)
        ensures
            step == transfer_once(size, VchanCall::Read { size }, "libxenvchan_read", event),
            *final(self) == *old(self),
    {
        self.raw.move_once(size, VchanCall::Read { size }, "libxenvchan_read", event)
    }

    /// Reads into a buffer of `size` bytes until at least one has come. No
    /// byte means that the peer is closed.
    pub fn read(&mut self, size: usize, event: TransferEvent) -> (step: VchanStep<usize>)
        ensures
            step == read_loop(size).step(event),
            *final(self) == *old(self),
    {
        self.raw.read_some(size, event)
    }

    /// Writes what there is room for from a buffer of `size` bytes, without
    /// waiting.
    pub fn write_once(&mut self, size: usize, event: CallEvent) -> (step: VchanStep<usize>)
        ensures
            step == transfer_once(size, VchanCall::Write { size }, "libxenvchan_write", event),
            *final(self) == *old(self),
    {
        self.raw.move_once(size, VchanCall::Write { size }, "libxenvchan_write", event)
    }

    /// Writes from a buffer of `size` bytes until at least one is taken.
    pub fn write(&mut self, size: usize, event: TransferEvent) -> (step: VchanStep<usize>)
        ensures
            step == write_loop(size).step(event),
            *final(self) == *old(self),
    {
        self.raw.write_some(size, event)
    }

    /// Receives a packet into a buffer of `size` bytes, without waiting.
    pub fn recv_once(&mut self, size: usize, event: CallEvent) -> (step: VchanStep<usize>)
        ensures
            step == transfer_once(size, VchanCall::Recv { size }, "libxenvchan_recv", event),
            *final(self) == *old(self),
    {
        self.raw.move_once(size, VchanCall::Recv { size }, "libxenvchan_recv", event)
    }

    /// Receives a whole buffer of `size` bytes.
    pub fn recv_exact(&mut self, size: usize, event: TransferEvent) -> (step: VchanStep<()>)
        ensures
            step == recv_loop(size).step(event),
            *final(self) == *old(self),
    {
        self.raw.recv_exact(size, event)
    }

    /// Sends a packet from a buffer of `size` bytes, without waiting.
    pub fn send_once(&mut self, size: usize, event: CallEvent) -> (step: VchanStep<usize>)
        ensures
            step == transfer_once(size, VchanCall::Send { size }, "libxenvchan_send", event),
            *final(self) == *old(self),
    {
        self.raw.move_once(size, VchanCall::Send { size }, "libxenvchan_send", event)
    }

    /// Sends a whole buffer of `size` bytes.
    pub fn send_exact(&mut self, size: usize, event: TransferEvent) -> (step: VchanStep<()>)
        ensures
            step == send_loop(size).step(event),
            *final(self) == *old(self),
    {
        self.raw.send_exact(size, event)
    }
}

} // verus!
