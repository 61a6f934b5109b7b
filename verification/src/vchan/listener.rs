//! The server's end before the client has come.

use super::calls::{connect_step, ConnectEvent, VchanCall, VchanStep};
use super::config::VchanConfig;
use super::error::Error;
use super::raw::{server_answers, InitEvent, InitStep, RawVchan};
use super::stream::VchanStream;
use vstd::prelude::*;

verus! {

/// A server's channel that waits for its client.
#[derive(Debug)]
pub struct VchanListener<H> {
    raw: RawVchan<H>,
}

/// What a listener does next to get its stream. It is handed back with each
/// call, and given up together with its handle when it fails.
#[derive(Debug)]
pub enum AcceptStep<H> {
    /// Make the call and hand its reply in.
    Call { listener: VchanListener<H>, call: VchanCall },
    Done(Result<VchanStream<H>, Error>),
}

impl<H> VchanListener<H> {
    /// The handle.
    pub closed spec fn handle(&self) -> H {
        self.raw.handle()
    }

    /// The making of a listener, with the bare handle for its result.
    pub open spec fn handles(step: InitStep<VchanListener<H>>) -> InitStep<H> {
        match step {
            InitStep::Init(call) => InitStep::Init(call),
            InitStep::Done(Ok(listener)) => InitStep::Done(Ok(listener.handle())),
            InitStep::Done(Err(error)) => InitStep::Done(Err(error)),
        }
    }

    /// Announces the channel of `cfg` as its server.
    pub fn bind(cfg: &VchanConfig, event: InitEvent<H>) -> (step: InitStep<Self>)
        ensures
            server_answers(*cfg, event, Self::handles(step)),
    {
        match RawVchan::server(cfg, event) {
            InitStep::Init(call) => InitStep::Init(call),
            InitStep::Done(Ok(raw)) => InitStep::Done(Ok(VchanListener { raw })),
            InitStep::Done(Err(error)) => InitStep::Done(Err(error)),
        }
    }

    /// The handle, to make a call on.
    pub fn as_ptr(&self) -> (ptr: &H)
        ensures
            *ptr == self.handle(),
    {
        self.raw.as_ptr()
    }

    /// Waits for the client. The stream takes the listener's handle over.
    pub fn accept(self, event: ConnectEvent) -> (step: AcceptStep<H>)
        ensures
            match connect_step(event) {
                VchanStep::Call(call) => step == (AcceptStep::Call { listener: self, call }),
                VchanStep::Done(Ok(_)) => step matches AcceptStep::Done(Ok(stream))
                    && stream.handle() == self.handle(),
                VchanStep::Done(Err(error)) => step == AcceptStep::<H>::Done(Err(error)),
            },
    {
        match self.raw.wait_connected(event) {
            VchanStep::Call(call) => AcceptStep::Call { listener: self, call },
            VchanStep::Done(Ok(_)) => AcceptStep::Done(Ok(VchanStream::from_raw(self.raw))),
            VchanStep::Done(Err(error)) => AcceptStep::Done(Err(error)),
        }
    }
}

} // verus!
