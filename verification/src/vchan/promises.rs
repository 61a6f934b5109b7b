//! What the operations of a channel promise to whoever calls them, told by
//! the arguments that go in and the step that comes back.

use super::calls::{CallEvent, ConnectEvent, Reply, TransferEvent, VchanCall, VchanStep};
use super::config::{c_path, VchanConfig};
use super::error::{last_error, ApiSource, Error};
use super::listener::{AcceptStep, VchanListener};
use super::raw::{InitCall, InitEvent, InitStep, RawVchan};
use super::stream::VchanStream;
use vstd::prelude::*;
use vstd::utf8::encode_utf8;

verus! {

/// `error` is that of the call `op`: it bears its name, and the code that was
/// left behind unless that is zero.
pub open spec fn named(error: Error, op: &'static str, errno: Option<i32>) -> bool {
    match error {
        Error::Api { op: name, source: ApiSource::Os(code) } => name == op && errno == Some(code)
            && code != 0,
        Error::Api { op: name, source: ApiSource::Other(text) } => name == op && text == op && (
        errno == None::<i32> || errno == Some(0i32)),
        _ => false,
    }
}

/// The error of a failed call bears the call's name and its code.
pub proof fn law_last_error_names_the_call(op: &'static str, errno: Option<i32>, error: Error)
    requires
        call_ensures(last_error, (op, errno), error),
    ensures
        named(error, op, errno),
{
}

/// A path becomes its UTF-8 bytes and a closing NUL, unless one of the bytes
/// is NUL: then the first of those is reported, with all the bytes.
pub proof fn law_c_path_closes_with_nul(path: &str, made: Result<Vec<u8>, Error>)
    requires
        call_ensures(c_path, (path,), made),
    ensures
        made is Ok <==> !encode_utf8(path@).contains(0),
        made matches Ok(bytes) ==> bytes@ == encode_utf8(path@).push(0),
        made matches Err(error) ==> {
            &&& error matches Error::InvalidPath(nul)
            &&& nul.bytes@ == encode_utf8(path@)
            &&& 0 <= nul.position < nul.bytes@.len()
            &&& nul.bytes@[nul.position as int] == 0
            &&& forall|i: int| 0 <= i < nul.position ==> nul.bytes@[i] != 0
        },
{
}

/// A read calls `libxenvchan_read` with the whole buffer, again after each wait,
/// and yields as many bytes as a call read, or none once the peer is closed.
pub proof fn law_read_promises<H>(
    stream: &mut VchanStream<H>,
    size: usize,
    event: TransferEvent,
    step: VchanStep<usize>,
)
    requires
        call_ensures(VchanStream::<H>::read, (stream, size, event), step),
    ensures
        match event {
            TransferEvent::Start => {
                &&& size > 0 ==> step == VchanStep::<usize>::Call(VchanCall::Read { size })
                &&& size == 0 ==> step == VchanStep::<usize>::Done(Ok(0))
            },
            TransferEvent::Moved(reply) => {
                &&& reply.rc > 0 ==> (step matches VchanStep::Done(Ok(count)) && count == reply.rc)
                &&& reply.rc == 0 ==> step == VchanStep::<usize>::Call(VchanCall::IsOpen)
                &&& reply.rc < 0 ==> (step matches VchanStep::Done(Err(error)) && named(
                    error,
                    "libxenvchan_read",
                    reply.errno,
                ))
            },
            TransferEvent::Opened(reply) => {
                &&& reply.rc == 0 ==> step == VchanStep::<usize>::Done(Ok(0))
                &&& reply.rc > 0 ==> step == VchanStep::<usize>::Call(VchanCall::Wait)
                &&& reply.rc < 0 ==> (step matches VchanStep::Done(Err(error)) && named(
                    error,
                    "libxenvchan_is_open",
                    reply.errno,
                ))
            },
            TransferEvent::Waited(reply) => {
                &&& reply.rc >= 0 ==> step == VchanStep::<usize>::Call(VchanCall::Read { size })
                &&& reply.rc < 0 ==> (step matches VchanStep::Done(Err(error)) && named(
                    error,
                    "libxenvchan_wait",
                    reply.errno,
                ))
            },
        },
{
}

/// The same of a bare handle's `read_some`.
pub proof fn law_raw_read_some_promises<H>(
    raw: &mut RawVchan<H>,
    size: usize,
    event: TransferEvent,
    step: VchanStep<usize>,
)
    requires
        call_ensures(RawVchan::<H>::read_some, (raw, size, event), step),
    ensures
        match event {
            TransferEvent::Start => {
                &&& size > 0 ==> step == VchanStep::<usize>::Call(VchanCall::Read { size })
                &&& size == 0 ==> step == VchanStep::<usize>::Done(Ok(0))
            },
            TransferEvent::Moved(reply) => {
                &&& reply.rc > 0 ==> (step matches VchanStep::Done(Ok(count)) && count == reply.rc)
                &&& reply.rc == 0 ==> step == VchanStep::<usize>::Call(VchanCall::IsOpen)
                &&& reply.rc < 0 ==> (step matches VchanStep::Done(Err(error)) && named(
                    error,
                    "libxenvchan_read",
                    reply.errno,
                ))
            },
            TransferEvent::Opened(reply) => {
                &&& reply.rc == 0 ==> step == VchanStep::<usize>::Done(Ok(0))
                &&& reply.rc > 0 ==> step == VchanStep::<usize>::Call(VchanCall::Wait)
                &&& reply.rc < 0 ==> (step matches VchanStep::Done(Err(error)) && named(
                    error,
                    "libxenvchan_is_open",
                    reply.errno,
                ))
            },
            TransferEvent::Waited(reply) => {
                &&& reply.rc >= 0 ==> step == VchanStep::<usize>::Call(VchanCall::Read { size })
                &&& reply.rc < 0 ==> (step matches VchanStep::Done(Err(error)) && named(
                    error,
                    "libxenvchan_wait",
                    reply.errno,
                ))
            },
        },
{
}

/// A write calls `libxenvchan_write` with the whole buffer, again after each
/// wait, and yields as many bytes as a call took. It fails once the peer is
/// closed.
pub proof fn law_write_promises<H>(
    stream: &mut VchanStream<H>,
    size: usize,
    event: TransferEvent,
    step: VchanStep<usize>,
)
    requires
        call_ensures(VchanStream::<H>::write, (stream, size, event), step),
    ensures
        match event {
            TransferEvent::Start => {
                &&& size > 0 ==> step == VchanStep::<usize>::Call(VchanCall::Write { size })
                &&& size == 0 ==> step == VchanStep::<usize>::Done(Ok(0))
            },
            TransferEvent::Moved(reply) => {
                &&& reply.rc > 0 ==> (step matches VchanStep::Done(Ok(count)) && count == reply.rc)
                &&& reply.rc == 0 ==> step == VchanStep::<usize>::Call(VchanCall::IsOpen)
                &&& reply.rc < 0 ==> (step matches VchanStep::Done(Err(error)) && named(
                    error,
                    "libxenvchan_write",
                    reply.errno,
                ))
            },
            TransferEvent::Opened(reply) => {
                &&& reply.rc == 0 ==> step == VchanStep::<usize>::Done(Err(Error::Closed))
                &&& reply.rc > 0 ==> step == VchanStep::<usize>::Call(VchanCall::Wait)
                &&& reply.rc < 0 ==> (step matches VchanStep::Done(Err(error)) && named(
                    error,
                    "libxenvchan_is_open",
                    reply.errno,
                ))
            },
            TransferEvent::Waited(reply) => {
                &&& reply.rc >= 0 ==> step == VchanStep::<usize>::Call(VchanCall::Write { size })
                &&& reply.rc < 0 ==> (step matches VchanStep::Done(Err(error)) && named(
                    error,
                    "libxenvchan_wait",
                    reply.errno,
                ))
            },
        },
{
}

/// The same of a bare handle's `write_some`.
pub proof fn law_raw_write_some_promises<H>(
    raw: &mut RawVchan<H>,
    size: usize,
    event: TransferEvent,
    step: VchanStep<usize>,
)
    requires
        call_ensures(RawVchan::<H>::write_some, (raw, size, event), step),
    ensures
        match event {
            TransferEvent::Start => {
                &&& size > 0 ==> step == VchanStep::<usize>::Call(VchanCall::Write { size })
                &&& size == 0 ==> step == VchanStep::<usize>::Done(Ok(0))
            },
            TransferEvent::Moved(reply) => {
                &&& reply.rc > 0 ==> (step matches VchanStep::Done(Ok(count)) && count == reply.rc)
                &&& reply.rc == 0 ==> step == VchanStep::<usize>::Call(VchanCall::IsOpen)
                &&& reply.rc < 0 ==> (step matches VchanStep::Done(Err(error)) && named(
                    error,
                    "libxenvchan_write",
                    reply.errno,
                ))
            },
            TransferEvent::Opened(reply) => {
                &&& reply.rc == 0 ==> step == VchanStep::<usize>::Done(Err(Error::Closed))
                &&& reply.rc > 0 ==> step == VchanStep::<usize>::Call(VchanCall::Wait)
                &&& reply.rc < 0 ==> (step matches VchanStep::Done(Err(error)) && named(
                    error,
                    "libxenvchan_is_open",
                    reply.errno,
                ))
            },
            TransferEvent::Waited(reply) => {
                &&& reply.rc >= 0 ==> step == VchanStep::<usize>::Call(VchanCall::Write { size })
                &&& reply.rc < 0 ==> (step matches VchanStep::Done(Err(error)) && named(
                    error,
                    "libxenvchan_wait",
                    reply.errno,
                ))
            },
        },
{
}

/// An exact receive calls `libxenvchan_recv` with the whole buffer, again after
/// each wait, until the return code is the size, in 32 bits. It fails once the
/// peer is closed.
pub proof fn law_recv_exact_promises<H>(
    stream: &mut VchanStream<H>,
    size: usize,
    event: TransferEvent,
    step: VchanStep<()>,
)
    requires
        call_ensures(VchanStream::<H>::recv_exact, (stream, size, event), step),
    ensures
        match event {
            TransferEvent::Start => {
                &&& size > 0 ==> step == VchanStep::<()>::Call(VchanCall::Recv { size })
                &&& size == 0 ==> step == VchanStep::<()>::Done(Ok(()))
            },
            TransferEvent::Moved(reply) => {
                let all = (reply.rc - size) % 0x1_0000_0000 == 0;
                &&& all ==> step == VchanStep::<()>::Done(Ok(()))
                &&& !all && reply.rc >= 0 ==> step == VchanStep::<()>::Call(VchanCall::IsOpen)
                &&& !all && reply.rc < 0 ==> (step matches VchanStep::Done(Err(error)) && named(
                    error,
                    "libxenvchan_recv",
                    reply.errno,
                ))
            },
            TransferEvent::Opened(reply) => {
                &&& reply.rc == 0 ==> step == VchanStep::<()>::Done(Err(Error::Closed))
                &&& reply.rc > 0 ==> step == VchanStep::<()>::Call(VchanCall::Wait)
                &&& reply.rc < 0 ==> (step matches VchanStep::Done(Err(error)) && named(
                    error,
                    "libxenvchan_is_open",
                    reply.errno,
                ))
            },
            TransferEvent::Waited(reply) => {
                &&& reply.rc >= 0 ==> step == VchanStep::<()>::Call(VchanCall::Recv { size })
                &&& reply.rc < 0 ==> (step matches VchanStep::Done(Err(error)) && named(
                    error,
                    "libxenvchan_wait",
                    reply.errno,
                ))
            },
        },
{
}

/// The same of a bare handle's `recv_exact`.
pub proof fn law_raw_recv_exact_promises<H>(
    raw: &mut RawVchan<H>,
    size: usize,
    event: TransferEvent,
    step: VchanStep<()>,
)
    requires
        call_ensures(RawVchan::<H>::recv_exact, (raw, size, event), step),
    ensures
        match event {
            TransferEvent::Start => {
                &&& size > 0 ==> step == VchanStep::<()>::Call(VchanCall::Recv { size })
                &&& size == 0 ==> step == VchanStep::<()>::Done(Ok(()))
            },
            TransferEvent::Moved(reply) => {
                let all = (reply.rc - size) % 0x1_0000_0000 == 0;
                &&& all ==> step == VchanStep::<()>::Done(Ok(()))
                &&& !all && reply.rc >= 0 ==> step == VchanStep::<()>::Call(VchanCall::IsOpen)
                &&& !all && reply.rc < 0 ==> (step matches VchanStep::Done(Err(error)) && named(
                    error,
                    "libxenvchan_recv",
                    reply.errno,
                ))
            },
            TransferEvent::Opened(reply) => {
                &&& reply.rc == 0 ==> step == VchanStep::<()>::Done(Err(Error::Closed))
                &&& reply.rc > 0 ==> step == VchanStep::<()>::Call(VchanCall::Wait)
                &&& reply.rc < 0 ==> (step matches VchanStep::Done(Err(error)) && named(
                    error,
                    "libxenvchan_is_open",
                    reply.errno,
                ))
            },
            TransferEvent::Waited(reply) => {
                &&& reply.rc >= 0 ==> step == VchanStep::<()>::Call(VchanCall::Recv { size })
                &&& reply.rc < 0 ==> (step matches VchanStep::Done(Err(error)) && named(
                    error,
                    "libxenvchan_wait",
                    reply.errno,
                ))
            },
        },
{
}

/// An exact send calls `libxenvchan_send` with the whole buffer, again after
/// each wait, until the return code is the size, in 32 bits. It fails once the
/// peer is closed.
pub proof fn law_send_exact_promises<H>(
    stream: &mut VchanStream<H>,
    size: usize,
    event: TransferEvent,
    step: VchanStep<()>,
)
    requires
        call_ensures(VchanStream::<H>::send_exact, (stream, size, event), step),
    ensures
        match event {
            TransferEvent::Start => {
                &&& size > 0 ==> step == VchanStep::<()>::Call(VchanCall::Send { size })
                &&& size == 0 ==> step == VchanStep::<()>::Done(Ok(()))
            },
            TransferEvent::Moved(reply) => {
                let all = (reply.rc - size) % 0x1_0000_0000 == 0;
                &&& all ==> step == VchanStep::<()>::Done(Ok(()))
                &&& !all && reply.rc >= 0 ==> step == VchanStep::<()>::Call(VchanCall::IsOpen)
                &&& !all && reply.rc < 0 ==> (step matches VchanStep::Done(Err(error)) && named(
                    error,
                    "libxenvchan_send",
                    reply.errno,
                ))
            },
            TransferEvent::Opened(reply) => {
                &&& reply.rc == 0 ==> step == VchanStep::<()>::Done(Err(Error::Closed))
                &&& reply.rc > 0 ==> step == VchanStep::<()>::Call(VchanCall::Wait)
                &&& reply.rc < 0 ==> (step matches VchanStep::Done(Err(error)) && named(
                    error,
                    "libxenvchan_is_open",
                    reply.errno,
                ))
            },
            TransferEvent::Waited(reply) => {
                &&& reply.rc >= 0 ==> step == VchanStep::<()>::Call(VchanCall::Send { size })
                &&& reply.rc < 0 ==> (step matches VchanStep::Done(Err(error)) && named(
                    error,
                    "libxenvchan_wait",
                    reply.errno,
                ))
            },
        },
{
}

/// The same of a bare handle's `send_exact`.
pub proof fn law_raw_send_exact_promises<H>(
    raw: &mut RawVchan<H>,
    size: usize,
    event: TransferEvent,
    step: VchanStep<()>,
)
    requires
        call_ensures(RawVchan::<H>::send_exact, (raw, size, event), step),
    ensures
        match event {
            TransferEvent::Start => {
                &&& size > 0 ==> step == VchanStep::<()>::Call(VchanCall::Send { size })
                &&& size == 0 ==> step == VchanStep::<()>::Done(Ok(()))
            },
            TransferEvent::Moved(reply) => {
                let all = (reply.rc - size) % 0x1_0000_0000 == 0;
                &&& all ==> step == VchanStep::<()>::Done(Ok(()))
                &&& !all && reply.rc >= 0 ==> step == VchanStep::<()>::Call(VchanCall::IsOpen)
                &&& !all && reply.rc < 0 ==> (step matches VchanStep::Done(Err(error)) && named(
                    error,
                    "libxenvchan_send",
                    reply.errno,
                ))
            },
            TransferEvent::Opened(reply) => {
                &&& reply.rc == 0 ==> step == VchanStep::<()>::Done(Err(Error::Closed))
                &&& reply.rc > 0 ==> step == VchanStep::<()>::Call(VchanCall::Wait)
                &&& reply.rc < 0 ==> (step matches VchanStep::Done(Err(error)) && named(
                    error,
                    "libxenvchan_is_open",
                    reply.errno,
                ))
            },
            TransferEvent::Waited(reply) => {
                &&& reply.rc >= 0 ==> step == VchanStep::<()>::Call(VchanCall::Send { size })
                &&& reply.rc < 0 ==> (step matches VchanStep::Done(Err(error)) && named(
                    error,
                    "libxenvchan_wait",
                    reply.errno,
                ))
            },
        },
{
}

/// `read_once` makes one call of `libxenvchan_read` with the whole buffer and
/// yields its return code as a count. An empty buffer takes no call.
pub proof fn law_read_once_promises<H>(
    stream: &mut VchanStream<H>,
    size: usize,
    event: CallEvent,
    step: VchanStep<usize>,
)
    requires
        call_ensures(VchanStream::<H>::read_once, (stream, size, event), step),
    ensures
        size == 0 ==> step == VchanStep::<usize>::Done(Ok(0)),
        size > 0 && event is Start ==> step == VchanStep::<usize>::Call(VchanCall::Read { size }),
        size > 0 ==> (event matches CallEvent::Returned(reply) ==> {
            &&& reply.rc >= 0 ==> (step matches VchanStep::Done(Ok(count)) && count == reply.rc)
            &&& reply.rc < 0 ==> (step matches VchanStep::Done(Err(error)) && named(
                error,
                "libxenvchan_read",
                reply.errno,
            ))
        }),
{
}

/// `write_once` makes one call of `libxenvchan_write` with the whole buffer and
/// yields its return code as a count. An empty buffer takes no call.
pub proof fn law_write_once_promises<H>(
    stream: &mut VchanStream<H>,
    size: usize,
    event: CallEvent,
    step: VchanStep<usize>,
)
    requires
        call_ensures(VchanStream::<H>::write_once, (stream, size, event), step),
    ensures
        size == 0 ==> step == VchanStep::<usize>::Done(Ok(0)),
        size > 0 && event is Start ==> step == VchanStep::<usize>::Call(VchanCall::Write { size }),
        size > 0 ==> (event matches CallEvent::Returned(reply) ==> {
            &&& reply.rc >= 0 ==> (step matches VchanStep::Done(Ok(count)) && count == reply.rc)
            &&& reply.rc < 0 ==> (step matches VchanStep::Done(Err(error)) && named(
                error,
                "libxenvchan_write",
                reply.errno,
            ))
        }),
{
}

/// `recv_once` makes one call of `libxenvchan_recv` with the whole buffer and
/// yields its return code as a count. An empty buffer takes no call.
pub proof fn law_recv_once_promises<H>(
    stream: &mut VchanStream<H>,
    size: usize,
    event: CallEvent,
    step: VchanStep<usize>,
)
    requires
        call_ensures(VchanStream::<H>::recv_once, (stream, size, event), step),
    ensures
        size == 0 ==> step == VchanStep::<usize>::Done(Ok(0)),
        size > 0 && event is Start ==> step == VchanStep::<usize>::Call(VchanCall::Recv { size }),
        size > 0 ==> (event matches CallEvent::Returned(reply) ==> {
            &&& reply.rc >= 0 ==> (step matches VchanStep::Done(Ok(count)) && count == reply.rc)
            &&& reply.rc < 0 ==> (step matches VchanStep::Done(Err(error)) && named(
                error,
                "libxenvchan_recv",
                reply.errno,
            ))
        }),
{
}

/// `send_once` makes one call of `libxenvchan_send` with the whole buffer and
/// yields its return code as a count. An empty buffer takes no call.
pub proof fn law_send_once_promises<H>(
    stream: &mut VchanStream<H>,
    size: usize,
    event: CallEvent,
    step: VchanStep<usize>,
)
    requires
        call_ensures(VchanStream::<H>::send_once, (stream, size, event), step),
    ensures
        size == 0 ==> step == VchanStep::<usize>::Done(Ok(0)),
        size > 0 && event is Start ==> step == VchanStep::<usize>::Call(VchanCall::Send { size }),
        size > 0 ==> (event matches CallEvent::Returned(reply) ==> {
            &&& reply.rc >= 0 ==> (step matches VchanStep::Done(Ok(count)) && count == reply.rc)
            &&& reply.rc < 0 ==> (step matches VchanStep::Done(Err(error)) && named(
                error,
                "libxenvchan_send",
                reply.errno,
            ))
        }),
{
}

/// `wait` makes one call of `libxenvchan_wait` and
/// is over when it returns.
pub proof fn law_wait_promises<H>(stream: VchanStream<H>, event: CallEvent, step: VchanStep<()>)
    requires
        call_ensures(VchanStream::<H>::wait, (&stream, event), step),
    ensures
        event is Start ==> step == VchanStep::<()>::Call(VchanCall::Wait),
        event matches CallEvent::Returned(reply) ==> {
            &&& reply.rc >= 0 ==> (step matches VchanStep::Done(
                Ok(_),
            ))
            &&& reply.rc < 0 ==> (step matches VchanStep::Done(Err(error)) && named(
                error,
                "libxenvchan_wait",
                reply.errno,
            ))
        },
{
}

/// The same of a bare handle's `wait`.
pub proof fn law_raw_wait_promises<H>(raw: RawVchan<H>, event: CallEvent, step: VchanStep<()>)
    requires
        call_ensures(RawVchan::<H>::wait, (&raw, event), step),
    ensures
        event is Start ==> step == VchanStep::<()>::Call(VchanCall::Wait),
        event matches CallEvent::Returned(reply) ==> {
            &&& reply.rc >= 0 ==> (step matches VchanStep::Done(
                Ok(_),
            ))
            &&& reply.rc < 0 ==> (step matches VchanStep::Done(Err(error)) && named(
                error,
                "libxenvchan_wait",
                reply.errno,
            ))
        },
{
}

/// `is_open` makes one call of `libxenvchan_is_open` and
/// yields its return code.
pub proof fn law_is_open_promises<H>(stream: VchanStream<H>, event: CallEvent, step: VchanStep<i32>)
    requires
        call_ensures(VchanStream::<H>::is_open, (&stream, event), step),
    ensures
        event is Start ==> step == VchanStep::<i32>::Call(VchanCall::IsOpen),
        event matches CallEvent::Returned(reply) ==> {
            &&& reply.rc >= 0 ==> (step matches VchanStep::Done(Ok(got)) && got == reply.rc)
            &&& reply.rc < 0 ==> (step matches VchanStep::Done(Err(error)) && named(
                error,
                "libxenvchan_is_open",
                reply.errno,
            ))
        },
{
}

/// The same of a bare handle's `open_state`.
pub proof fn law_raw_open_state_promises<H>(raw: RawVchan<H>, event: CallEvent, step: VchanStep<i32>)
    requires
        call_ensures(RawVchan::<H>::open_state, (&raw, event), step),
    ensures
        event is Start ==> step == VchanStep::<i32>::Call(VchanCall::IsOpen),
        event matches CallEvent::Returned(reply) ==> {
            &&& reply.rc >= 0 ==> (step matches VchanStep::Done(Ok(got)) && got == reply.rc)
            &&& reply.rc < 0 ==> (step matches VchanStep::Done(Err(error)) && named(
                error,
                "libxenvchan_is_open",
                reply.errno,
            ))
        },
{
}

/// `fd_for_select` makes one call of `libxenvchan_fd_for_select` and
/// yields its return code.
pub proof fn law_fd_for_select_promises<H>(stream: VchanStream<H>, event: CallEvent, step: VchanStep<i32>)
    requires
        call_ensures(VchanStream::<H>::fd_for_select, (&stream, event), step),
    ensures
        event is Start ==> step == VchanStep::<i32>::Call(VchanCall::FdForSelect),
        event matches CallEvent::Returned(reply) ==> {
            &&& reply.rc >= 0 ==> (step matches VchanStep::Done(Ok(got)) && got == reply.rc)
            &&& reply.rc < 0 ==> (step matches VchanStep::Done(Err(error)) && named(
                error,
                "libxenvchan_fd_for_select",
                reply.errno,
            ))
        },
{
}

/// The same of a bare handle's `fd_for_select`.
pub proof fn law_raw_fd_for_select_promises<H>(raw: RawVchan<H>, event: CallEvent, step: VchanStep<i32>)
    requires
        call_ensures(RawVchan::<H>::fd_for_select, (&raw, event), step),
    ensures
        event is Start ==> step == VchanStep::<i32>::Call(VchanCall::FdForSelect),
        event matches CallEvent::Returned(reply) ==> {
            &&& reply.rc >= 0 ==> (step matches VchanStep::Done(Ok(got)) && got == reply.rc)
            &&& reply.rc < 0 ==> (step matches VchanStep::Done(Err(error)) && named(
                error,
                "libxenvchan_fd_for_select",
                reply.errno,
            ))
        },
{
}

/// `data_ready` makes one call of `libxenvchan_data_ready` and
/// yields its return code.
pub proof fn law_data_ready_promises<H>(stream: VchanStream<H>, event: CallEvent, step: VchanStep<usize>)
    requires
        call_ensures(VchanStream::<H>::data_ready, (&stream, event), step),
    ensures
        event is Start ==> step == VchanStep::<usize>::Call(VchanCall::DataReady),
        event matches CallEvent::Returned(reply) ==> {
            &&& reply.rc >= 0 ==> (step matches VchanStep::Done(Ok(got)) && got == reply.rc)
            &&& reply.rc < 0 ==> (step matches VchanStep::Done(Err(error)) && named(
                error,
                "libxenvchan_data_ready",
                reply.errno,
            ))
        },
{
}

/// The same of a bare handle's `data_ready`.
pub proof fn law_raw_data_ready_promises<H>(raw: RawVchan<H>, event: CallEvent, step: VchanStep<usize>)
    requires
        call_ensures(RawVchan::<H>::data_ready, (&raw, event), step),
    ensures
        event is Start ==> step == VchanStep::<usize>::Call(VchanCall::DataReady),
        event matches CallEvent::Returned(reply) ==> {
            &&& reply.rc >= 0 ==> (step matches VchanStep::Done(Ok(got)) && got == reply.rc)
            &&& reply.rc < 0 ==> (step matches VchanStep::Done(Err(error)) && named(
                error,
                "libxenvchan_data_ready",
                reply.errno,
            ))
        },
{
}

/// `buffer_space` makes one call of `libxenvchan_buffer_space` and
/// yields its return code.
pub proof fn law_buffer_space_promises<H>(stream: VchanStream<H>, event: CallEvent, step: VchanStep<usize>)
    requires
        call_ensures(VchanStream::<H>::buffer_space, (&stream, event), step),
    ensures
        event is Start ==> step == VchanStep::<usize>::Call(VchanCall::BufferSpace),
        event matches CallEvent::Returned(reply) ==> {
            &&& reply.rc >= 0 ==> (step matches VchanStep::Done(Ok(got)) && got == reply.rc)
            &&& reply.rc < 0 ==> (step matches VchanStep::Done(Err(error)) && named(
                error,
                "libxenvchan_buffer_space",
                reply.errno,
            ))
        },
{
}

/// The same of a bare handle's `buffer_space`.
pub proof fn law_raw_buffer_space_promises<H>(raw: RawVchan<H>, event: CallEvent, step: VchanStep<usize>)
    requires
        call_ensures(RawVchan::<H>::buffer_space, (&raw, event), step),
    ensures
        event is Start ==> step == VchanStep::<usize>::Call(VchanCall::BufferSpace),
        event matches CallEvent::Returned(reply) ==> {
            &&& reply.rc >= 0 ==> (step matches VchanStep::Done(Ok(got)) && got == reply.rc)
            &&& reply.rc < 0 ==> (step matches VchanStep::Done(Err(error)) && named(
                error,
                "libxenvchan_buffer_space",
                reply.errno,
            ))
        },
{
}

/// A wait for the peer asks for the state, again after each wait, until it is
/// 1, and fails once it is 0.
pub proof fn law_wait_connected_promises<H>(stream: VchanStream<H>, event: ConnectEvent, step: VchanStep<()>)
    requires
        call_ensures(VchanStream::<H>::wait_connected, (&stream, event), step),
    ensures
        match event {
            ConnectEvent::Start => step == VchanStep::<()>::Call(VchanCall::IsOpen),
            ConnectEvent::Opened(reply) => {
                &&& reply.rc == 1 ==> step == VchanStep::<()>::Done(Ok(()))
                &&& reply.rc == 0 ==> step == VchanStep::<()>::Done(Err(Error::Closed))
                &&& reply.rc > 1 ==> step == VchanStep::<()>::Call(VchanCall::Wait)
                &&& reply.rc < 0 ==> (step matches VchanStep::Done(Err(error)) && named(
                    error,
                    "libxenvchan_is_open",
                    reply.errno,
                ))
            },
            ConnectEvent::Waited(reply) => {
                &&& reply.rc >= 0 ==> step == VchanStep::<()>::Call(VchanCall::IsOpen)
                &&& reply.rc < 0 ==> (step matches VchanStep::Done(Err(error)) && named(
                    error,
                    "libxenvchan_wait",
                    reply.errno,
                ))
            },
        },
{
}

/// The same of a bare handle's `wait_connected`.
pub proof fn law_raw_wait_connected_promises<H>(raw: RawVchan<H>, event: ConnectEvent, step: VchanStep<()>)
    requires
        call_ensures(RawVchan::<H>::wait_connected, (&raw, event), step),
    ensures
        match event {
            ConnectEvent::Start => step == VchanStep::<()>::Call(VchanCall::IsOpen),
            ConnectEvent::Opened(reply) => {
                &&& reply.rc == 1 ==> step == VchanStep::<()>::Done(Ok(()))
                &&& reply.rc == 0 ==> step == VchanStep::<()>::Done(Err(Error::Closed))
                &&& reply.rc > 1 ==> step == VchanStep::<()>::Call(VchanCall::Wait)
                &&& reply.rc < 0 ==> (step matches VchanStep::Done(Err(error)) && named(
                    error,
                    "libxenvchan_is_open",
                    reply.errno,
                ))
            },
            ConnectEvent::Waited(reply) => {
                &&& reply.rc >= 0 ==> step == VchanStep::<()>::Call(VchanCall::IsOpen)
                &&& reply.rc < 0 ==> (step matches VchanStep::Done(Err(error)) && named(
                    error,
                    "libxenvchan_wait",
                    reply.errno,
                ))
            },
        },
{
}

/// A listener waits for its client as a stream waits for its peer. It is
/// handed back unchanged with each call, and its stream takes its handle over.
pub proof fn law_accept_promises<H>(
    listener: VchanListener<H>,
    event: ConnectEvent,
    step: AcceptStep<H>,
)
    requires
        call_ensures(VchanListener::<H>::accept, (listener, event), step),
    ensures
        step matches AcceptStep::Call { listener: same, .. } ==> same == listener,
        step matches AcceptStep::Done(Ok(stream)) ==> stream.handle() == listener.handle(),
        match event {
            ConnectEvent::Start => step == (AcceptStep::Call { listener, call: VchanCall::IsOpen }),
            ConnectEvent::Opened(reply) => {
                &&& reply.rc == 1 ==> (step matches AcceptStep::Done(Ok(_)))
                &&& reply.rc == 0 ==> step == AcceptStep::<H>::Done(Err(Error::Closed))
                &&& reply.rc > 1 ==> step == (AcceptStep::Call { listener, call: VchanCall::Wait })
                &&& reply.rc < 0 ==> (step matches AcceptStep::Done(Err(error)) && named(
                    error,
                    "libxenvchan_is_open",
                    reply.errno,
                ))
            },
            ConnectEvent::Waited(reply) => {
                &&& reply.rc >= 0 ==> step == (AcceptStep::Call {
                    listener,
                    call: VchanCall::IsOpen,
                })
                &&& reply.rc < 0 ==> (step matches AcceptStep::Done(Err(error)) && named(
                    error,
                    "libxenvchan_wait",
                    reply.errno,
                ))
            },
        },
{
}

/// The reply to a call goes into a transfer or a wait unchanged, under the
/// name of the call.
pub proof fn law_events_carry_the_reply(
    call: VchanCall,
    reply: Reply,
    moving: TransferEvent,
    connecting: ConnectEvent,
)
    requires
        call_ensures(VchanCall::transfer_event, (call, reply), moving),
        call_ensures(VchanCall::connect_event, (call, reply), connecting),
    ensures
        call is IsOpen ==> moving == TransferEvent::Opened(reply),
        call is Wait ==> moving == TransferEvent::Waited(reply),
        call !is IsOpen && call !is Wait ==> moving == TransferEvent::Moved(reply),
        call is Wait ==> connecting == ConnectEvent::Waited(reply),
        call !is Wait ==> connecting == ConnectEvent::Opened(reply),
{
}

/// `bind` makes one call of `libxenvchan_server_init`, with the configured
/// domain in 32 bits, the path as a C string, and both sizes. The pointer that
/// comes back is the listener's handle.
pub proof fn law_bind_promises<H>(cfg: VchanConfig, event: InitEvent<H>, step: InitStep<VchanListener<H>>)
    requires
        call_ensures(VchanListener::<H>::bind, (&cfg, event), step),
    ensures
        event is Start && !encode_utf8(cfg.xs_path@).contains(0) ==> {
            &&& step matches InitStep::Init(InitCall::Server { domid, xs_path, read_min, write_min })
            &&& (domid - cfg.domid) % 0x1_0000_0000 == 0
            &&& xs_path@ == encode_utf8(cfg.xs_path@).push(0)
            &&& read_min == cfg.read_min
            &&& write_min == cfg.write_min
        },
        event is Start && encode_utf8(cfg.xs_path@).contains(0) ==> {
            &&& step matches InitStep::Done(Err(Error::InvalidPath(nul)))
            &&& nul.bytes@ == encode_utf8(cfg.xs_path@)
            &&& 0 <= nul.position < nul.bytes@.len()
            &&& nul.bytes@[nul.position as int] == 0
            &&& forall|i: int| 0 <= i < nul.position ==> nul.bytes@[i] != 0
        },
        event matches InitEvent::Returned { ptr, errno } ==> match ptr {
            Some(handle) => step matches InitStep::Done(Ok(made)) && made.handle() == handle,
            None => step matches InitStep::Done(Err(error)) && named(error, "libxenvchan_server_init", errno),
        },
{
}

/// The same as `bind`, of a bare handle.
pub proof fn law_raw_server_promises<H>(cfg: VchanConfig, event: InitEvent<H>, step: InitStep<RawVchan<H>>)
    requires
        call_ensures(RawVchan::<H>::server, (&cfg, event), step),
    ensures
        event is Start && !encode_utf8(cfg.xs_path@).contains(0) ==> {
            &&& step matches InitStep::Init(InitCall::Server { domid, xs_path, read_min, write_min })
            &&& (domid - cfg.domid) % 0x1_0000_0000 == 0
            &&& xs_path@ == encode_utf8(cfg.xs_path@).push(0)
            &&& read_min == cfg.read_min
            &&& write_min == cfg.write_min
        },
        event is Start && encode_utf8(cfg.xs_path@).contains(0) ==> {
            &&& step matches InitStep::Done(Err(Error::InvalidPath(nul)))
            &&& nul.bytes@ == encode_utf8(cfg.xs_path@)
            &&& 0 <= nul.position < nul.bytes@.len()
            &&& nul.bytes@[nul.position as int] == 0
            &&& forall|i: int| 0 <= i < nul.position ==> nul.bytes@[i] != 0
        },
        event matches InitEvent::Returned { ptr, errno } ==> match ptr {
            Some(handle) => step matches InitStep::Done(Ok(made)) && made.handle() == handle,
            None => step matches InitStep::Done(Err(error)) && named(error, "libxenvchan_server_init", errno),
        },
{
}

/// `connect` makes one call of `libxenvchan_client_init`, with the configured
/// domain in 32 bits and the path as a C string. The pointer that comes back
/// is the stream's handle.
pub proof fn law_connect_promises<H>(cfg: VchanConfig, event: InitEvent<H>, step: InitStep<VchanStream<H>>)
    requires
        call_ensures(VchanStream::<H>::connect, (&cfg, event), step),
    ensures
        event is Start && !encode_utf8(cfg.xs_path@).contains(0) ==> {
            &&& step matches InitStep::Init(InitCall::Client { domid, xs_path })
            &&& (domid - cfg.domid) % 0x1_0000_0000 == 0
            &&& xs_path@ == encode_utf8(cfg.xs_path@).push(0)
        },
        event is Start && encode_utf8(cfg.xs_path@).contains(0) ==> {
            &&& step matches InitStep::Done(Err(Error::InvalidPath(nul)))
            &&& nul.bytes@ == encode_utf8(cfg.xs_path@)
            &&& 0 <= nul.position < nul.bytes@.len()
            &&& nul.bytes@[nul.position as int] == 0
            &&& forall|i: int| 0 <= i < nul.position ==> nul.bytes@[i] != 0
        },
        event matches InitEvent::Returned { ptr, errno } ==> match ptr {
            Some(handle) => step matches InitStep::Done(Ok(made)) && made.handle() == handle,
            None => step matches InitStep::Done(Err(error)) && named(error, "libxenvchan_client_init", errno),
        },
{
}

/// The same as `connect`, of a bare handle.
pub proof fn law_raw_client_promises<H>(cfg: VchanConfig, event: InitEvent<H>, step: InitStep<RawVchan<H>>)
    requires
        call_ensures(RawVchan::<H>::client, (&cfg, event), step),
    ensures
        event is Start && !encode_utf8(cfg.xs_path@).contains(0) ==> {
            &&& step matches InitStep::Init(InitCall::Client { domid, xs_path })
            &&& (domid - cfg.domid) % 0x1_0000_0000 == 0
            &&& xs_path@ == encode_utf8(cfg.xs_path@).push(0)
        },
        event is Start && encode_utf8(cfg.xs_path@).contains(0) ==> {
            &&& step matches InitStep::Done(Err(Error::InvalidPath(nul)))
            &&& nul.bytes@ == encode_utf8(cfg.xs_path@)
            &&& 0 <= nul.position < nul.bytes@.len()
            &&& nul.bytes@[nul.position as int] == 0
            &&& forall|i: int| 0 <= i < nul.position ==> nul.bytes@[i] != 0
        },
        event matches InitEvent::Returned { ptr, errno } ==> match ptr {
            Some(handle) => step matches InitStep::Done(Ok(made)) && made.handle() == handle,
            None => step matches InitStep::Done(Err(error)) && named(error, "libxenvchan_client_init", errno),
        },
{
}

/// A pointer becomes a handle, and a null pointer the error of the call.
pub proof fn law_raw_from_init_ptr_promises<H>(
    op: &'static str,
    ptr: Option<H>,
    errno: Option<i32>,
    raw: Result<RawVchan<H>, Error>,
)
    requires
        call_ensures(RawVchan::<H>::from_init_ptr, (op, ptr, errno), raw),
    ensures
        ptr matches Some(handle) ==> (raw matches Ok(made) && made.handle() == handle),
        ptr is None ==> (raw matches Err(error) && named(error, op, errno)),
{
    let step: InitStep<RawVchan<H>> = InitStep::Done(raw);
    assert(RawVchan::<H>::handles(step) is Done);
}

/// A symmetric channel has one smallest size for both of its rings.
pub proof fn law_symmetric_promises<P: Into<String>>(
    domid: u32,
    xs_path: P,
    ring_min: usize,
    config: VchanConfig,
)
    requires
        call_ensures(VchanConfig::symmetric::<P>, (domid, xs_path, ring_min), config),
    ensures
        config.domid == domid,
        call_ensures(<P as Into<String>>::into, (xs_path,), config.xs_path),
        config.read_min == ring_min,
        config.write_min == ring_min,
{
}

/// A copy of a configuration is the same channel.
pub proof fn law_config_clone_promises(config: VchanConfig, copy: VchanConfig)
    requires
        call_ensures(VchanConfig::clone, (&config,), copy),
    ensures
        copy.domid == config.domid,
        copy.xs_path@ == config.xs_path@,
        copy.read_min == config.read_min,
        copy.write_min == config.write_min,
{
}

/// The handle that a channel hands out is its own.
pub proof fn law_as_ptr_promises<H>(
    raw: RawVchan<H>,
    listener: VchanListener<H>,
    stream: VchanStream<H>,
    of_raw: &H,
    of_listener: &H,
    of_stream: &H,
)
    requires
        call_ensures(RawVchan::<H>::as_ptr, (&raw,), of_raw),
        call_ensures(VchanListener::<H>::as_ptr, (&listener,), of_listener),
        call_ensures(VchanStream::<H>::as_ptr, (&stream,), of_stream),
    ensures
        *of_raw == raw.handle(),
        *of_listener == listener.handle(),
        *of_stream == stream.handle(),
{
}

} // verus!
