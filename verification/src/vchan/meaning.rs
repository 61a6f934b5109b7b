//! What each stream operation does, told in libxenvchan's own terms: the call
//! that is made, the return code, and the number that comes back.

use super::calls::{
    connect_answer, connect_step, read_loop, recv_loop, send_loop, single_call, transfer_answer,
    transfer_once, write_loop, CallEvent, ConnectEvent, Reply, TransferEvent, TransferLoop,
    VchanCall, VchanStep, XENVCHAN_OPEN_CLOSED, XENVCHAN_OPEN_CONNECTED,
    XENVCHAN_OPEN_WAITING_FOR_CLIENT,
};
use super::config::{first_nul, path_bytes, VchanConfig};
use super::error::{api_error, ApiSource, Error};
use super::listener::VchanListener;
use super::raw::{client_answers, server_answers, InitCall, InitEvent, InitStep, RawVchan};
use super::stream::VchanStream;
use vstd::prelude::*;
use vstd::utf8::encode_utf8;

verus! {

/// A failed call is reported under its own name, with the error code that it
/// left behind; a code of zero is no code.
pub proof fn law_errors_name_call_and_code(op: &'static str, code: i32)
    ensures
        code != 0 ==> api_error(op, Some(code)) == (Error::Api { op, source: ApiSource::Os(code) }),
        api_error(op, Some(0)) == (Error::Api { op, source: ApiSource::Other(op) }),
        api_error(op, None) == (Error::Api { op, source: ApiSource::Other(op) }),
{
}

/// A read asks for as many bytes as the buffer holds and yields as many as a
/// call read. It ends without a byte when the peer is closed.
pub proof fn law_what_a_read_does(size: usize, reply: Reply)
    ensures
        size > 0 ==> read_loop(size).step(TransferEvent::Start) == VchanStep::<usize>::Call(
            VchanCall::Read { size },
        ),
        size == 0 ==> read_loop(size).step(TransferEvent::Start) == VchanStep::<usize>::Done(Ok(0)),
        reply.rc > 0 ==> (read_loop(size).step(TransferEvent::Moved(reply)) matches VchanStep::Done(
            Ok(count),
        ) && count == reply.rc),
        reply.rc == 0 ==> read_loop(size).step(TransferEvent::Moved(reply)) == VchanStep::<
            usize,
        >::Call(VchanCall::IsOpen),
        reply.rc < 0 ==> read_loop(size).step(TransferEvent::Moved(reply)) == VchanStep::<
            usize,
        >::Done(Err(api_error("libxenvchan_read", reply.errno))),
        reply.rc == 0 ==> read_loop(size).step(TransferEvent::Opened(reply)) == VchanStep::<
            usize,
        >::Done(Ok(0)),
        reply.rc > 0 ==> read_loop(size).step(TransferEvent::Opened(reply)) == VchanStep::<
            usize,
        >::Call(VchanCall::Wait),
        reply.rc < 0 ==> read_loop(size).step(TransferEvent::Opened(reply)) == VchanStep::<
            usize,
        >::Done(Err(api_error("libxenvchan_is_open", reply.errno))),
        reply.rc >= 0 ==> read_loop(size).step(TransferEvent::Waited(reply)) == VchanStep::<
            usize,
        >::Call(VchanCall::Read { size }),
        reply.rc < 0 ==> read_loop(size).step(TransferEvent::Waited(reply)) == VchanStep::<
            usize,
        >::Done(Err(api_error("libxenvchan_wait", reply.errno))),
{
}

/// A write offers the whole buffer and yields how many bytes a call took. It
/// fails when the peer is closed.
pub proof fn law_what_a_write_does(size: usize, reply: Reply)
    ensures
        size > 0 ==> write_loop(size).step(TransferEvent::Start) == VchanStep::<usize>::Call(
            VchanCall::Write { size },
        ),
        size == 0 ==> write_loop(size).step(TransferEvent::Start) == VchanStep::<usize>::Done(
            Ok(0),
        ),
        reply.rc > 0 ==> (write_loop(size).step(TransferEvent::Moved(reply)) matches
            VchanStep::Done(Ok(count)) && count == reply.rc),
        reply.rc == 0 ==> write_loop(size).step(TransferEvent::Moved(reply)) == VchanStep::<
            usize,
        >::Call(VchanCall::IsOpen),
        reply.rc < 0 ==> write_loop(size).step(TransferEvent::Moved(reply)) == VchanStep::<
            usize,
        >::Done(Err(api_error("libxenvchan_write", reply.errno))),
        reply.rc == 0 ==> write_loop(size).step(TransferEvent::Opened(reply)) == VchanStep::<
            usize,
        >::Done(Err(Error::Closed)),
        reply.rc > 0 ==> write_loop(size).step(TransferEvent::Opened(reply)) == VchanStep::<
            usize,
        >::Call(VchanCall::Wait),
        reply.rc < 0 ==> write_loop(size).step(TransferEvent::Opened(reply)) == VchanStep::<
            usize,
        >::Done(Err(api_error("libxenvchan_is_open", reply.errno))),
        reply.rc >= 0 ==> write_loop(size).step(TransferEvent::Waited(reply)) == VchanStep::<
            usize,
        >::Call(VchanCall::Write { size }),
        reply.rc < 0 ==> write_loop(size).step(TransferEvent::Waited(reply)) == VchanStep::<
            usize,
        >::Done(Err(api_error("libxenvchan_wait", reply.errno))),
{
}

/// An exact receive asks for the whole buffer until one call fills it: the
/// return code and the size are the same in 32 bits. It fails when the peer is
/// closed.
pub proof fn law_what_an_exact_receive_does(size: usize, reply: Reply)
    ensures
        size > 0 ==> recv_loop(size).step(TransferEvent::Start) == VchanStep::<()>::Call(
            VchanCall::Recv { size },
        ),
        size == 0 ==> recv_loop(size).step(TransferEvent::Start) == VchanStep::<()>::Done(Ok(())),
        (reply.rc - size) % 0x1_0000_0000 == 0 ==> recv_loop(size).step(TransferEvent::Moved(reply))
            == VchanStep::<()>::Done(Ok(())),
        (reply.rc - size) % 0x1_0000_0000 != 0 && reply.rc >= 0 ==> recv_loop(size).step(
            TransferEvent::Moved(reply),
        ) == VchanStep::<()>::Call(VchanCall::IsOpen),
        (reply.rc - size) % 0x1_0000_0000 != 0 && reply.rc < 0 ==> recv_loop(size).step(
            TransferEvent::Moved(reply),
        ) == VchanStep::<()>::Done(Err(api_error("libxenvchan_recv", reply.errno))),
        reply.rc == 0 ==> recv_loop(size).step(TransferEvent::Opened(reply)) == VchanStep::<
            (),
        >::Done(Err(Error::Closed)),
        reply.rc > 0 ==> recv_loop(size).step(TransferEvent::Opened(reply)) == VchanStep::<
            (),
        >::Call(VchanCall::Wait),
        reply.rc < 0 ==> recv_loop(size).step(TransferEvent::Opened(reply)) == VchanStep::<
            (),
        >::Done(Err(api_error("libxenvchan_is_open", reply.errno))),
        reply.rc >= 0 ==> recv_loop(size).step(TransferEvent::Waited(reply)) == VchanStep::<
            (),
        >::Call(VchanCall::Recv { size }),
        reply.rc < 0 ==> recv_loop(size).step(TransferEvent::Waited(reply)) == VchanStep::<
            (),
        >::Done(Err(api_error("libxenvchan_wait", reply.errno))),
{
}

/// An exact send offers the whole buffer until one call takes all of it: the
/// return code and the size are the same in 32 bits. It fails when the peer is
/// closed.
pub proof fn law_what_an_exact_send_does(size: usize, reply: Reply)
    ensures
        size > 0 ==> send_loop(size).step(TransferEvent::Start) == VchanStep::<()>::Call(
            VchanCall::Send { size },
        ),
        size == 0 ==> send_loop(size).step(TransferEvent::Start) == VchanStep::<()>::Done(Ok(())),
        (reply.rc - size) % 0x1_0000_0000 == 0 ==> send_loop(size).step(TransferEvent::Moved(reply))
            == VchanStep::<()>::Done(Ok(())),
        (reply.rc - size) % 0x1_0000_0000 != 0 && reply.rc >= 0 ==> send_loop(size).step(
            TransferEvent::Moved(reply),
        ) == VchanStep::<()>::Call(VchanCall::IsOpen),
        (reply.rc - size) % 0x1_0000_0000 != 0 && reply.rc < 0 ==> send_loop(size).step(
            TransferEvent::Moved(reply),
        ) == VchanStep::<()>::Done(Err(api_error("libxenvchan_send", reply.errno))),
        reply.rc == 0 ==> send_loop(size).step(TransferEvent::Opened(reply)) == VchanStep::<
            (),
        >::Done(Err(Error::Closed)),
        reply.rc > 0 ==> send_loop(size).step(TransferEvent::Opened(reply)) == VchanStep::<
            (),
        >::Call(VchanCall::Wait),
        reply.rc < 0 ==> send_loop(size).step(TransferEvent::Opened(reply)) == VchanStep::<
            (),
        >::Done(Err(api_error("libxenvchan_is_open", reply.errno))),
        reply.rc >= 0 ==> send_loop(size).step(TransferEvent::Waited(reply)) == VchanStep::<
            (),
        >::Call(VchanCall::Send { size }),
        reply.rc < 0 ==> send_loop(size).step(TransferEvent::Waited(reply)) == VchanStep::<
            (),
        >::Done(Err(api_error("libxenvchan_wait", reply.errno))),
{
}

proof fn lemma_calls_of_a_loop<T>(l: TransferLoop<T>, event: TransferEvent, replies: Seq<Reply>)
    ensures
        l.after(event, replies) matches VchanStep::Call(call) ==> call == l.call || call
            == VchanCall::IsOpen || call == VchanCall::Wait,
    decreases replies.len(),
{
    if let VchanStep::Call(call) = l.step(event) {
        if replies.len() > 0 {
            lemma_calls_of_a_loop(l, transfer_answer(call, replies[0]), replies.drop_first());
        }
    }
}

/// Over a whole run, whatever the replies, each blocking operation moves data
/// by its own call alone, and always with the whole buffer: reads read, writes
/// write, receives receive and sends send.
pub proof fn law_each_operation_makes_its_own_call(size: usize, replies: Seq<Reply>)
    ensures
        read_loop(size).outcome(replies) matches VchanStep::Call(call) ==> call == (
        VchanCall::Read { size }) || call == VchanCall::IsOpen || call == VchanCall::Wait,
        write_loop(size).outcome(replies) matches VchanStep::Call(call) ==> call == (
        VchanCall::Write { size }) || call == VchanCall::IsOpen || call == VchanCall::Wait,
        recv_loop(size).outcome(replies) matches VchanStep::Call(call) ==> call == (
        VchanCall::Recv { size }) || call == VchanCall::IsOpen || call == VchanCall::Wait,
        send_loop(size).outcome(replies) matches VchanStep::Call(call) ==> call == (
        VchanCall::Send { size }) || call == VchanCall::IsOpen || call == VchanCall::Wait,
{
    lemma_calls_of_a_loop(read_loop(size), TransferEvent::Start, replies);
    lemma_calls_of_a_loop(write_loop(size), TransferEvent::Start, replies);
    lemma_calls_of_a_loop(recv_loop(size), TransferEvent::Start, replies);
    lemma_calls_of_a_loop(send_loop(size), TransferEvent::Start, replies);
}

/// A transfer that does not block makes its one call with the whole buffer and
/// yields the return code as a count. This holds of all four of them: `call`
/// and `op` are what tells them apart.
pub proof fn law_once_yields_the_return_code(
    size: usize,
    call: VchanCall,
    op: &'static str,
    reply: Reply,
)
    ensures
        size > 0 ==> transfer_once(size, call, op, CallEvent::Start) == VchanStep::<usize>::Call(
            call,
        ),
        size > 0 && reply.rc >= 0 ==> (transfer_once(size, call, op, CallEvent::Returned(reply))
            matches VchanStep::Done(Ok(count)) && count == reply.rc),
        size > 0 && reply.rc < 0 ==> transfer_once(size, call, op, CallEvent::Returned(reply))
            == VchanStep::<usize>::Done(Err(api_error(op, reply.errno))),
        size == 0 ==> transfer_once(size, call, op, CallEvent::Start) == VchanStep::<usize>::Done(
            Ok(0),
        ),
        size == 0 ==> transfer_once(size, call, op, CallEvent::Returned(reply)) == VchanStep::<
            usize,
        >::Done(Ok(0)),
{
}

/// Transfers that do not block are additive in the return code: a code that is
/// greater by some number yields a count that is greater by that number.
pub proof fn law_once_counts_every_byte(
    size: usize,
    call: VchanCall,
    op: &'static str,
    less: Reply,
    more: Reply,
)
    requires
        size > 0,
        0 <= less.rc <= more.rc,
    ensures
        transfer_once(size, call, op, CallEvent::Returned(less)) matches VchanStep::Done(Ok(few))
            && (transfer_once(size, call, op, CallEvent::Returned(more)) matches VchanStep::Done(
            Ok(many),
        ) && many - few == more.rc - less.rc),
{
}

/// An operation of a single call makes that call, fails under its name on a
/// negative return code, and else yields what the code stands for.
pub proof fn law_single_calls_yield_their_value<T>(
    call: VchanCall,
    op: &'static str,
    value: spec_fn(i32) -> T,
    reply: Reply,
)
    ensures
        single_call(call, op, value, CallEvent::Start) == VchanStep::<T>::Call(call),
        reply.rc < 0 ==> single_call(call, op, value, CallEvent::Returned(reply)) == VchanStep::<
            T,
        >::Done(Err(api_error(op, reply.errno))),
        reply.rc >= 0 ==> single_call(call, op, value, CallEvent::Returned(reply)) == VchanStep::<
            T,
        >::Done(Ok(value(reply.rc))),
{
}

/// A wait for the peer asks for the state, is over when it is 1, fails when it
/// is 0, and waits and asks again when it is anything else.
pub proof fn law_what_a_wait_for_the_peer_does(reply: Reply)
    ensures
        connect_step(ConnectEvent::Start) == VchanStep::<()>::Call(VchanCall::IsOpen),
        reply.rc == 1 ==> connect_step(ConnectEvent::Opened(reply)) == VchanStep::<()>::Done(
            Ok(()),
        ),
        reply.rc == 0 ==> connect_step(ConnectEvent::Opened(reply)) == VchanStep::<()>::Done(
            Err(Error::Closed),
        ),
        reply.rc > 1 ==> connect_step(ConnectEvent::Opened(reply)) == VchanStep::<()>::Call(
            VchanCall::Wait,
        ),
        reply.rc < 0 ==> connect_step(ConnectEvent::Opened(reply)) == VchanStep::<()>::Done(
            Err(api_error("libxenvchan_is_open", reply.errno)),
        ),
        reply.rc >= 0 ==> connect_step(ConnectEvent::Waited(reply)) == VchanStep::<()>::Call(
            VchanCall::IsOpen,
        ),
        reply.rc < 0 ==> connect_step(ConnectEvent::Waited(reply)) == VchanStep::<()>::Done(
            Err(api_error("libxenvchan_wait", reply.errno)),
        ),
{
}

/// A reply goes back to the operation unchanged, under the name of its call.
pub proof fn law_replies_go_back_unchanged(size: usize, reply: Reply)
    ensures
        transfer_answer(VchanCall::IsOpen, reply) == TransferEvent::Opened(reply),
        transfer_answer(VchanCall::Wait, reply) == TransferEvent::Waited(reply),
        transfer_answer(VchanCall::Read { size }, reply) == TransferEvent::Moved(reply),
        transfer_answer(VchanCall::Write { size }, reply) == TransferEvent::Moved(reply),
        transfer_answer(VchanCall::Recv { size }, reply) == TransferEvent::Moved(reply),
        transfer_answer(VchanCall::Send { size }, reply) == TransferEvent::Moved(reply),
        connect_answer(VchanCall::IsOpen, reply) == ConnectEvent::Opened(reply),
        connect_answer(VchanCall::Wait, reply) == ConnectEvent::Waited(reply),
{
}

/// The bytes of a path are its UTF-8 encoding, and of several NUL bytes the
/// first is reported.
pub proof fn law_paths_are_utf8(path: Seq<char>, bytes: Seq<u8>, position: int, other: int)
    ensures
        path_bytes(path) == encode_utf8(path),
        first_nul(bytes, position) ==> 0 <= position < bytes.len() && bytes[position] == 0,
        first_nul(bytes, position) && 0 <= other < position ==> bytes[other] != 0,
{
}

/// A server is announced to the configured domain, in 32 bits, under the
/// configured path with one closing NUL, and with the configured sizes. The
/// pointer that comes back is the listener's.
pub proof fn law_what_a_bind_does<H>(cfg: VchanConfig, event: InitEvent<H>, step: InitStep<H>)
    requires
        server_answers(cfg, event, step),
    ensures
        event is Start && !encode_utf8(cfg.xs_path@).contains(0) ==> {
            &&& step matches InitStep::Init(InitCall::Server { domid, xs_path, read_min, write_min })
            &&& (domid - cfg.domid) % 0x1_0000_0000 == 0
            &&& xs_path@ == encode_utf8(cfg.xs_path@).push(0)
            &&& read_min == cfg.read_min
            &&& write_min == cfg.write_min
        },
        event is Start && encode_utf8(cfg.xs_path@).contains(0) ==> {
            &&& step matches InitStep::Done(Err(Error::InvalidPath(nul)))
            &&& nul.bytes@ == encode_utf8(cfg.xs_path@)
            &&& 0 <= nul.position < nul.bytes@.len()
            &&& nul.bytes@[nul.position as int] == 0
            &&& forall|i: int| 0 <= i < nul.position ==> nul.bytes@[i] != 0
        },
        event matches InitEvent::Returned { ptr: Some(handle), .. } ==> step == InitStep::<H>::Done(
            Ok(handle),
        ),
        event matches InitEvent::Returned { ptr: None, errno } ==> step == InitStep::<H>::Done(
            Err(api_error("libxenvchan_server_init", errno)),
        ),
{
}

/// A client joins the configured domain, in 32 bits, under the configured path
/// with one closing NUL. The pointer that comes back is the stream's.
pub proof fn law_what_a_connect_does<H>(cfg: VchanConfig, event: InitEvent<H>, step: InitStep<H>)
    requires
        client_answers(cfg, event, step),
    ensures
        event is Start && !encode_utf8(cfg.xs_path@).contains(0) ==> {
            &&& step matches InitStep::Init(InitCall::Client { domid, xs_path })
            &&& (domid - cfg.domid) % 0x1_0000_0000 == 0
            &&& xs_path@ == encode_utf8(cfg.xs_path@).push(0)
        },
        event is Start && encode_utf8(cfg.xs_path@).contains(0) ==> {
            &&& step matches InitStep::Done(Err(Error::InvalidPath(nul)))
            &&& nul.bytes@ == encode_utf8(cfg.xs_path@)
            &&& 0 <= nul.position < nul.bytes@.len()
            &&& nul.bytes@[nul.position as int] == 0
            &&& forall|i: int| 0 <= i < nul.position ==> nul.bytes@[i] != 0
        },
        event matches InitEvent::Returned { ptr: Some(handle), .. } ==> step == InitStep::<H>::Done(
            Ok(handle),
        ),
        event matches InitEvent::Returned { ptr: None, errno } ==> step == InitStep::<H>::Done(
            Err(api_error("libxenvchan_client_init", errno)),
        ),
{
}

/// To look at a listener or a stream by its handle loses nothing else: calls
/// and errors are seen as they are.
pub proof fn law_handles_hide_nothing<H>(
    call: InitCall,
    error: Error,
    raw: RawVchan<H>,
    listener: VchanListener<H>,
    stream: VchanStream<H>,
)
    ensures
        RawVchan::<H>::handles(InitStep::Init(call)) == InitStep::<H>::Init(call),
        RawVchan::<H>::handles(InitStep::Done(Err(error))) == InitStep::<H>::Done(Err(error)),
        RawVchan::<H>::handles(InitStep::Done(Ok(raw))) == InitStep::<H>::Done(Ok(raw.handle())),
        VchanListener::<H>::handles(InitStep::Init(call)) == InitStep::<H>::Init(call),
        VchanListener::<H>::handles(InitStep::Done(Err(error))) == InitStep::<H>::Done(Err(error)),
        VchanListener::<H>::handles(InitStep::Done(Ok(listener))) == InitStep::<H>::Done(
            Ok(listener.handle()),
        ),
        VchanStream::<H>::handles(InitStep::Init(call)) == InitStep::<H>::Init(call),
        VchanStream::<H>::handles(InitStep::Done(Err(error))) == InitStep::<H>::Done(Err(error)),
        VchanStream::<H>::handles(InitStep::Done(Ok(stream))) == InitStep::<H>::Done(
            Ok(stream.handle()),
        ),
{
}

/// Of the three named states, a wait for the peer is over in the connected one
/// and fails in the closed one.
pub proof fn law_named_states(reply: Reply)
    ensures
        XENVCHAN_OPEN_CLOSED == 0,
        XENVCHAN_OPEN_CONNECTED == 1,
        XENVCHAN_OPEN_WAITING_FOR_CLIENT == 2,
        connect_step(ConnectEvent::Opened(reply)) == VchanStep::<()>::Done(Ok(())) <==> reply.rc
            == XENVCHAN_OPEN_CONNECTED,
        connect_step(ConnectEvent::Opened(reply)) == VchanStep::<()>::Done(Err(Error::Closed))
            <==> reply.rc == XENVCHAN_OPEN_CLOSED,
{
}

} // verus!
