//! What holds of whole stream operations, whatever libxenvchan replies.

use super::calls::{
    connect_answer, connect_step, read_loop, recv_loop, send_loop, transfer_answer, transfer_once,
    write_loop, CallEvent, ConnectEvent, Reply, TransferEvent, TransferLoop, VchanCall, VchanStep,
    XENVCHAN_OPEN_CLOSED, XENVCHAN_OPEN_CONNECTED,
};
use super::config::path_bytes;
use super::error::{api_error, Error};
use crate::cint::c_int;
use vstd::prelude::*;
use vstd::utf8::{encode_scalar, encode_utf8};

verus! {

impl<T> TransferLoop<T> {
    /// The loop repeats a transfer call.
    pub open spec fn well_formed(self) -> bool {
        self.call !is IsOpen && self.call !is Wait
    }

    /// Where the transfer stands when it goes on from `event` and its calls
    /// are answered with `replies`, in order.
    pub open spec fn after(self, event: TransferEvent, replies: Seq<Reply>) -> VchanStep<T>
        decreases replies.len(),
    {
        match self.step(event) {
            VchanStep::Done(result) => VchanStep::Done(result),
            VchanStep::Call(call) => if replies.len() == 0 {
                VchanStep::Call(call)
            } else {
                self.after(transfer_answer(call, replies[0]), replies.drop_first())
            },
        }
    }

    /// Where the whole transfer stands after `replies`.
    pub open spec fn outcome(self, replies: Seq<Reply>) -> VchanStep<T> {
        self.after(TransferEvent::Start, replies)
    }

    /// A transfer call that neither satisfied nor failed.
    pub open spec fn short(self, moved: Reply) -> bool {
        (self.finished)(moved.rc) is None && moved.rc >= 0
    }

    /// A round in which nothing came of the transfer: the call fell short, the
    /// peer was still there, and the wait went well.
    pub open spec fn idle_round(self, moved: Reply, opened: Reply, waited: Reply) -> bool {
        &&& self.short(moved)
        &&& opened.rc > XENVCHAN_OPEN_CLOSED
        &&& waited.rc >= 0
    }

    /// The first `n` rounds were idle.
    pub open spec fn idle(self, replies: Seq<Reply>, n: nat) -> bool {
        &&& 3 * n <= replies.len()
        &&& forall|k: int|
            #![trigger replies[3 * k]]
            0 <= k < n ==> self.idle_round(replies[3 * k], replies[3 * k + 1], replies[3 * k + 2])
    }

    /// The transfer ends with `result` in the round after `n` idle ones.
    pub open spec fn ends(self, replies: Seq<Reply>, n: nat, result: Result<T, Error>) -> bool {
        let at = 3 * n as int;
        &&& self.idle(replies, n)
        &&& {
            // The call satisfied.
            ||| at < replies.len() && (self.finished)(replies[at].rc) is Some && result == Ok::<
                T,
                Error,
            >((self.finished)(replies[at].rc)->0)
            // The call failed.
            ||| at < replies.len() && (self.finished)(replies[at].rc) is None && replies[at].rc < 0
                && result == Err::<T, Error>(api_error(self.op, replies[at].errno))
            // The state of the channel could not be told.
            ||| at + 1 < replies.len() && self.short(replies[at]) && replies[at + 1].rc < 0
                && result == Err::<T, Error>(
                api_error("libxenvchan_is_open", replies[at + 1].errno),
            )
            // The peer was closed.
            ||| self.closed_at(replies, n) && result == self.closed
            // The wait failed.
            ||| at + 2 < replies.len() && self.short(replies[at]) && replies[at + 1].rc
                > XENVCHAN_OPEN_CLOSED && replies[at + 2].rc < 0 && result == Err::<T, Error>(
                api_error("libxenvchan_wait", replies[at + 2].errno),
            )
        }
    }

    /// The peer was found closed in the round after `n` idle ones.
    pub open spec fn closed_at(self, replies: Seq<Reply>, n: nat) -> bool {
        &&& self.idle(replies, n)
        &&& 3 * n + 1 < replies.len()
        &&& self.short(replies[3 * n as int])
        &&& replies[3 * n as int + 1].rc == XENVCHAN_OPEN_CLOSED
    }

    /// How many idle rounds `replies` start with.
    pub open spec fn idle_rounds(self, replies: Seq<Reply>) -> nat
        decreases replies.len(),
    {
        if replies.len() >= 3 && self.idle_round(replies[0], replies[1], replies[2]) {
            1 + self.idle_rounds(replies.skip(3))
        } else {
            0
        }
    }
}

/// One idle round brings a transfer back to where it started.
proof fn lemma_idle_round<T>(l: TransferLoop<T>, replies: Seq<Reply>)
    requires
        l.well_formed(),
        l.size > 0,
        replies.len() >= 3,
        l.idle_round(replies[0], replies[1], replies[2]),
    ensures
        l.outcome(replies) == l.outcome(replies.skip(3)),
{
    reveal_with_fuel(TransferLoop::after, 4);
    let second = replies.drop_first();
    let third = second.drop_first();
    assert(third.drop_first() == replies.skip(3));
    let rest = replies.skip(3);
    assert(l.after(TransferEvent::Waited(replies[2]), rest) == l.after(TransferEvent::Start, rest));
}

/// Idle rounds leave no mark: a transfer goes on after them as if it had just
/// been started.
pub proof fn law_idle_rounds_leave_no_mark<T>(l: TransferLoop<T>, replies: Seq<Reply>, n: nat)
    requires
        l.well_formed(),
        l.size > 0,
        l.idle(replies, n),
    ensures
        l.outcome(replies) == l.outcome(replies.skip(3 * n as int)),
    decreases n,
{
    if n == 0 {
        assert(replies.skip(0) == replies);
    } else {
        let rest = replies.skip(3);
        assert(replies[3 * 0int] == replies[0]);
        lemma_idle_round(l, replies);
        assert forall|k: int|
            #![trigger rest[3 * k]]
            0 <= k < n - 1 implies l.idle_round(rest[3 * k], rest[3 * k + 1], rest[3 * k + 2]) by {
            assert(rest[3 * k] == replies[3 * (k + 1)]);
        }
        law_idle_rounds_leave_no_mark(l, rest, (n - 1) as nat);
        assert(rest.skip(3 * (n - 1)) == replies.skip(3 * n as int));
    }
}

proof fn lemma_idle_rounds<T>(l: TransferLoop<T>, replies: Seq<Reply>)
    ensures
        l.idle(replies, l.idle_rounds(replies)),
        ({
            let rest = replies.skip(3 * l.idle_rounds(replies) as int);
            rest.len() < 3 || !l.idle_round(rest[0], rest[1], rest[2])
        }),
    decreases replies.len(),
{
    let n = l.idle_rounds(replies);
    if replies.len() >= 3 && l.idle_round(replies[0], replies[1], replies[2]) {
        let rest = replies.skip(3);
        lemma_idle_rounds(l, rest);
        assert forall|k: int|
            #![trigger replies[3 * k]]
            0 <= k < n implies l.idle_round(
            replies[3 * k],
            replies[3 * k + 1],
            replies[3 * k + 2],
        ) by {
            if k > 0 {
                assert(rest[3 * (k - 1)] == replies[3 * k]);
            }
        }
        assert(rest.skip(3 * (n - 1)) == replies.skip(3 * n as int));
    } else {
        assert(replies.skip(0) == replies);
    }
}

/// A transfer ends in exactly one way: a number of idle rounds, and then a
/// round in which the call satisfies or fails, the state cannot be told, the
/// peer is closed, or the wait fails.
pub proof fn law_transfer_endings<T>(
    l: TransferLoop<T>,
    replies: Seq<Reply>,
    result: Result<T, Error>,
)
    requires
        l.well_formed(),
        l.size > 0,
    ensures
        l.outcome(replies) == VchanStep::Done(result) <==> exists|n: nat| l.ends(replies, n, result),
{
    reveal_with_fuel(TransferLoop::after, 4);
    if l.outcome(replies) == VchanStep::Done(result) {
        lemma_idle_rounds(l, replies);
        let n = l.idle_rounds(replies);
        law_idle_rounds_leave_no_mark(l, replies, n);
        let rest = replies.skip(3 * n as int);
        let second = rest.drop_first();
        let third = second.drop_first();
        assert(l.outcome(rest) == VchanStep::Done(result));
        assert(rest.len() > 0);
        assert(l.ends(replies, n, result));
    }
    if exists|n: nat| l.ends(replies, n, result) {
        let n = choose|n: nat| l.ends(replies, n, result);
        law_idle_rounds_leave_no_mark(l, replies, n);
        let rest = replies.skip(3 * n as int);
        let second = rest.drop_first();
        let third = second.drop_first();
        assert(rest.len() > 0);
        assert(rest[0] == replies[3 * n as int]);
    }
}

/// An empty buffer never reaches libxenvchan: the transfer is done before any
/// call.
pub proof fn law_empty_transfers_make_no_call<T>(l: TransferLoop<T>, replies: Seq<Reply>)
    requires
        l.size == 0,
    ensures
        l.step(TransferEvent::Start) == VchanStep::<T>::Done(Ok(l.empty)),
        l.outcome(replies) == VchanStep::<T>::Done(Ok(l.empty)),
{
}

/// A transfer only waits on a peer that was just found open, and a wait that
/// went well is followed by another try.
pub proof fn law_waits_only_on_an_open_peer<T>(l: TransferLoop<T>, event: TransferEvent)
    requires
        l.well_formed(),
    ensures
        l.step(event) == VchanStep::<T>::Call(VchanCall::Wait) ==> (event matches
            TransferEvent::Opened(reply) && reply.rc > XENVCHAN_OPEN_CLOSED),
        (event matches TransferEvent::Waited(reply) && reply.rc >= 0) ==> l.step(event)
            == VchanStep::<T>::Call(l.call),
{
}

/// A read into a buffer that is not empty yields bytes exactly when a read
/// call did, and as many.
pub proof fn law_read_yields_what_a_call_read(size: usize, replies: Seq<Reply>, count: usize)
    requires
        size > 0,
        count > 0,
    ensures
        read_loop(size).outcome(replies) == VchanStep::Done(Ok::<usize, Error>(count))
            <==> exists|n: nat|
            #![trigger read_loop(size).idle(replies, n)]
            read_loop(size).idle(replies, n) && 3 * n < replies.len() && replies[3 * n as int].rc
                == count,
{
    let l = read_loop(size);
    law_transfer_endings(l, replies, Ok(count));
    if l.outcome(replies) == VchanStep::Done(Ok::<usize, Error>(count)) {
        let n = choose|n: nat| l.ends(replies, n, Ok(count));
        assert(l.idle(replies, n) && 3 * n < replies.len() && replies[3 * n as int].rc == count);
    }
    if exists|n: nat|
        #![trigger read_loop(size).idle(replies, n)]
        l.idle(replies, n) && 3 * n < replies.len() && replies[3 * n as int].rc == count {
        let n = choose|n: nat|
            #![trigger read_loop(size).idle(replies, n)]
            l.idle(replies, n) && 3 * n < replies.len() && replies[3 * n as int].rc == count;
        assert(l.ends(replies, n, Ok(count)));
    }
}

/// A read into a buffer that is not empty reports the end of the stream, no
/// byte, exactly when the peer was found closed with nothing left to read.
pub proof fn law_read_ends_with_the_peer(size: usize, replies: Seq<Reply>)
    requires
        size > 0,
    ensures
        read_loop(size).outcome(replies) == VchanStep::Done(Ok::<usize, Error>(0))
            <==> exists|n: nat| read_loop(size).closed_at(replies, n),
{
    let l = read_loop(size);
    law_transfer_endings(l, replies, Ok(0));
    if l.outcome(replies) == VchanStep::Done(Ok::<usize, Error>(0)) {
        let n = choose|n: nat| l.ends(replies, n, Ok(0));
        assert(l.closed_at(replies, n));
    }
    if exists|n: nat| l.closed_at(replies, n) {
        let n = choose|n: nat| l.closed_at(replies, n);
        assert(l.ends(replies, n, Ok(0)));
    }
}

/// A write from a buffer that is not empty never succeeds without a byte
/// taken, and fails as closed exactly when the peer was found closed.
pub proof fn law_write_to_a_closed_peer_fails(size: usize, replies: Seq<Reply>)
    requires
        size > 0,
    ensures
        write_loop(size).outcome(replies) != VchanStep::Done(Ok::<usize, Error>(0)),
        write_loop(size).outcome(replies) == VchanStep::Done(Err::<usize, Error>(Error::Closed))
            <==> exists|n: nat| write_loop(size).closed_at(replies, n),
{
    let l = write_loop(size);
    law_transfer_endings(l, replies, Ok(0));
    law_transfer_endings(l, replies, Err(Error::Closed));
    if l.outcome(replies) == VchanStep::Done(Err::<usize, Error>(Error::Closed)) {
        let n = choose|n: nat| l.ends(replies, n, Err(Error::Closed));
        assert(l.closed_at(replies, n));
    }
    if exists|n: nat| l.closed_at(replies, n) {
        let n = choose|n: nat| l.closed_at(replies, n);
        assert(l.ends(replies, n, Err(Error::Closed)));
    }
}

/// An exact transfer: all or nothing.
pub open spec fn exact(l: TransferLoop<()>) -> bool {
    &&& l.well_formed()
    &&& l.closed == Err::<(), Error>(Error::Closed)
    &&& forall|rc: i32| #[trigger] (l.finished)(rc) is Some <==> rc == c_int(l.size as int)
}

/// Exact transfers of a buffer whose size fits in a C `int` succeed exactly
/// when one call moved the whole buffer.
pub proof fn law_exact_transfers_move_everything(l: TransferLoop<()>, replies: Seq<Reply>)
    requires
        exact(l),
        0 < l.size <= i32::MAX,
    ensures
        l.outcome(replies) == VchanStep::Done(Ok::<(), Error>(())) <==> exists|n: nat|
            #![trigger l.idle(replies, n)]
            l.idle(replies, n) && 3 * n < replies.len() && replies[3 * n as int].rc == l.size,
{
    law_transfer_endings(l, replies, Ok(()));
    if l.outcome(replies) == VchanStep::Done(Ok::<(), Error>(())) {
        let n = choose|n: nat| l.ends(replies, n, Ok(()));
        assert(l.idle(replies, n) && 3 * n < replies.len() && replies[3 * n as int].rc == l.size);
    }
    if exists|n: nat|
        #![trigger l.idle(replies, n)]
        l.idle(replies, n) && 3 * n < replies.len() && replies[3 * n as int].rc == l.size {
        let n = choose|n: nat|
            #![trigger l.idle(replies, n)]
            l.idle(replies, n) && 3 * n < replies.len() && replies[3 * n as int].rc == l.size;
        assert((l.finished)(replies[3 * n as int].rc) is Some);
        assert(l.ends(replies, n, Ok(())));
    }
}

/// Receives and sends of a whole buffer are exact transfers.
pub proof fn law_recv_and_send_are_exact(size: usize)
    ensures
        exact(recv_loop(size)),
        exact(send_loop(size)),
        recv_loop(size).size == size,
        send_loop(size).size == size,
{
}

/// A blocking read or write takes the first return code other than zero as
/// the one that does not block takes its only one.
pub proof fn law_blocking_agrees_with_once(size: usize, reply: Reply)
    requires
        size > 0,
        reply.rc != 0,
    ensures
        read_loop(size).step(TransferEvent::Moved(reply)) == transfer_once(
            size,
            VchanCall::Read { size },
            "libxenvchan_read",
            CallEvent::Returned(reply),
        ),
        write_loop(size).step(TransferEvent::Moved(reply)) == transfer_once(
            size,
            VchanCall::Write { size },
            "libxenvchan_write",
            CallEvent::Returned(reply),
        ),
{
}

/// Where a wait for the peer stands when it goes on from `event` and its calls
/// are answered with `replies`, in order.
pub open spec fn connect_after(event: ConnectEvent, replies: Seq<Reply>) -> VchanStep<()>
    decreases replies.len(),
{
    match connect_step(event) {
        VchanStep::Done(result) => VchanStep::Done(result),
        VchanStep::Call(call) => if replies.len() == 0 {
            VchanStep::Call(call)
        } else {
            connect_after(connect_answer(call, replies[0]), replies.drop_first())
        },
    }
}

/// Neither connected nor closed.
pub open spec fn undecided(opened: Reply) -> bool {
    opened.rc >= 0 && opened.rc != XENVCHAN_OPEN_CONNECTED && opened.rc != XENVCHAN_OPEN_CLOSED
}

/// The first `n` rounds of a wait for the peer decided nothing.
pub open spec fn patient(replies: Seq<Reply>, n: nat) -> bool {
    &&& 2 * n <= replies.len()
    &&& forall|k: int|
        #![trigger replies[2 * k]]
        0 <= k < n ==> undecided(replies[2 * k]) && replies[2 * k + 1].rc >= 0
}

/// A wait for the peer ends with `result` in the round after `n` undecided
/// ones.
pub open spec fn connect_ends(replies: Seq<Reply>, n: nat, result: Result<(), Error>) -> bool {
    let at = 2 * n as int;
    &&& patient(replies, n)
    &&& {
        ||| at < replies.len() && replies[at].rc < 0 && result == Err::<(), Error>(
            api_error("libxenvchan_is_open", replies[at].errno),
        )
        ||| at < replies.len() && replies[at].rc == XENVCHAN_OPEN_CONNECTED && result == Ok::<
            (),
            Error,
        >(())
        ||| at < replies.len() && replies[at].rc == XENVCHAN_OPEN_CLOSED && result == Err::<
            (),
            Error,
        >(Error::Closed)
        ||| at + 1 < replies.len() && undecided(replies[at]) && replies[at + 1].rc < 0 && result
            == Err::<(), Error>(api_error("libxenvchan_wait", replies[at + 1].errno))
    }
}

proof fn lemma_patience(replies: Seq<Reply>, n: nat)
    requires
        patient(replies, n),
    ensures
        connect_after(ConnectEvent::Start, replies) == connect_after(
            ConnectEvent::Start,
            replies.skip(2 * n as int),
        ),
    decreases n,
{
    if n == 0 {
        assert(replies.skip(0) == replies);
    } else {
        reveal_with_fuel(connect_after, 3);
        let rest = replies.skip(2);
        assert(replies[2 * 0int] == replies[0]);
        assert(replies.drop_first().drop_first() == rest);
        assert(connect_after(ConnectEvent::Waited(replies[1]), rest) == connect_after(
            ConnectEvent::Start,
            rest,
        ));
        assert forall|k: int|
            #![trigger rest[2 * k]]
            0 <= k < n - 1 implies undecided(rest[2 * k]) && rest[2 * k + 1].rc >= 0 by {
            assert(rest[2 * k] == replies[2 * (k + 1)]);
        }
        lemma_patience(rest, (n - 1) as nat);
        assert(rest.skip(2 * (n - 1)) == replies.skip(2 * n as int));
    }
}

proof fn lemma_connect_done(replies: Seq<Reply>, result: Result<(), Error>)
    requires
        connect_after(ConnectEvent::Start, replies) == VchanStep::Done(result),
    ensures
        exists|n: nat| connect_ends(replies, n, result),
    decreases replies.len(),
{
    reveal_with_fuel(connect_after, 3);
    if replies.len() >= 2 && undecided(replies[0]) && replies[1].rc >= 0 {
        let rest = replies.skip(2);
        assert(replies.drop_first().drop_first() == rest);
        assert(connect_after(ConnectEvent::Waited(replies[1]), rest) == connect_after(
            ConnectEvent::Start,
            rest,
        ));
        lemma_connect_done(rest, result);
        let m = choose|n: nat| connect_ends(rest, n, result);
        let n = m + 1;
        assert forall|k: int| #![trigger replies[2 * k]] 0 <= k < n implies undecided(
            replies[2 * k],
        ) && replies[2 * k + 1].rc >= 0 by {
            if k > 0 {
                assert(rest[2 * (k - 1)] == replies[2 * k]);
            }
        }
        assert(connect_ends(replies, n, result));
    } else {
        assert(connect_ends(replies, 0, result));
    }
}

/// A wait for the peer ends in exactly one way: a number of rounds in which
/// the channel is neither connected nor closed, and then success on a
/// connected channel, failure on a closed one, or a call that fails.
pub proof fn law_connect_endings(replies: Seq<Reply>, result: Result<(), Error>)
    ensures
        connect_after(ConnectEvent::Start, replies) == VchanStep::Done(result) <==> exists|n: nat|
            connect_ends(replies, n, result),
{
    reveal_with_fuel(connect_after, 3);
    if connect_after(ConnectEvent::Start, replies) == VchanStep::Done(result) {
        lemma_connect_done(replies, result);
    }
    if exists|n: nat| connect_ends(replies, n, result) {
        let n = choose|n: nat| connect_ends(replies, n, result);
        lemma_patience(replies, n);
        let rest = replies.skip(2 * n as int);
        assert(rest.len() > 0);
        assert(rest[0] == replies[2 * n as int]);
        let second = rest.drop_first();
    }
}

proof fn lemma_nul_of_scalar(c: char)
    ensures
        encode_scalar(c as u32).contains(0) <==> c == '\0',
{
    let v = c as u32;
    assert(v <= 0x7f ==> (v & 0x7f) as u8 == v) by (bit_vector);
    assert(0xC0u8 | ((v >> 6) & 0x1f) as u8 != 0) by (bit_vector);
    assert(0xE0u8 | ((v >> 12) & 0x0f) as u8 != 0) by (bit_vector);
    assert(0xF0u8 | ((v >> 18) & 0x07) as u8 != 0) by (bit_vector);
    assert(0x80u8 | (v & 0x3f) as u8 != 0) by (bit_vector);
    assert(0x80u8 | ((v >> 6) & 0x3f) as u8 != 0) by (bit_vector);
    assert(0x80u8 | ((v >> 12) & 0x3f) as u8 != 0) by (bit_vector);
    if c == '\0' {
        assert(encode_scalar(v)[0] == 0);
    }
}

/// The bytes of a path hold a NUL exactly when its text does. So these, and
/// no others, are the paths that are refused.
pub proof fn law_only_nul_is_refused(path: Seq<char>)
    ensures
        path_bytes(path).contains(0) <==> path.contains('\0'),
    decreases path.len(),
{
    if path.len() > 0 {
        let rest = path.drop_first();
        law_only_nul_is_refused(rest);
        lemma_nul_of_scalar(path[0]);
        let head = encode_scalar(path[0] as u32);
        let tail = encode_utf8(rest);
        assert(path_bytes(path) == head + tail);
        assert forall|i: int| 0 <= i < head.len() implies (head + tail)[i] == #[trigger] head[i] by {}
        assert forall|i: int| 0 <= i < tail.len() implies (head + tail)[head.len() + i]
            == #[trigger] tail[i] by {}
        assert forall|i: int| 0 <= i < rest.len() implies path[i + 1] == #[trigger] rest[i] by {}
        if path.contains('\0') {
            let i = choose|i: int| 0 <= i < path.len() && path[i] == '\0';
            if i > 0 {
                assert(rest[i - 1] == '\0');
            }
        }
    }
}

} // verus!
