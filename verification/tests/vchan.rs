use xen::vchan::calls::{
    CallEvent, ConnectEvent, Reply, TransferEvent, VchanCall, VchanStep,
    XENVCHAN_OPEN_CLOSED, XENVCHAN_OPEN_CONNECTED, XENVCHAN_OPEN_WAITING_FOR_CLIENT,
};
use xen::vchan::config::{c_path, VchanConfig};
use xen::vchan::error::{last_error, ApiSource, Error, NulError};
use xen::vchan::listener::{AcceptStep, VchanListener};
use xen::vchan::raw::{InitCall, InitEvent, InitStep};
use xen::vchan::stream::VchanStream;

type Stream = VchanStream<u32>;

fn ok(rc: i32) -> Reply {
    Reply { rc, errno: None }
}

fn failed(errno: i32) -> Reply {
    Reply { rc: -1, errno: Some(errno) }
}

fn api<T>(op: &'static str, code: i32) -> Result<T, Error> {
    Err(Error::Api { op, source: ApiSource::Os(code) })
}

fn stream(handle: u32) -> Stream {
    let config = VchanConfig::symmetric(1, "/local/data", 4096);
    let event = InitEvent::Returned { ptr: Some(handle), errno: None };
    match Stream::connect(&config, event) {
        InitStep::Done(Ok(stream)) => stream,
        other => panic!("{other:?}"),
    }
}

/// Answers the calls of a transfer with `replies` and returns the calls made,
/// with the result if there is one.
fn drive<T>(
    step: fn(&mut Stream, usize, TransferEvent) -> VchanStep<T>,
    size: usize,
    replies: &[Reply],
) -> (Vec<VchanCall>, Option<Result<T, Error>>) {
    let mut stream = stream(5);
    let mut calls = Vec::new();
    let mut event = TransferEvent::Start;
    let mut replies = replies.iter();
    loop {
        match step(&mut stream, size, event) {
            VchanStep::Done(result) => {
                assert_eq!(*stream.as_ptr(), 5);
                return (calls, Some(result));
            }
            VchanStep::Call(call) => {
                calls.push(call);
                let Some(reply) = replies.next() else {
                    return (calls, None);
                };
                event = call.transfer_event(*reply);
            }
        }
    }
}

fn connect_drive(replies: &[Reply]) -> (Vec<VchanCall>, Option<Result<(), Error>>) {
    let stream = stream(5);
    let mut calls = Vec::new();
    let mut event = ConnectEvent::Start;
    let mut replies = replies.iter();
    loop {
        match stream.wait_connected(event) {
            VchanStep::Done(result) => return (calls, Some(result)),
            VchanStep::Call(call) => {
                calls.push(call);
                let Some(reply) = replies.next() else {
                    return (calls, None);
                };
                event = call.connect_event(*reply);
            }
        }
    }
}

#[test]
fn symmetric_config_has_equal_rings() {
    let config = VchanConfig::symmetric(3, "/a", 4096);
    assert_eq!(
        config,
        VchanConfig { domid: 3, xs_path: String::from("/a"), read_min: 4096, write_min: 4096 }
    );
    assert_eq!(VchanConfig::symmetric(3, String::from("/a"), 4096), config);
    assert_eq!(config.clone(), config);
}

#[test]
fn open_states_are_those_of_the_c_library() {
    assert_eq!(XENVCHAN_OPEN_CLOSED, 0);
    assert_eq!(XENVCHAN_OPEN_CONNECTED, 1);
    assert_eq!(XENVCHAN_OPEN_WAITING_FOR_CLIENT, 2);
}

#[test]
fn error_without_a_code_is_named_after_its_call() {
    assert_eq!(
        last_error("libxenvchan_wait", Some(9)),
        Error::Api { op: "libxenvchan_wait", source: ApiSource::Os(9) }
    );
    assert_eq!(
        last_error("libxenvchan_wait", Some(0)),
        Error::Api { op: "libxenvchan_wait", source: ApiSource::Other("libxenvchan_wait") }
    );
    assert_eq!(
        last_error("libxenvchan_wait", None),
        Error::Api { op: "libxenvchan_wait", source: ApiSource::Other("libxenvchan_wait") }
    );
}

#[test]
fn c_path_is_closed_by_a_nul() {
    assert_eq!(c_path("/é"), Ok(vec![b'/', 0xc3, 0xa9, 0]));
    assert_eq!(c_path(""), Ok(vec![0]));
}

#[test]
fn c_path_refuses_the_first_of_two_nuls() {
    assert_eq!(
        c_path("/a\0b\0"),
        Err(Error::InvalidPath(NulError { position: 2, bytes: b"/a\0b\0".to_vec() }))
    );
}

#[test]
fn bind_asks_for_a_server() {
    let config = VchanConfig {
        domid: 7,
        xs_path: String::from("/x"),
        read_min: 1024,
        write_min: 2048,
    };
    match VchanListener::<u32>::bind(&config, InitEvent::Start) {
        InitStep::Init(call) => assert_eq!(
            call,
            InitCall::Server {
                domid: 7,
                xs_path: b"/x\0".to_vec(),
                read_min: 1024,
                write_min: 2048,
            }
        ),
        other => panic!("{other:?}"),
    }
    match VchanListener::<u32>::bind(&config, InitEvent::Returned { ptr: None, errno: Some(13) }) {
        InitStep::Done(Err(error)) => assert_eq!(
            error,
            Error::Api { op: "libxenvchan_server_init", source: ApiSource::Os(13) }
        ),
        other => panic!("{other:?}"),
    }
}

#[test]
fn bind_refuses_a_nul_before_any_call() {
    let config = VchanConfig::symmetric(7, "/\0", 1);
    match VchanListener::<u32>::bind(&config, InitEvent::Start) {
        InitStep::Done(Err(error)) => assert_eq!(
            error,
            Error::InvalidPath(NulError { position: 1, bytes: vec![b'/', 0] })
        ),
        other => panic!("{other:?}"),
    }
}

#[test]
fn connect_asks_for_a_client() {
    let config = VchanConfig::symmetric(u32::MAX, "/x", 1);
    match Stream::connect(&config, InitEvent::Start) {
        InitStep::Init(call) => assert_eq!(
            call,
            InitCall::Client { domid: -1, xs_path: b"/x\0".to_vec() }
        ),
        other => panic!("{other:?}"),
    }
    match Stream::connect(&config, InitEvent::Returned { ptr: None, errno: None }) {
        InitStep::Done(Err(error)) => assert_eq!(
            error,
            Error::Api {
                op: "libxenvchan_client_init",
                source: ApiSource::Other("libxenvchan_client_init"),
            }
        ),
        other => panic!("{other:?}"),
    }
    match Stream::connect(&VchanConfig::symmetric(1, "\0", 1), InitEvent::Start) {
        InitStep::Done(Err(Error::InvalidPath(nul))) => assert_eq!(nul.position, 0),
        other => panic!("{other:?}"),
    }
    assert_eq!(*stream(42).as_ptr(), 42);
}

#[test]
fn accept_hands_the_handle_on() {
    let config = VchanConfig::symmetric(1, "/x", 1);
    let bound = VchanListener::bind(&config, InitEvent::Returned { ptr: Some(9u32), errno: None });
    let InitStep::Done(Ok(listener)) = bound else { panic!("not bound") };
    let AcceptStep::Call { listener, call } = listener.accept(ConnectEvent::Start) else {
        panic!("no call")
    };
    assert_eq!(call, VchanCall::IsOpen);
    let AcceptStep::Call { listener, call } =
        listener.accept(ConnectEvent::Opened(ok(XENVCHAN_OPEN_WAITING_FOR_CLIENT)))
    else {
        panic!("no call")
    };
    assert_eq!(call, VchanCall::Wait);
    assert_eq!(*listener.as_ptr(), 9);
    let AcceptStep::Call { listener, call } = listener.accept(ConnectEvent::Waited(ok(0))) else {
        panic!("no call")
    };
    assert_eq!(call, VchanCall::IsOpen);
    match listener.accept(ConnectEvent::Opened(ok(XENVCHAN_OPEN_CONNECTED))) {
        AcceptStep::Done(Ok(stream)) => assert_eq!(*stream.as_ptr(), 9),
        other => panic!("{other:?}"),
    }
}

#[test]
fn accept_fails_on_a_closed_channel() {
    let config = VchanConfig::symmetric(1, "/x", 1);
    let bound = VchanListener::bind(&config, InitEvent::Returned { ptr: Some(9u32), errno: None });
    let InitStep::Done(Ok(listener)) = bound else { panic!("not bound") };
    match listener.accept(ConnectEvent::Opened(ok(XENVCHAN_OPEN_CLOSED))) {
        AcceptStep::Done(Err(error)) => assert_eq!(error, Error::Closed),
        other => panic!("{other:?}"),
    }
}

#[test]
fn waiting_for_the_peer_ends_when_connected() {
    let (calls, result) = connect_drive(&[ok(2), ok(0), ok(7), ok(0), ok(1)]);
    assert_eq!(
        calls,
        vec![
            VchanCall::IsOpen,
            VchanCall::Wait,
            VchanCall::IsOpen,
            VchanCall::Wait,
            VchanCall::IsOpen,
        ]
    );
    assert_eq!(result, Some(Ok(())));
}

#[test]
fn waiting_for_the_peer_fails() {
    assert_eq!(connect_drive(&[ok(2), ok(0), ok(0)]).1, Some(Err(Error::Closed)));
    assert_eq!(connect_drive(&[failed(5)]).1, Some(api("libxenvchan_is_open", 5)));
    assert_eq!(connect_drive(&[ok(2), failed(4)]).1, Some(api("libxenvchan_wait", 4)));
    assert_eq!(connect_drive(&[ok(2), ok(0)]).1, None);
}

#[test]
fn single_calls_yield_their_return_code() {
    let stream = stream(1);
    let event = CallEvent::Returned(ok(12));
    assert_eq!(stream.wait(CallEvent::Start), VchanStep::Call(VchanCall::Wait));
    assert_eq!(stream.wait(event), VchanStep::Done(Ok(())));
    assert_eq!(stream.is_open(CallEvent::Start), VchanStep::Call(VchanCall::IsOpen));
    assert_eq!(stream.is_open(event), VchanStep::Done(Ok(12)));
    assert_eq!(stream.fd_for_select(CallEvent::Start), VchanStep::Call(VchanCall::FdForSelect));
    assert_eq!(stream.fd_for_select(event), VchanStep::Done(Ok(12)));
    assert_eq!(stream.data_ready(CallEvent::Start), VchanStep::Call(VchanCall::DataReady));
    assert_eq!(stream.data_ready(event), VchanStep::Done(Ok(12)));
    assert_eq!(stream.buffer_space(CallEvent::Start), VchanStep::Call(VchanCall::BufferSpace));
    assert_eq!(stream.buffer_space(event), VchanStep::Done(Ok(12)));
}

#[test]
fn single_calls_fail_under_their_own_names() {
    let stream = stream(1);
    let event = CallEvent::Returned(failed(3));
    assert_eq!(stream.wait(event), VchanStep::Done(api("libxenvchan_wait", 3)));
    assert_eq!(stream.is_open(event), VchanStep::Done(api("libxenvchan_is_open", 3)));
    assert_eq!(
        stream.fd_for_select(event),
        VchanStep::Done(api("libxenvchan_fd_for_select", 3))
    );
    assert_eq!(stream.data_ready(event), VchanStep::Done(api("libxenvchan_data_ready", 3)));
    assert_eq!(stream.buffer_space(event), VchanStep::Done(api("libxenvchan_buffer_space", 3)));
}

#[test]
fn once_transfers_take_any_count() {
    let mut stream = stream(1);
    let none = CallEvent::Returned(ok(0));
    assert_eq!(
        stream.read_once(8, CallEvent::Start),
        VchanStep::Call(VchanCall::Read { size: 8 })
    );
    assert_eq!(stream.read_once(8, none), VchanStep::Done(Ok(0)));
    assert_eq!(
        stream.write_once(8, CallEvent::Start),
        VchanStep::Call(VchanCall::Write { size: 8 })
    );
    assert_eq!(stream.write_once(8, CallEvent::Returned(ok(3))), VchanStep::Done(Ok(3)));
    assert_eq!(
        stream.recv_once(8, CallEvent::Start),
        VchanStep::Call(VchanCall::Recv { size: 8 })
    );
    assert_eq!(stream.recv_once(8, none), VchanStep::Done(Ok(0)));
    assert_eq!(
        stream.send_once(8, CallEvent::Start),
        VchanStep::Call(VchanCall::Send { size: 8 })
    );
    assert_eq!(stream.send_once(8, CallEvent::Returned(ok(8))), VchanStep::Done(Ok(8)));
}

#[test]
fn once_transfers_fail_under_their_own_names() {
    let mut stream = stream(1);
    let event = CallEvent::Returned(failed(6));
    assert_eq!(stream.read_once(8, event), VchanStep::Done(api("libxenvchan_read", 6)));
    assert_eq!(stream.write_once(8, event), VchanStep::Done(api("libxenvchan_write", 6)));
    assert_eq!(stream.recv_once(8, event), VchanStep::Done(api("libxenvchan_recv", 6)));
    assert_eq!(stream.send_once(8, event), VchanStep::Done(api("libxenvchan_send", 6)));
}

#[test]
fn empty_transfers_make_no_call() {
    assert_eq!(drive(Stream::read, 0, &[]), (vec![], Some(Ok(0))));
    assert_eq!(drive(Stream::write, 0, &[]), (vec![], Some(Ok(0))));
    assert_eq!(drive(Stream::recv_exact, 0, &[]), (vec![], Some(Ok(()))));
    assert_eq!(drive(Stream::send_exact, 0, &[]), (vec![], Some(Ok(()))));
    let mut stream = stream(1);
    assert_eq!(stream.read_once(0, CallEvent::Start), VchanStep::Done(Ok(0)));
    assert_eq!(stream.write_once(0, CallEvent::Start), VchanStep::Done(Ok(0)));
    assert_eq!(stream.recv_once(0, CallEvent::Start), VchanStep::Done(Ok(0)));
    assert_eq!(stream.send_once(0, CallEvent::Start), VchanStep::Done(Ok(0)));
}

#[test]
fn read_waits_out_idle_rounds() {
    let (calls, result) = drive(
        Stream::read,
        16,
        &[ok(0), ok(1), ok(0), ok(0), ok(2), ok(0), ok(11)],
    );
    let round = [VchanCall::Read { size: 16 }, VchanCall::IsOpen, VchanCall::Wait];
    let mut expected = round.to_vec();
    expected.extend(round);
    expected.push(VchanCall::Read { size: 16 });
    assert_eq!(calls, expected);
    assert_eq!(result, Some(Ok(11)));
}

#[test]
fn read_ends_with_a_closed_peer() {
    let (calls, result) = drive(Stream::read, 16, &[ok(0), ok(0)]);
    assert_eq!(calls, vec![VchanCall::Read { size: 16 }, VchanCall::IsOpen]);
    assert_eq!(result, Some(Ok(0)));
}

#[test]
fn read_reports_the_call_that_failed() {
    assert_eq!(drive(Stream::read, 4, &[failed(1)]).1, Some(api("libxenvchan_read", 1)));
    assert_eq!(drive(Stream::read, 4, &[ok(0), failed(2)]).1, Some(api("libxenvchan_is_open", 2)));
    assert_eq!(
        drive(Stream::read, 4, &[ok(0), ok(1), failed(3)]).1,
        Some(api("libxenvchan_wait", 3))
    );
}

#[test]
fn write_to_a_closed_peer_fails() {
    let (calls, result) = drive(Stream::write, 4, &[ok(0), ok(0)]);
    assert_eq!(calls, vec![VchanCall::Write { size: 4 }, VchanCall::IsOpen]);
    assert_eq!(result, Some(Err(Error::Closed)));
    assert_eq!(drive(Stream::write, 4, &[failed(1)]).1, Some(api("libxenvchan_write", 1)));
    assert_eq!(drive(Stream::write, 4, &[ok(0), ok(1), ok(0), ok(3)]).1, Some(Ok(3)));
}

#[test]
fn exact_transfers_try_again_when_short() {
    let (calls, result) = drive(Stream::recv_exact, 10, &[ok(4), ok(1), ok(0), ok(10)]);
    assert_eq!(
        calls,
        vec![
            VchanCall::Recv { size: 10 },
            VchanCall::IsOpen,
            VchanCall::Wait,
            VchanCall::Recv { size: 10 },
        ]
    );
    assert_eq!(result, Some(Ok(())));
    assert_eq!(drive(Stream::send_exact, 10, &[ok(0), ok(1), ok(0), ok(10)]).1, Some(Ok(())));
}

#[test]
fn exact_transfers_fail() {
    assert_eq!(drive(Stream::recv_exact, 10, &[ok(9), ok(0)]).1, Some(Err(Error::Closed)));
    assert_eq!(drive(Stream::send_exact, 10, &[ok(9), ok(0)]).1, Some(Err(Error::Closed)));
    assert_eq!(drive(Stream::recv_exact, 10, &[failed(8)]).1, Some(api("libxenvchan_recv", 8)));
    assert_eq!(drive(Stream::send_exact, 10, &[failed(8)]).1, Some(api("libxenvchan_send", 8)));
}

#[test]
fn exact_transfers_compare_sizes_as_c_ints() {
    let size = 0x1_0000_0005u64 as usize;
    assert_eq!(drive(Stream::recv_exact, size, &[ok(5)]).1, Some(Ok(())));
    assert_eq!(drive(Stream::send_exact, u32::MAX as usize, &[ok(-1)]).1, Some(Ok(())));
}

#[test]
fn blocking_agrees_with_once() {
    let mut stream = stream(1);
    for reply in [ok(3), failed(2)] {
        let once = stream.read_once(8, CallEvent::Returned(reply));
        assert_eq!(stream.read(8, TransferEvent::Moved(reply)), once);
        let once = stream.write_once(8, CallEvent::Returned(reply));
        assert_eq!(stream.write(8, TransferEvent::Moved(reply)), once);
    }
}

#[test]
fn events_follow_their_calls() {
    let size = 4;
    assert_eq!(VchanCall::IsOpen.transfer_event(ok(1)), TransferEvent::Opened(ok(1)));
    assert_eq!(VchanCall::Wait.transfer_event(ok(1)), TransferEvent::Waited(ok(1)));
    assert_eq!(VchanCall::Recv { size }.transfer_event(ok(1)), TransferEvent::Moved(ok(1)));
    assert_eq!(VchanCall::IsOpen.connect_event(ok(1)), ConnectEvent::Opened(ok(1)));
    assert_eq!(VchanCall::Wait.connect_event(ok(1)), ConnectEvent::Waited(ok(1)));
}
