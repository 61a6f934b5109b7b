use xen::restore::{
    finish_restore, restore_domain, CallbackData, Library, RestoreAction, RestoreCall,
    RestoreError, RestoreEvent, RestoreReply, RestoreResult, RestoreState,
};
use xen::step::Step;
use xen::text::decimal_text;

fn reply(ret: i32) -> RestoreReply {
    RestoreReply {
        ret,
        store_mfn: 100,
        console_mfn: 200,
        callback: CallbackData { store_mfn: 0, console_mfn: 0 },
    }
}

fn drive(
    events: Vec<RestoreEvent>,
) -> (Vec<RestoreAction>, Option<Result<RestoreResult, RestoreError>>) {
    let mut actions = Vec::new();
    let mut state = RestoreState::Start;
    for event in events {
        match restore_domain(11, 3, 21, 22, state, event) {
            Step::Call { state: next, action } => {
                state = next;
                actions.push(action);
            }
            Step::Done(result) => return (actions, Some(result)),
            Step::Unexpected => panic!("unexpected in {state:?}"),
        }
    }
    (actions, None)
}

/// The outcomes of a restore, up to and including the call of
/// `xc_interface_open`.
fn opened() -> Vec<RestoreEvent> {
    vec![
        RestoreEvent::Begin,
        RestoreEvent::LibraryOpened(Ok(())),
        RestoreEvent::LibraryOpened(Ok(())),
        RestoreEvent::Resolved(true),
        RestoreEvent::Resolved(true),
        RestoreEvent::Resolved(true),
        RestoreEvent::InterfaceOpened(true),
    ]
}

fn plan() -> Vec<RestoreAction> {
    vec![
        RestoreAction::OpenLibrary { library: Library::Control, name: "libxenctrl.so" },
        RestoreAction::OpenLibrary { library: Library::Guest, name: "libxenguest.so" },
        RestoreAction::Resolve { library: Library::Control, symbol: "xc_interface_open" },
        RestoreAction::Resolve { library: Library::Control, symbol: "xc_interface_close" },
        RestoreAction::Resolve { library: Library::Guest, symbol: "xc_domain_restore" },
        RestoreAction::OpenInterface { open_flags: 0 },
        RestoreAction::Restore(RestoreCall {
            io_fd: 3,
            dom: 11,
            store_evtchn: 21,
            store_domid: 0,
            console_evtchn: 22,
            console_domid: 0,
            stream_type: 0,
            send_back_fd: -1,
            memflags: 0,
        }),
        RestoreAction::CloseInterface,
    ]
}

fn message(text: &str) -> Option<Result<RestoreResult, RestoreError>> {
    Some(Err(RestoreError::RestoreFailed(text.to_string())))
}

#[test]
fn restore_runs_through() {
    let mut events = opened();
    events.push(RestoreEvent::Restored(reply(0)));
    events.push(RestoreEvent::InterfaceClosed);
    let (actions, result) = drive(events);
    assert_eq!(actions, plan());
    assert_eq!(result, Some(Ok(RestoreResult { store_mfn: 100, console_mfn: 200 })));
}

#[test]
fn failed_restore_closes_the_interface_first() {
    let mut events = opened();
    events.push(RestoreEvent::Restored(reply(-22)));
    events.push(RestoreEvent::InterfaceClosed);
    let (actions, result) = drive(events);
    assert_eq!(actions, plan());
    assert_eq!(result, message("xc_domain_restore failed: return code -22"));
}

#[test]
fn libraries_that_do_not_load_are_named() {
    let (actions, result) = drive(vec![
        RestoreEvent::Begin,
        RestoreEvent::LibraryOpened(Err("no such file".to_string())),
    ]);
    assert_eq!(actions, plan()[..1]);
    assert_eq!(result, message("dlopen libxenctrl.so: no such file"));
    let (actions, result) = drive(vec![
        RestoreEvent::Begin,
        RestoreEvent::LibraryOpened(Ok(())),
        RestoreEvent::LibraryOpened(Err("bad ELF".to_string())),
    ]);
    assert_eq!(actions, plan()[..2]);
    assert_eq!(result, message("dlopen libxenguest.so: bad ELF"));
}

#[test]
fn symbols_that_are_not_found_are_named() {
    for (at, text) in [
        (3, "xc_interface_open not found"),
        (4, "xc_interface_close not found"),
        (5, "xc_domain_restore not found"),
    ] {
        let mut events = opened();
        events.truncate(at);
        events.push(RestoreEvent::Resolved(false));
        let (actions, result) = drive(events);
        assert_eq!(actions, plan()[..at]);
        assert_eq!(result, message(text));
    }
}

#[test]
fn null_interface_is_not_closed() {
    let mut events = opened();
    events.pop();
    events.push(RestoreEvent::InterfaceOpened(false));
    let (actions, result) = drive(events);
    assert_eq!(actions, plan()[..6]);
    assert_eq!(result, message("xc_interface_open returned null"));
}

#[test]
fn callback_stands_in_for_unwritten_frames() {
    let mut callback = CallbackData::new();
    assert_eq!(callback, CallbackData { store_mfn: 0, console_mfn: 0 });
    callback.on_restore_results(7, 8);
    assert_eq!(callback, CallbackData { store_mfn: 7, console_mfn: 8 });
    assert_eq!(
        finish_restore(RestoreReply { ret: 0, store_mfn: 0, console_mfn: 0, callback }),
        Ok(RestoreResult { store_mfn: 7, console_mfn: 8 })
    );
    assert_eq!(
        finish_restore(RestoreReply { ret: 0, store_mfn: 1, console_mfn: 0, callback }),
        Ok(RestoreResult { store_mfn: 1, console_mfn: 8 })
    );
    assert_eq!(
        finish_restore(RestoreReply { ret: 0, store_mfn: 0, console_mfn: 2, callback }),
        Ok(RestoreResult { store_mfn: 7, console_mfn: 2 })
    );
}

#[test]
fn outcomes_of_other_calls_do_not_fit() {
    let step = restore_domain(1, 2, 3, 4, RestoreState::Start, RestoreEvent::Resolved(true));
    assert_eq!(step, Step::Unexpected);
    let step = restore_domain(1, 2, 3, 4, RestoreState::Restoring, RestoreEvent::InterfaceClosed);
    assert_eq!(step, Step::Unexpected);
}

#[test]
fn return_codes_in_decimal() {
    for code in [0, 7, 10, 999, -1, -10, i32::MAX, i32::MIN] {
        assert_eq!(decimal_text(code), code.to_string());
    }
}
