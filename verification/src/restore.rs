//! Restoring a domain's memory through libxenguest, which is loaded at run
//! time.

use crate::step::{trace, Step, Trace};
use crate::text::{decimal, decimal_text, joined};
use vstd::prelude::*;

verus! {

/// Result of a successful domain restore.
#[derive(Clone, Copy, Debug, PartialEq, Eq, Structural)]
pub struct RestoreResult {
    /// Xenstore shared page MFN (machine frame number).
    pub store_mfn: u64,
    /// Console shared page MFN.
    pub console_mfn: u64,
}

/// What the `restore_results` callback of libxenguest leaves behind.
#[derive(Clone, Copy, Debug, PartialEq, Eq, Structural)]
pub struct CallbackData {
    pub store_mfn: u64,
    pub console_mfn: u64,
}

impl CallbackData {
    /// Nothing has been reported yet.
    pub fn new() -> (data: Self)
        ensures
            data.store_mfn == 0,
            data.console_mfn == 0,
    {
        CallbackData { store_mfn: 0, console_mfn: 0 }
    }

    /// Records the frames that the callback was called with.
    pub fn on_restore_results(&mut self, store_gfn: u64, console_gfn: u64)
        ensures
            final(self).store_mfn == store_gfn,
            final(self).console_mfn == console_gfn,
    {
        self.store_mfn = store_gfn;
        self.console_mfn = console_gfn;
    }
}

/// Why a restore fails.
#[derive(Debug, PartialEq, Eq)]
pub enum RestoreError {
    RestoreFailed(String),
}

/// The libraries that the symbols come from.
#[derive(Clone, Copy, Debug, PartialEq, Eq, Structural)]
pub enum Library {
    /// `libxenctrl.so`
    Control,
    /// `libxenguest.so`
    Guest,
}

/// The arguments of `xc_domain_restore`, but for the interface handle, the
/// places for the two frame numbers, and the callbacks.
#[derive(Clone, Copy, Debug, PartialEq, Eq, Structural)]
pub struct RestoreCall {
    pub io_fd: i32,
    pub dom: u32,
    pub store_evtchn: u32,
    pub store_domid: u32,
    pub console_evtchn: u32,
    pub console_domid: u32,
    /// Zero is a plain stream.
    pub stream_type: i32,
    /// Minus one: nothing is sent back.
    pub send_back_fd: i32,
    pub memflags: u32,
}

/// What `xc_domain_restore` left behind.
#[derive(Clone, Copy, Debug, PartialEq, Eq, Structural)]
pub struct RestoreReply {
    pub ret: i32,
    /// The frame number written through the `store_mfn` pointer, zero if none.
    pub store_mfn: u64,
    /// The frame number written through the `console_mfn` pointer, zero if none.
    pub console_mfn: u64,
    pub callback: CallbackData,
}

/// The calls that a restore makes.
#[derive(Clone, Copy, Debug, PartialEq, Eq)]
pub enum RestoreAction {
    /// `dlopen`, with all symbols bound now.
    OpenLibrary { library: Library, name: &'static str },
    /// `dlsym`
    Resolve { library: Library, symbol: &'static str },
    /// `xc_interface_open`, without loggers.
    OpenInterface { open_flags: u32 },
    /// `xc_domain_restore`
    Restore(RestoreCall),
    /// `xc_interface_close`
    CloseInterface,
}

/// What came of the last call.
#[derive(Debug, PartialEq, Eq)]
pub enum RestoreEvent {
    Begin,
    /// The library, or the text of `dlerror`.
    LibraryOpened(Result<(), String>),
    /// Whether the symbol was found.
    Resolved(bool),
    /// Whether the interface handle is not null.
    InterfaceOpened(bool),
    Restored(RestoreReply),
    /// The interface is closed, whatever its return code.
    InterfaceClosed,
}

/// What a restore is waiting for.
#[derive(Clone, Copy, Debug, PartialEq, Eq, Structural)]
pub enum RestoreState {
    Start,
    OpeningControl,
    OpeningGuest,
    ResolvingOpen,
    ResolvingClose,
    ResolvingRestore,
    OpeningInterface,
    Restoring,
    Closing(RestoreReply),
}

/// A frame number: the one that was written through its pointer, or the
/// callback's if that is zero.
pub open spec fn reported(written: u64, callback: u64) -> u64 {
    if written == 0 {
        callback
    } else {
        written
    }
}

/// The result that `reply` stands for, with the text of the failure.
pub open spec fn restore_result(reply: RestoreReply) -> Result<RestoreResult, Seq<char>> {
    if reply.ret != 0 {
        Err("xc_domain_restore failed: return code "@ + decimal(reply.ret as int))
    } else {
        Ok(
            RestoreResult {
                store_mfn: reported(reply.store_mfn, reply.callback.store_mfn),
                console_mfn: reported(reply.console_mfn, reply.callback.console_mfn),
            },
        )
    }
}

/// The call of `xc_domain_restore`: both channels lead to domain zero, and the
/// stream is a plain one.
pub open spec fn restore_call(
    domid: u32,
    checkpoint_fd: i32,
    store_evtchn: u32,
    console_evtchn: u32,
) -> RestoreCall {
    RestoreCall {
        io_fd: checkpoint_fd,
        dom: domid,
        store_evtchn,
        store_domid: 0,
        console_evtchn,
        console_domid: 0,
        stream_type: 0,
        send_back_fd: (-1) as i32,
        memflags: 0,
    }
}

/// The steps of a restore, with the text of a failure.
pub type RestoreStep = Step<RestoreState, RestoreAction, Result<RestoreResult, RestoreError>>;

/// The same, with the failure's text as a sequence.
pub type RestoreStepView = Step<RestoreState, RestoreAction, Result<RestoreResult, Seq<char>>>;

/// A step, with the failure's text as a sequence.
pub open spec fn restore_step_view(step: RestoreStep) -> RestoreStepView {
    match step {
        Step::Call { state, action } => Step::Call { state, action },
        Step::Done(Ok(result)) => Step::Done(Ok(result)),
        Step::Done(Err(RestoreError::RestoreFailed(text))) => Step::Done(Err(text@)),
        Step::Unexpected => Step::Unexpected,
    }
}

/// What a restore does when `event` comes in `state`.
pub open spec fn restore_step(
    call: RestoreCall,
    state: RestoreState,
    event: RestoreEvent,
) -> RestoreStepView {
    match (state, event) {
        (RestoreState::Start, RestoreEvent::Begin) => Step::Call {
            state: RestoreState::OpeningControl,
            action: RestoreAction::OpenLibrary { library: Library::Control, name: "libxenctrl.so" },
        },
        (RestoreState::OpeningControl, RestoreEvent::LibraryOpened(opened)) => match opened {
            Err(text) => Step::Done(Err("dlopen libxenctrl.so: "@ + text@)),
            Ok(_) => Step::Call {
                state: RestoreState::OpeningGuest,
                action: RestoreAction::OpenLibrary {
                    library: Library::Guest,
                    name: "libxenguest.so",
                },
            },
        },
        (RestoreState::OpeningGuest, RestoreEvent::LibraryOpened(opened)) => match opened {
            Err(text) => Step::Done(Err("dlopen libxenguest.so: "@ + text@)),
            Ok(_) => Step::Call {
                state: RestoreState::ResolvingOpen,
                action: RestoreAction::Resolve {
                    library: Library::Control,
                    symbol: "xc_interface_open",
                },
            },
        },
        (RestoreState::ResolvingOpen, RestoreEvent::Resolved(found)) => if !found {
            Step::Done(Err("xc_interface_open not found"@))
        } else {
            Step::Call {
                state: RestoreState::ResolvingClose,
                action: RestoreAction::Resolve {
                    library: Library::Control,
                    symbol: "xc_interface_close",
                },
            }
        },
        (RestoreState::ResolvingClose, RestoreEvent::Resolved(found)) => if !found {
            Step::Done(Err("xc_interface_close not found"@))
        } else {
            Step::Call {
                state: RestoreState::ResolvingRestore,
                action: RestoreAction::Resolve {
                    library: Library::Guest,
                    symbol: "xc_domain_restore",
                },
            }
        },
        (RestoreState::ResolvingRestore, RestoreEvent::Resolved(found)) => if !found {
            Step::Done(Err("xc_domain_restore not found"@))
        } else {
            Step::Call {
                state: RestoreState::OpeningInterface,
                action: RestoreAction::OpenInterface { open_flags: 0 },
            }
        },
        (RestoreState::OpeningInterface, RestoreEvent::InterfaceOpened(opened)) => if !opened {
            Step::Done(Err("xc_interface_open returned null"@))
        } else {
            Step::Call { state: RestoreState::Restoring, action: RestoreAction::Restore(call) }
        },
        (RestoreState::Restoring, RestoreEvent::Restored(reply)) => Step::Call {
            state: RestoreState::Closing(reply),
            action: RestoreAction::CloseInterface,
        },
        (RestoreState::Closing(reply), RestoreEvent::InterfaceClosed) => Step::Done(
            restore_result(reply),
        ),
        _ => Step::Unexpected,
    }
}

/// Picks the frame numbers of a successful restore: those of the callback
/// stand in where the output pointers were not written.
pub fn finish_restore(reply: RestoreReply) -> (result: Result<RestoreResult, RestoreError>)
    ensures
        match result {
            Ok(found) => restore_result(reply) == Ok::<RestoreResult, Seq<char>>(found),
            Err(RestoreError::RestoreFailed(text)) => restore_result(reply) == Err::<
                RestoreResult,
                Seq<char>,
            >(text@),
        },
        result is Ok <==> reply.ret == 0,
        result matches Ok(found) ==> {
            &&& reply.store_mfn != 0 ==> found.store_mfn == reply.store_mfn
            &&& reply.store_mfn == 0 ==> found.store_mfn == reply.callback.store_mfn
            &&& reply.console_mfn != 0 ==> found.console_mfn == reply.console_mfn
            &&& reply.console_mfn == 0 ==> found.console_mfn == reply.callback.console_mfn
        },
        result matches Err(RestoreError::RestoreFailed(text)) ==> text@
            == "xc_domain_restore failed: return code "@ + decimal(reply.ret as int),
{
    if reply.ret != 0 {
        let code = decimal_text(reply.ret);
        return Err(
            RestoreError::RestoreFailed(
                joined("xc_domain_restore failed: return code ", code.as_str()),
            ),
        );
    }
    let mut store_mfn = reply.store_mfn;
    let mut console_mfn = reply.console_mfn;
    if store_mfn == 0 && reply.callback.store_mfn != 0 {
        store_mfn = reply.callback.store_mfn;
    }
    if console_mfn == 0 && reply.callback.console_mfn != 0 {
        console_mfn = reply.callback.console_mfn;
    }
    Ok(RestoreResult { store_mfn, console_mfn })
}

fn failed(text: &str) -> (step: RestoreStep)
    ensures
        restore_step_view(step) == RestoreStepView::Done(Err(text@)),
{
    Step::Done(Err(RestoreError::RestoreFailed(String::from(text))))
}

fn failed_with(head: &str, cause: &String) -> (step: RestoreStep)
    ensures
        restore_step_view(step) == RestoreStepView::Done(Err(head@ + cause@)),
{
    Step::Done(Err(RestoreError::RestoreFailed(joined(head, cause.as_str()))))
}

/// Restores a domain from a checkpoint stream.
///
/// The domain must already exist, with its memory, vCPUs and address size set,
/// and with an event channel each for xenstore and the console. The checkpoint
/// must be a raw migration stream. On success the result names the frames of
/// the xenstore and the console page.
///
/// The operation starts in `RestoreState::Start` with `RestoreEvent::Begin`.
pub fn restore_domain(
    domid: u32,
    checkpoint_fd: i32,
    store_evtchn: u32,
    console_evtchn: u32,
    state: RestoreState,
    event: RestoreEvent,
) -> (step: RestoreStep)
    ensures
        restore_step_view(step) == restore_step(
            restore_call(domid, checkpoint_fd, store_evtchn, console_evtchn),
            state,
            event,
        ),
        step matches Step::Done(Ok(found)) ==> {
            &&& state matches RestoreState::Closing(reply)
            &&& event is InterfaceClosed
            &&& reply.ret == 0
            &&& reply.store_mfn != 0 ==> found.store_mfn == reply.store_mfn
            &&& reply.store_mfn == 0 ==> found.store_mfn == reply.callback.store_mfn
            &&& reply.console_mfn != 0 ==> found.console_mfn == reply.console_mfn
            &&& reply.console_mfn == 0 ==> found.console_mfn == reply.callback.console_mfn
        },
        step matches Step::Call { action: RestoreAction::Restore(asked), .. } ==> {
            &&& asked.io_fd == checkpoint_fd
            &&& asked.dom == domid
            &&& asked.store_evtchn == store_evtchn
            &&& asked.console_evtchn == console_evtchn
        },
        event matches RestoreEvent::Restored(reply) ==> (step matches Step::Call {
            state: next,
            ..
        } ==> next == RestoreState::Closing(reply)),
{
    match (state, event) {
        (RestoreState::Start, RestoreEvent::Begin) => Step::Call {
            state: RestoreState::OpeningControl,
            action: RestoreAction::OpenLibrary { library: Library::Control, name: "libxenctrl.so" },
        },
        (RestoreState::OpeningControl, RestoreEvent::LibraryOpened(opened)) => match opened {
            Err(text) => failed_with("dlopen libxenctrl.so: ", &text),
            Ok(_) => Step::Call {
                state: RestoreState::OpeningGuest,
                action: RestoreAction::OpenLibrary {
                    library: Library::Guest,
                    name: "libxenguest.so",
                },
            },
        },
        (RestoreState::OpeningGuest, RestoreEvent::LibraryOpened(opened)) => match opened {
            Err(text) => failed_with("dlopen libxenguest.so: ", &text),
            Ok(_) => Step::Call {
                state: RestoreState::ResolvingOpen,
                action: RestoreAction::Resolve {
                    library: Library::Control,
                    symbol: "xc_interface_open",
                },
            },
        },
        (RestoreState::ResolvingOpen, RestoreEvent::Resolved(found)) => {
            if !found {
                return failed("xc_interface_open not found");
            }
            Step::Call {
                state: RestoreState::ResolvingClose,
                action: RestoreAction::Resolve {
                    library: Library::Control,
                    symbol: "xc_interface_close",
                },
            }
        },
        (RestoreState::ResolvingClose, RestoreEvent::Resolved(found)) => {
            if !found {
                return failed("xc_interface_close not found");
            }
            Step::Call {
                state: RestoreState::ResolvingRestore,
                action: RestoreAction::Resolve {
                    library: Library::Guest,
                    symbol: "xc_domain_restore",
                },
            }
        },
        (RestoreState::ResolvingRestore, RestoreEvent::Resolved(found)) => {
            if !found {
                return failed("xc_domain_restore not found");
            }
            Step::Call {
                state: RestoreState::OpeningInterface,
                action: RestoreAction::OpenInterface { open_flags: 0 },
            }
        },
        (RestoreState::OpeningInterface, RestoreEvent::InterfaceOpened(opened)) => {
            if !opened {
                return failed("xc_interface_open returned null");
            }
            Step::Call {
                state: RestoreState::Restoring,
                action: RestoreAction::Restore(
                    RestoreCall {
                        io_fd: checkpoint_fd,
                        dom: domid,
                        store_evtchn,
                        store_domid: 0,
                        console_evtchn,
                        console_domid: 0,
                        stream_type: 0,
                        send_back_fd: -1,
                        memflags: 0,
                    },
                ),
            }
        },
        (RestoreState::Restoring, RestoreEvent::Restored(reply)) => Step::Call {
            state: RestoreState::Closing(reply),
            action: RestoreAction::CloseInterface,
        },
        (RestoreState::Closing(reply), RestoreEvent::InterfaceClosed) => Step::Done(
            finish_restore(reply),
        ),
        _ => Step::Unexpected,
    }
}

/// A restore as a step function.
pub open spec fn restore_machine(call: RestoreCall) -> spec_fn(
    RestoreState,
    RestoreEvent,
) -> RestoreStepView {
    |state: RestoreState, event: RestoreEvent| restore_step(call, state, event)
}

/// What a whole restore does when its calls turn out as `events`, which start
/// with `RestoreEvent::Begin`.
pub open spec fn restore_trace(call: RestoreCall, events: Seq<RestoreEvent>) -> Trace<
    RestoreAction,
    Result<RestoreResult, Seq<char>>,
> {
    trace(restore_machine(call), RestoreState::Start, events)
}

/// The calls of a restore in which nothing fails before `xc_domain_restore`
/// has returned.
pub open spec fn restore_plan(call: RestoreCall) -> Seq<RestoreAction> {
    seq![
        RestoreAction::OpenLibrary { library: Library::Control, name: "libxenctrl.so" },
        RestoreAction::OpenLibrary { library: Library::Guest, name: "libxenguest.so" },
        RestoreAction::Resolve { library: Library::Control, symbol: "xc_interface_open" },
        RestoreAction::Resolve { library: Library::Control, symbol: "xc_interface_close" },
        RestoreAction::Resolve { library: Library::Guest, symbol: "xc_domain_restore" },
        RestoreAction::OpenInterface { open_flags: 0 },
        RestoreAction::Restore(call),
        RestoreAction::CloseInterface,
    ]
}

/// How many calls have been made when a restore reaches `state`.
pub open spec fn calls_made(state: RestoreState) -> nat {
    match state {
        RestoreState::Start => 0,
        RestoreState::OpeningControl => 1,
        RestoreState::OpeningGuest => 2,
        RestoreState::ResolvingOpen => 3,
        RestoreState::ResolvingClose => 4,
        RestoreState::ResolvingRestore => 5,
        RestoreState::OpeningInterface => 6,
        RestoreState::Restoring => 7,
        RestoreState::Closing(_) => 8,
    }
}

/// `event` lets a restore go on that has made `calls` calls.
spec fn goes_on(calls: int, event: RestoreEvent) -> bool {
    if calls == 0 {
        event is Begin
    } else if calls <= 2 {
        event == RestoreEvent::LibraryOpened(Ok(()))
    } else if calls <= 5 {
        event == RestoreEvent::Resolved(true)
    } else if calls == 6 {
        event == RestoreEvent::InterfaceOpened(true)
    } else {
        event is Restored
    }
}

/// `event` ends a restore with `text` that has made `calls` calls, before
/// `xc_domain_restore` is called.
spec fn gives_up(calls: int, event: RestoreEvent, text: Seq<char>) -> bool {
    match event {
        RestoreEvent::LibraryOpened(Err(cause)) => {
            ||| calls == 1 && text == "dlopen libxenctrl.so: "@ + cause@
            ||| calls == 2 && text == "dlopen libxenguest.so: "@ + cause@
        },
        RestoreEvent::Resolved(false) => {
            ||| calls == 3 && text == "xc_interface_open not found"@
            ||| calls == 4 && text == "xc_interface_close not found"@
            ||| calls == 5 && text == "xc_domain_restore not found"@
        },
        RestoreEvent::InterfaceOpened(false) => calls == 6 && text
            == "xc_interface_open returned null"@,
        _ => false,
    }
}

proof fn lemma_restore_from(call: RestoreCall, state: RestoreState, events: Seq<RestoreEvent>)
    ensures
        ({
            let rest = trace(restore_machine(call), state, events);
            let plan = restore_plan(call);
            let made = calls_made(state) + rest.actions.len();
            &&& made <= plan.len()
            &&& rest.actions == plan.subrange(calls_made(state) as int, made as int)
            &&& rest.result is Some ==> made != 7
            &&& rest.actions.len() <= events.len()
            &&& forall|i: int|
                0 <= i < rest.actions.len() ==> goes_on(calls_made(state) + i, #[trigger] events[i])
            &&& rest.result is Some ==> {
                &&& events.len() > rest.actions.len()
                &&& made == 8 ==> events[rest.actions.len() as int] is InterfaceClosed
            }
            &&& rest.result matches Some(Err(text)) ==> {
                &&& made < 8 ==> gives_up(made as int, events[rest.actions.len() as int], text)
                &&& made == 8 ==> {
                    let reply = if state is Closing {
                        state->Closing_0
                    } else {
                        events[7 - calls_made(state)]->Restored_0
                    };
                    restore_result(reply) == Err::<RestoreResult, Seq<char>>(text)
                }
            }
            &&& rest.result matches Some(Ok(found)) ==> {
                &&& made == 8
                &&& state matches RestoreState::Closing(reply) ==> restore_result(reply) == Ok::<
                    RestoreResult,
                    Seq<char>,
                >(found)
                &&& state !is Closing ==> {
                    let at = 7 - calls_made(state);
                    &&& events.len() > at
                    &&& events[at] matches RestoreEvent::Restored(reply)
                    &&& restore_result(reply) == Ok::<RestoreResult, Seq<char>>(found)
                }
            }
        }),
    decreases events.len(),
{
    let machine = restore_machine(call);
    let plan = restore_plan(call);
    let rest = trace(machine, state, events);
    if events.len() > 0 {
        match machine(state, events[0]) {
            Step::Call { state: next, action } => {
                lemma_restore_from(call, next, events.drop_first());
                let later = trace(machine, next, events.drop_first());
                assert(calls_made(next) == calls_made(state) + 1);
                assert(action == plan[calls_made(state) as int]);
                assert(rest.actions == seq![action] + later.actions);
                if let RestoreEvent::LibraryOpened(Ok(nothing)) = events[0] {
                    assert(nothing == ());
                }
                assert forall|i: int| 0 <= i < rest.actions.len() implies goes_on(
                    calls_made(state) + i,
                    #[trigger] events[i],
                ) by {
                    if i > 0 {
                        assert(events[i] == events.drop_first()[i - 1]);
                    }
                }
            },
            _ => {},
        }
    }
}

/// `event` is an outcome of the call `action`.
pub open spec fn restore_answers(action: RestoreAction, event: RestoreEvent) -> bool {
    match action {
        RestoreAction::OpenLibrary { .. } => event is LibraryOpened,
        RestoreAction::Resolve { .. } => event is Resolved,
        RestoreAction::OpenInterface { .. } => event is InterfaceOpened,
        RestoreAction::Restore(_) => event is Restored,
        RestoreAction::CloseInterface => event is InterfaceClosed,
    }
}

/// Whatever comes of a call that a restore asked for, there is a next step: an
/// outcome of the right kind is never unexpected.
pub proof fn law_restore_outcomes_are_expected(
    call: RestoreCall,
    state: RestoreState,
    before: RestoreEvent,
    event: RestoreEvent,
)
    ensures
        restore_step(call, state, before) matches Step::Call {
            state: next,
            action,
        } ==> restore_answers(action, event) ==> restore_step(call, next, event) !is Unexpected,
{
}

/// A restore makes its calls in one fixed order, and stops early or not at all.
pub proof fn law_restore_calls_in_order(call: RestoreCall, events: Seq<RestoreEvent>)
    ensures
        restore_trace(call, events).actions.is_prefix_of(restore_plan(call)),
{
    lemma_restore_from(call, RestoreState::Start, events);
}

/// A restore that is over has closed the interface if `xc_domain_restore` was
/// called at all, and else has not.
pub proof fn law_restore_closes_the_interface(call: RestoreCall, events: Seq<RestoreEvent>)
    requires
        restore_trace(call, events).result is Some,
    ensures
        restore_trace(call, events).actions.contains(RestoreAction::CloseInterface)
            <==> restore_trace(call, events).actions.contains(RestoreAction::Restore(call)),
{
    lemma_restore_from(call, RestoreState::Start, events);
    let actions = restore_trace(call, events).actions;
    let plan = restore_plan(call);
    assert forall|i: int| 0 <= i < actions.len() implies #[trigger] actions[i] == plan[i] by {}
    if actions.len() == 8 {
        assert(actions[6] == RestoreAction::Restore(call));
        assert(actions[7] == RestoreAction::CloseInterface);
    }
}

/// A restore of which no earlier call fails makes all of its calls, and its
/// result is that of `xc_domain_restore`.
pub proof fn law_restore_runs_through(call: RestoreCall, reply: RestoreReply)
    ensures
        restore_trace(
            call,
            seq![
                RestoreEvent::Begin,
                RestoreEvent::LibraryOpened(Ok(())),
                RestoreEvent::LibraryOpened(Ok(())),
                RestoreEvent::Resolved(true),
                RestoreEvent::Resolved(true),
                RestoreEvent::Resolved(true),
                RestoreEvent::InterfaceOpened(true),
                RestoreEvent::Restored(reply),
                RestoreEvent::InterfaceClosed,
            ],
        ) == (Trace { actions: restore_plan(call), result: Some(restore_result(reply)) }),
{
    reveal_with_fuel(trace, 10);
    let events = seq![
        RestoreEvent::Begin,
        RestoreEvent::LibraryOpened(Ok(())),
        RestoreEvent::LibraryOpened(Ok(())),
        RestoreEvent::Resolved(true),
        RestoreEvent::Resolved(true),
        RestoreEvent::Resolved(true),
        RestoreEvent::InterfaceOpened(true),
        RestoreEvent::Restored(reply),
        RestoreEvent::InterfaceClosed,
    ];
    assert(restore_trace(call, events).actions == restore_plan(call));
}

/// A restore succeeds only after all of its calls, and then with the frames
/// that `xc_domain_restore` reported: through the pointers, or through the
/// callback where a pointer was left at zero.
pub proof fn law_restore_reports_the_frames(call: RestoreCall, events: Seq<RestoreEvent>)
    ensures
        restore_trace(call, events).result matches Some(Ok(found)) ==> {
            &&& restore_trace(call, events).actions == restore_plan(call)
            &&& events.len() > 7
            &&& events[7] matches RestoreEvent::Restored(reply)
            &&& reply.ret == 0
            &&& found.store_mfn == reported(reply.store_mfn, reply.callback.store_mfn)
            &&& found.console_mfn == reported(reply.console_mfn, reply.callback.console_mfn)
        },
{
    lemma_restore_from(call, RestoreState::Start, events);
}

/// The calls of a restore, in their order and with their arguments. Each is
/// made only after all calls before it went well, but for the last: the
/// interface is closed whatever `xc_domain_restore` returned.
pub proof fn law_what_a_restore_asks_for(
    domid: u32,
    checkpoint_fd: i32,
    store_evtchn: u32,
    console_evtchn: u32,
    events: Seq<RestoreEvent>,
)
    ensures
        ({
            let call = restore_call(domid, checkpoint_fd, store_evtchn, console_evtchn);
            let actions = trace(
                |state: RestoreState, event: RestoreEvent| restore_step(call, state, event),
                RestoreState::Start,
                events,
            ).actions;
            let calls = actions.len();
            &&& calls <= 8
            &&& calls <= events.len()
            &&& calls > 0 ==> events[0] is Begin && actions[0] == (RestoreAction::OpenLibrary {
                library: Library::Control,
                name: "libxenctrl.so",
            })
            &&& calls > 1 ==> events[1] == RestoreEvent::LibraryOpened(Ok(())) && actions[1] == (
            RestoreAction::OpenLibrary { library: Library::Guest, name: "libxenguest.so" })
            &&& calls > 2 ==> events[2] == RestoreEvent::LibraryOpened(Ok(())) && actions[2] == (
            RestoreAction::Resolve { library: Library::Control, symbol: "xc_interface_open" })
            &&& calls > 3 ==> events[3] == RestoreEvent::Resolved(true) && actions[3] == (
            RestoreAction::Resolve { library: Library::Control, symbol: "xc_interface_close" })
            &&& calls > 4 ==> events[4] == RestoreEvent::Resolved(true) && actions[4] == (
            RestoreAction::Resolve { library: Library::Guest, symbol: "xc_domain_restore" })
            &&& calls > 5 ==> events[5] == RestoreEvent::Resolved(true) && actions[5] == (
            RestoreAction::OpenInterface { open_flags: 0 })
            &&& calls > 6 ==> {
                &&& events[6] == RestoreEvent::InterfaceOpened(true)
                &&& actions[6] matches RestoreAction::Restore(asked)
                &&& asked.io_fd == checkpoint_fd
                &&& asked.dom == domid
                &&& asked.store_evtchn == store_evtchn
                &&& asked.store_domid == 0
                &&& asked.console_evtchn == console_evtchn
                &&& asked.console_domid == 0
                &&& asked.stream_type == 0
                &&& asked.send_back_fd == -1
                &&& asked.memflags == 0
            }
            &&& calls > 7 ==> events[7] is Restored && actions[7] == RestoreAction::CloseInterface
        }),
{
    let call = restore_call(domid, checkpoint_fd, store_evtchn, console_evtchn);
    lemma_restore_from(call, RestoreState::Start, events);
    let machine = |state: RestoreState, event: RestoreEvent| restore_step(call, state, event);
    assert(machine =~= restore_machine(call));
    let actions = trace(machine, RestoreState::Start, events).actions;
    let plan = restore_plan(call);
    assert forall|i: int| 0 <= i < actions.len() implies #[trigger] actions[i] == plan[i] && goes_on(
        i,
        events[i],
    ) by {}
}

/// What a restore returns. It succeeds where `xc_domain_restore` returned zero,
/// and then names for each page the frame that was written through its pointer,
/// unless that is zero, in which case it names the callback's. It fails with a
/// text that says which call failed, and with what.
pub proof fn law_what_a_restore_finds(call: RestoreCall, events: Seq<RestoreEvent>)
    ensures
        ({
            let whole = trace(
                |state: RestoreState, event: RestoreEvent| restore_step(call, state, event),
                RestoreState::Start,
                events,
            );
            let calls = whole.actions.len() as int;
            &&& whole.result is Some ==> events.len() > calls
            &&& whole.result matches Some(Ok(found)) ==> {
                &&& calls == 8
                &&& events[7] matches RestoreEvent::Restored(reply)
                &&& events[8] is InterfaceClosed
                &&& reply.ret == 0
                &&& reply.store_mfn != 0 ==> found.store_mfn == reply.store_mfn
                &&& reply.store_mfn == 0 ==> found.store_mfn == reply.callback.store_mfn
                &&& reply.console_mfn != 0 ==> found.console_mfn == reply.console_mfn
                &&& reply.console_mfn == 0 ==> found.console_mfn == reply.callback.console_mfn
            }
            &&& whole.result matches Some(Err(text)) ==> match events[calls] {
                RestoreEvent::LibraryOpened(Err(cause)) => {
                    ||| calls == 1 && text == "dlopen libxenctrl.so: "@ + cause@
                    ||| calls == 2 && text == "dlopen libxenguest.so: "@ + cause@
                },
                RestoreEvent::Resolved(false) => {
                    ||| calls == 3 && text == "xc_interface_open not found"@
                    ||| calls == 4 && text == "xc_interface_close not found"@
                    ||| calls == 5 && text == "xc_domain_restore not found"@
                },
                RestoreEvent::InterfaceOpened(false) => calls == 6 && text
                    == "xc_interface_open returned null"@,
                RestoreEvent::InterfaceClosed => {
                    &&& calls == 8
                    &&& events[7] matches RestoreEvent::Restored(reply)
                    &&& reply.ret != 0
                    &&& text == "xc_domain_restore failed: return code "@ + decimal(
                        reply.ret as int,
                    )
                },
                _ => false,
            }
        }),
{
    lemma_restore_from(call, RestoreState::Start, events);
    let machine = |state: RestoreState, event: RestoreEvent| restore_step(call, state, event);
    assert(machine =~= restore_machine(call));
    let whole = trace(machine, RestoreState::Start, events);
    if whole.actions.len() == 8 {
        assert(goes_on(7, events[7]));
    }
}

/// A restore takes the outcome of the call that it waits for and nothing else.
pub proof fn law_restore_takes_what_it_waits_for(
    call: RestoreCall,
    state: RestoreState,
    event: RestoreEvent,
)
    ensures
        restore_step(call, state, event) is Unexpected <==> !(match state {
            RestoreState::Start => event is Begin,
            RestoreState::OpeningControl => event is LibraryOpened,
            RestoreState::OpeningGuest => event is LibraryOpened,
            RestoreState::ResolvingOpen => event is Resolved,
            RestoreState::ResolvingClose => event is Resolved,
            RestoreState::ResolvingRestore => event is Resolved,
            RestoreState::OpeningInterface => event is InterfaceOpened,
            RestoreState::Restoring => event is Restored,
            RestoreState::Closing(_) => event is InterfaceClosed,
        }),
{
}

/// To look at a step with its text as a sequence changes nothing else.
pub proof fn law_restore_views_keep_everything(
    state: RestoreState,
    action: RestoreAction,
    found: RestoreResult,
    text: String,
)
    ensures
        restore_step_view(Step::Call { state, action }) == (RestoreStepView::Call {
            state,
            action,
        }),
        restore_step_view(Step::Done(Ok(found))) == RestoreStepView::Done(Ok(found)),
        restore_step_view(Step::Done(Err(RestoreError::RestoreFailed(text))))
            == RestoreStepView::Done(Err(text@)),
        restore_step_view(Step::Unexpected) == RestoreStepView::Unexpected,
{
}

/// `finish_restore` succeeds where the return code is zero, with the frame that
/// was written through each pointer, or the callback's where that is zero. Else
/// its text ends with the return code.
pub proof fn law_finish_restore_promises(
    reply: RestoreReply,
    result: Result<RestoreResult, RestoreError>,
)
    requires
        call_ensures(finish_restore, (reply,), result),
    ensures
        reply.ret == 0 ==> {
            &&& result matches Ok(found)
            &&& reply.store_mfn != 0 ==> found.store_mfn == reply.store_mfn
            &&& reply.store_mfn == 0 ==> found.store_mfn == reply.callback.store_mfn
            &&& reply.console_mfn != 0 ==> found.console_mfn == reply.console_mfn
            &&& reply.console_mfn == 0 ==> found.console_mfn == reply.callback.console_mfn
        },
        reply.ret != 0 ==> {
            &&& result matches Err(RestoreError::RestoreFailed(text))
            &&& text@ == "xc_domain_restore failed: return code "@ + decimal(reply.ret as int)
        },
{
}

/// A call of `restore_domain` is a step of a restore with the arguments that
/// it was given.
pub proof fn law_restore_domain_promises(
    domid: u32,
    checkpoint_fd: i32,
    store_evtchn: u32,
    console_evtchn: u32,
    state: RestoreState,
    event: RestoreEvent,
    step: RestoreStep,
)
    requires
        call_ensures(
            restore_domain,
            (domid, checkpoint_fd, store_evtchn, console_evtchn, state, event),
            step,
        ),
    ensures
        restore_step_view(step) == restore_step(
            restore_call(domid, checkpoint_fd, store_evtchn, console_evtchn),
            state,
            event,
        ),
        step matches Step::Call { action: RestoreAction::Restore(asked), .. } ==> {
            &&& asked.io_fd == checkpoint_fd
            &&& asked.dom == domid
            &&& asked.store_evtchn == store_evtchn
            &&& asked.console_evtchn == console_evtchn
        },
        step matches Step::Done(Ok(found)) ==> {
            &&& state matches RestoreState::Closing(reply)
            &&& reply.ret == 0
            &&& reply.store_mfn != 0 ==> found.store_mfn == reply.store_mfn
            &&& reply.store_mfn == 0 ==> found.store_mfn == reply.callback.store_mfn
            &&& reply.console_mfn != 0 ==> found.console_mfn == reply.console_mfn
            &&& reply.console_mfn == 0 ==> found.console_mfn == reply.callback.console_mfn
        },
{
}

/// Before the callback was called, no frame has been reported.
pub proof fn law_new_callback_data_promises(data: CallbackData)
    requires
        call_ensures(CallbackData::new, (), data),
    ensures
        data.store_mfn == 0,
        data.console_mfn == 0,
{
}

/// The callback's data are the two frames that it was called with.
pub proof fn law_on_restore_results_promises(
    data: &mut CallbackData,
    store_gfn: u64,
    console_gfn: u64,
)
    requires
        call_ensures(CallbackData::on_restore_results, (data, store_gfn, console_gfn), ()),
    ensures
        final(data).store_mfn == store_gfn,
        final(data).console_mfn == console_gfn,
{
}

} // verus!
