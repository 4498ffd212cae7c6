//! The command session: a state machine that decides every step of the
//! one-shot client.  The unverified transport shell performs each returned
//! action (connect, roundtrip, bind, send) and feeds the resulting event
//! back in; every decision — what to send, when the session is over, what to
//! report — is made and verified here.

use vstd::prelude::*;

use crate::protocol::{command_wire, encode_command, CommandResponse, WireRequest};
use crate::registry::{bind_result, GlobalRegistry};
use crate::report::{
    fatal_report, fatal_report_for, report_for, response_report, Report,
};
use crate::text::{
    compositor_error_line, compositor_error_text, connect_error_line, connect_error_text,
    dispatch_error_line, dispatch_error_text,
};

verus! {

/// The interface name of the compositor's command service.
pub open spec fn control_interface() -> Seq<char> {
    "next_control_v1"@
}

/// The exact version the control service must be advertised at.
pub const CONTROL_INTERFACE_VERSION: u32 = 1;

/// Where a session stands.  `Completed` is reached when the one response has
/// been interpreted; `Terminated` when a local failure short-circuited the
/// session.  Neither accepts any further event.
#[derive(PartialEq, Eq, Structural, Clone, Copy, Debug)]
pub enum Phase {
    Init,
    Connected,
    Registered,
    Bound,
    Requested,
    Completed,
    Terminated,
}

/// What the transport shell reports back after performing an action.
pub enum Event {
    ConnectSucceeded,
    ConnectFailed,
    DiscoverSucceeded(GlobalRegistry),
    DiscoverFailed,
    ProxyReady,
    RequestsSent,
    ResponseArrived(CommandResponse),
    ResponseDispatchFailed,
}

/// What the transport shell is to do next.  `Finish` is terminal: the shell
/// writes the report and exits with its code.
pub enum Action {
    Connect,
    Discover,
    Bind(u32),
    Submit(Vec<WireRequest>),
    AwaitResponse,
    Finish(Report),
}

/// One command session over one connection.
pub struct Session {
    phase: Phase,
    args: Vec<String>,
}

/// Which events a phase expects.  Each event is valid in exactly one phase;
/// anything else would be an internal protocol violation and must not be
/// handed to the session.
pub open spec fn accepts(phase: Phase, event: Event) -> bool {
    match (phase, event) {
        (Phase::Init, Event::ConnectSucceeded) => true,
        (Phase::Init, Event::ConnectFailed) => true,
        (Phase::Connected, Event::DiscoverSucceeded(_)) => true,
        (Phase::Connected, Event::DiscoverFailed) => true,
        (Phase::Registered, Event::ProxyReady) => true,
        (Phase::Bound, Event::RequestsSent) => true,
        (Phase::Requested, Event::ResponseArrived(_)) => true,
        (Phase::Requested, Event::ResponseDispatchFailed) => true,
        _ => false,
    }
}

/// The complete transition relation of the session: for each accepted
/// phase/event pair, the exact next phase and the exact action.
pub open spec fn transition(pre: Session, event: Event, post: Session, action: Action) -> bool {
    &&& post.args() == pre.args()
    &&& match (pre.phase(), event) {
        (Phase::Init, Event::ConnectSucceeded) => post.phase() == Phase::Connected
            && action is Discover,
        (Phase::Init, Event::ConnectFailed) => post.phase() == Phase::Terminated
            && (action matches Action::Finish(r) && fatal_report(r, connect_error_text())),
        (Phase::Connected, Event::DiscoverSucceeded(reg)) => {
            match bind_result(reg.globals@, control_interface(), CONTROL_INTERFACE_VERSION) {
                Ok(id) => post.phase() == Phase::Registered && (action matches Action::Bind(b)
                    && b == id),
                Err(_) => post.phase() == Phase::Terminated && (action matches Action::Finish(r)
                    && fatal_report(r, compositor_error_text())),
            }
        },
        (Phase::Connected, Event::DiscoverFailed) => post.phase() == Phase::Terminated && (
        action matches Action::Finish(r) && fatal_report(r, dispatch_error_text())),
        (Phase::Registered, Event::ProxyReady) => post.phase() == Phase::Bound && (
        action matches Action::Submit(q) && q@ == command_wire(pre.args())),
        (Phase::Bound, Event::RequestsSent) => post.phase() == Phase::Requested
            && action is AwaitResponse,
        (Phase::Requested, Event::ResponseArrived(resp)) => post.phase() == Phase::Completed && (
        action matches Action::Finish(r) && response_report(resp, r)),
        (Phase::Requested, Event::ResponseDispatchFailed) => post.phase() == Phase::Terminated && (
        action matches Action::Finish(r) && fatal_report(r, dispatch_error_text())),
        _ => false,
    }
}

impl Session {
    /// Where the session stands.
    pub closed spec fn phase(&self) -> Phase {
        self.phase
    }

    /// The command payload the session was invoked with.
    pub closed spec fn args(&self) -> Seq<String> {
        self.args@
    }

    /// Begins a session for the given command payload; the first thing the
    /// shell must do is attempt the connection.
    pub fn start(args: Vec<String>) -> (r: (Session, Action))
        ensures
            r.0.phase() == Phase::Init,
            r.0.args() == args@,
            r.1 is Connect,
    {
        (Session { phase: Phase::Init, args }, Action::Connect)
    }

    /// Advances the session by one event and decides the next action.
    pub fn step(&mut self, event: Event) -> (action: Action)
        requires
            accepts(old(self).phase(), event),
        ensures
            transition(*old(self), event, *final(self), action),
    {
        match event {
            Event::ConnectSucceeded => {
                self.phase = Phase::Connected;
                Action::Discover
            },
            Event::ConnectFailed => {
                self.phase = Phase::Terminated;
                Action::Finish(fatal_report_for(connect_error_line()))
            },
            Event::DiscoverSucceeded(reg) => {
                match reg.bind_exact("next_control_v1", CONTROL_INTERFACE_VERSION) {
                    Ok(id) => {
                        self.phase = Phase::Registered;
                        Action::Bind(id)
                    },
                    Err(_) => {
                        self.phase = Phase::Terminated;
                        Action::Finish(fatal_report_for(compositor_error_line()))
                    },
                }
            },
            Event::DiscoverFailed => {
                self.phase = Phase::Terminated;
                Action::Finish(fatal_report_for(dispatch_error_line()))
            },
            Event::ProxyReady => {
                self.phase = Phase::Bound;
                Action::Submit(encode_command(&self.args))
            },
            Event::RequestsSent => {
                self.phase = Phase::Requested;
                Action::AwaitResponse
            },
            Event::ResponseArrived(resp) => {
                self.phase = Phase::Completed;
                Action::Finish(report_for(&resp))
            },
            Event::ResponseDispatchFailed => {
                self.phase = Phase::Terminated;
                Action::Finish(fatal_report_for(dispatch_error_line()))
            },
        }
    }
}

/// A local failure at any stage — connection, either roundtrip, or the bind
/// — short-circuits the session: it terminates at once with exit code 1 and
/// a diagnostic naming the failing stage, and neither a bind nor any remote
/// request is issued past the failing stage.
pub open spec fn is_local_failure(pre: Session, event: Event) -> bool {
    ||| event is ConnectFailed
    ||| event is DiscoverFailed
    ||| event is ResponseDispatchFailed
    ||| (event matches Event::DiscoverSucceeded(reg) && bind_result(
        reg.globals@,
        control_interface(),
        CONTROL_INTERFACE_VERSION,
    ) is Err)
}

pub proof fn lemma_failure_short_circuits(pre: Session, event: Event, post: Session, action: Action)
    requires
        transition(pre, event, post, action),
        is_local_failure(pre, event),
    ensures
        post.phase() == Phase::Terminated,
        !(action is Submit),
        !(action is Bind),
        action matches Action::Finish(r) && r.exit_code == 1,
        event is ConnectFailed ==> (action matches Action::Finish(r) && fatal_report(
            r,
            connect_error_text(),
        )),
        event is DiscoverFailed || event is ResponseDispatchFailed ==> (
        action matches Action::Finish(r) && fatal_report(r, dispatch_error_text())),
        event is DiscoverSucceeded ==> (action matches Action::Finish(r) && fatal_report(
            r,
            compositor_error_text(),
        )),
{
}

/// Terminal phases accept no further event: once a session has completed or
/// terminated, nothing more happens in it.
pub proof fn lemma_terminal_phases_halt(phase: Phase, event: Event)
    requires
        phase == Phase::Completed || phase == Phase::Terminated,
    ensures
        !accepts(phase, event),
{
}

/// A session delivers exactly one terminal response: the one response event
/// yields the one finishing report, and the session then accepts no further
/// event.
pub proof fn lemma_single_response(pre: Session, event: Event, post: Session, action: Action)
    requires
        transition(pre, event, post, action),
        event matches Event::ResponseArrived(resp),
    ensures
        post.phase() == Phase::Completed,
        action matches Action::Finish(r) && (event matches Event::ResponseArrived(resp)
            && response_report(resp, r)),
        forall|e: Event| !accepts(post.phase(), e),
{
}

/// The submitted request sequence is exactly the command payload the session
/// was invoked with: one append-argument request per argument, in invocation
/// order, followed by exactly one run-command request.
pub proof fn lemma_submit_is_payload(pre: Session, event: Event, post: Session, action: Action)
    requires
        transition(pre, event, post, action),
        pre.phase() == Phase::Registered,
        event is ProxyReady,
    ensures
        action matches Action::Submit(q) && {
            &&& q@.len() == pre.args().len() + 1
            &&& forall|i: int|
                0 <= i < pre.args().len() ==> #[trigger] q@[i] == WireRequest::AddArgument(
                    pre.args()[i],
                )
            &&& q@[pre.args().len() as int] == WireRequest::RunCommand
        },
{
    crate::protocol::lemma_command_wire_shape(pre.args());
}

} // verus!
