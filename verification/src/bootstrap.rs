//! Server lifecycle decisions. The bootstrap is a small state machine:
//! `NotStarted → Binding → {Listening | BindFailed}` and
//! `Listening → {Serving | Stopped}`, where `BindFailed` and `Stopped`
//! are terminal. Each transition names the action the caller must carry
//! out: attempt the bind, announce the listening address, or report an
//! error and stop. The messages those actions log are built here too.

use vstd::prelude::*;

verus! {

use crate::text::dec_chars;
use crate::text::decimal_string;
use vstd::string::StringExecFns;

/// The lifecycle state of one server start attempt.
#[derive(Clone, Copy, Debug, PartialEq, Eq, Structural)]
pub enum ServerState {
    /// No start was requested yet.
    NotStarted,
    /// A bind of the listening socket is in flight.
    Binding,
    /// The socket is bound and the listening address announced.
    Listening,
    /// The socket could not be bound; terminal.
    BindFailed,
    /// The accept loop is running; the steady state.
    Serving,
    /// The accept loop ended with an error; terminal.
    Stopped,
}

/// An event reported to the state machine by its caller.
#[derive(Clone, Copy, Debug, PartialEq, Eq, Structural)]
pub enum ServerEvent {
    /// A start of the server was requested.
    StartRequested,
    /// The listening socket was bound.
    BindSucceeded,
    /// The listening socket could not be bound.
    BindRejected,
    /// The accept loop was entered.
    ServeLoopEntered,
    /// The accept loop ended with an error.
    ServeFailed,
}

/// What the caller must do after a transition.
#[derive(Clone, Copy, Debug, PartialEq, Eq, Structural)]
pub enum ServerAction {
    /// Attempt to bind the listening socket.
    AttemptBind,
    /// Log the listening address at info level and enter the accept loop.
    AnnounceListening,
    /// Log the bind failure at error level and stop; the server never
    /// serves after this.
    ReportBindError,
    /// Log the serve failure at error level and stop.
    ReportServeError,
    /// Nothing: the event does not apply to the state.
    Ignore,
}

/// The transition relation of the bootstrap state machine. An event that
/// does not apply to the current state leaves it unchanged and asks for
/// nothing.
pub open spec fn step_spec(state: ServerState, event: ServerEvent) -> (ServerState, ServerAction) {
    match (state, event) {
        (ServerState::NotStarted, ServerEvent::StartRequested) => (
            ServerState::Binding,
            ServerAction::AttemptBind,
        ),
        (ServerState::Binding, ServerEvent::BindSucceeded) => (
            ServerState::Listening,
            ServerAction::AnnounceListening,
        ),
        (ServerState::Binding, ServerEvent::BindRejected) => (
            ServerState::BindFailed,
            ServerAction::ReportBindError,
        ),
        (ServerState::Listening, ServerEvent::ServeLoopEntered) => (
            ServerState::Serving,
            ServerAction::Ignore,
        ),
        (ServerState::Listening, ServerEvent::ServeFailed) => (
            ServerState::Stopped,
            ServerAction::ReportServeError,
        ),
        (ServerState::Serving, ServerEvent::ServeFailed) => (
            ServerState::Stopped,
            ServerAction::ReportServeError,
        ),
        _ => (state, ServerAction::Ignore),
    }
}

/// Whether a state is terminal: no event leads out of it.
pub open spec fn is_terminal(state: ServerState) -> bool {
    state == ServerState::BindFailed || state == ServerState::Stopped
}

/// The state after a whole sequence of events.
pub open spec fn run_spec(state: ServerState, events: Seq<ServerEvent>) -> ServerState
    decreases events.len(),
{
    if events.len() == 0 {
        state
    } else {
        run_spec(step_spec(state, events[0]).0, events.drop_first())
    }
}

/// Advances the state machine by one event.
pub fn step(state: ServerState, event: ServerEvent) -> (r: (ServerState, ServerAction))
    ensures
        r == step_spec(state, event),
{
    match (state, event) {
        (ServerState::NotStarted, ServerEvent::StartRequested) => (
            ServerState::Binding,
            ServerAction::AttemptBind,
        ),
        (ServerState::Binding, ServerEvent::BindSucceeded) => (
            ServerState::Listening,
            ServerAction::AnnounceListening,
        ),
        (ServerState::Binding, ServerEvent::BindRejected) => (
            ServerState::BindFailed,
            ServerAction::ReportBindError,
        ),
        (ServerState::Listening, ServerEvent::ServeLoopEntered) => (
            ServerState::Serving,
            ServerAction::Ignore,
        ),
        (ServerState::Listening, ServerEvent::ServeFailed) => (
            ServerState::Stopped,
            ServerAction::ReportServeError,
        ),
        (ServerState::Serving, ServerEvent::ServeFailed) => (
            ServerState::Stopped,
            ServerAction::ReportServeError,
        ),
        _ => (state, ServerAction::Ignore),
    }
}

/// Law: a terminal state absorbs every later event with no action, so a
/// rejected bind leaves the machine in `BindFailed` for good: whatever
/// events follow, the state stays `BindFailed` and no transition out of
/// it ever asks the caller to announce or serve.
pub proof fn lemma_terminal_state_absorbs(state: ServerState, events: Seq<ServerEvent>)
    requires
        is_terminal(state),
    ensures
        run_spec(state, events) == state,
        forall|e: ServerEvent| #[trigger] step_spec(state, e) == (state, ServerAction::Ignore),
    decreases events.len(),
{
    if events.len() > 0 {
        lemma_terminal_state_absorbs(state, events.drop_first())
    }
}

/// Law: a rejected bind reports the failure, reaches the terminal
/// `BindFailed` state, and the server never proceeds to serve: no run of
/// later events reaches `Listening` or `Serving`.
pub proof fn lemma_bind_rejection_never_serves(events: Seq<ServerEvent>)
    ensures
        step_spec(ServerState::Binding, ServerEvent::BindRejected) == (
            ServerState::BindFailed,
            ServerAction::ReportBindError,
        ),
        run_spec(ServerState::BindFailed, events) != ServerState::Listening,
        run_spec(ServerState::BindFailed, events) != ServerState::Serving,
{
    lemma_terminal_state_absorbs(ServerState::BindFailed, events);
}

/// The message logged when the listening socket cannot be bound.
pub fn bind_error_message(addr: &str, cause: &str) -> (r: String)
    ensures
        r@ == "Failed to bind to address "@ + addr@ + ": "@ + cause@,
{
    let mut out = "Failed to bind to address ".to_owned();
    out.append(addr);
    out.append(": ");
    out.append(cause);
    out
}

/// The message announcing the listening address.
pub fn listening_message(port: u16) -> (r: String)
    ensures
        r@ == "Server listening on http://localhost:"@ + dec_chars(port as int),
{
    let mut out = "Server listening on http://localhost:".to_owned();
    let digits = decimal_string(port);
    out.append(digits.as_str());
    out
}

/// The message logged when the accept loop ends with an error.
pub fn serve_error_message(cause: &str) -> (r: String)
    ensures
        r@ == "Server error: "@ + cause@,
{
    let mut out = "Server error: ".to_owned();
    out.append(cause);
    out
}

/// The message logged when a start attempt fails as a whole.
pub fn startup_failure_message(cause: &str) -> (r: String)
    ensures
        r@ == "Failed to start server: "@ + cause@,
{
    let mut out = "Failed to start server: ".to_owned();
    out.append(cause);
    out
}

} // verus!
