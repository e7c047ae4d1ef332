//! Event bridge: the life of one remote session as a state machine. The
//! caller owns the stream and the broadcast subscription; it reports each
//! thing that happened as an event and carries out the action it gets back.

use vstd::prelude::*;
use vstd::string::*;
use tokio::sync::broadcast::Sender;

verus! {

/// Declares `tokio::sync::broadcast::Sender`, the sending half of the
/// broadcast channel that feeds all sessions. The type is opaque here: a
/// value of it is only carried through.
#[verifier::external_type_specification]
#[verifier::external_body]
#[verifier::reject_recursive_types(T)]
pub struct ExSender<T>(Sender<T>);

/// The port on which the bridge listens, on all interfaces.
pub const BRIDGE_PORT: u16 = 8080;

/// How many payloads the broadcast channel holds for a session that lags.
pub const BROADCAST_CAPACITY: usize = 100;

/// Calls `tokio::sync::broadcast::Sender::send` and drops what it returns.
/// Trusted, and nothing is claimed of it: whether the payload was queued
/// for any session depends on who is subscribed at that moment, and the
/// channel's state is shared with the sessions.
#[verifier::external_body]
fn queue_payload(channel: &Sender<String>, payload: String) {
    let _ = channel.send(payload);
}

/// Hands a payload to the broadcast channel for every session subscribed to
/// it. With no session subscribed the payload is dropped, and that is no
/// error.
pub fn send_to_ipad(channel: &Sender<String>, payload: String) {
    queue_payload(channel, payload);
}

/// Where a session stands.
#[derive(Clone, Copy, Debug, PartialEq, Eq, Structural)]
pub enum SessionState {
    /// The welcome is on its way to the client.
    Greeting,
    /// The session relays in both directions.
    Open,
    /// The session is over.
    Closed,
}

/// What happened on a session.
#[derive(Clone, Debug)]
pub enum SessionEvent {
    /// The last payload handed to the stream was written.
    SendSucceeded,
    /// The last payload handed to the stream could not be written.
    SendFailed,
    /// The client sent a text frame.
    TextFrame(String),
    /// The client sent a close frame.
    CloseFrame,
    /// The stream ended.
    StreamEnded,
    /// Reading from the stream failed.
    ReadFailed,
    /// The client sent a frame that is neither text nor close.
    OtherFrame,
    /// A payload arrived on the broadcast channel.
    Broadcast(String),
    /// The broadcast channel reported that payloads were missed.
    BroadcastMissed,
}

/// What the caller does next.
#[derive(Clone, Debug)]
pub enum SessionAction {
    /// Write the payload to the client as a text frame.
    Send(String),
    /// Publish the text on the event bus as a remote command.
    Publish(String),
    /// Subscribe to the broadcast channel, then wait for the next event.
    Subscribe,
    /// Wait for the next event.
    Continue,
    /// Drop the subscription and the stream.
    Release,
}

/// A `SessionAction` with its payload as plain text.
pub enum ActionText {
    Send(Seq<char>),
    Publish(Seq<char>),
    Subscribe,
    Continue,
    Release,
}

impl DeepView for SessionAction {
    type V = ActionText;

    open spec fn deep_view(&self) -> ActionText {
        match self {
            SessionAction::Send(payload) => ActionText::Send(payload@),
            SessionAction::Publish(text) => ActionText::Publish(text@),
            SessionAction::Subscribe => ActionText::Subscribe,
            SessionAction::Continue => ActionText::Continue,
            SessionAction::Release => ActionText::Release,
        }
    }
}

/// The payload that greets a new client.
pub open spec fn welcome_text() -> Seq<char> {
    "Connected to Aether Core"@
}

/// The state that follows `state` on `event`.
pub open spec fn next_state(state: SessionState, event: SessionEvent) -> SessionState {
    match state {
        SessionState::Greeting => match event {
            SessionEvent::SendSucceeded => SessionState::Open,
            SessionEvent::SendFailed => SessionState::Closed,
            _ => SessionState::Greeting,
        },
        SessionState::Open => match event {
            SessionEvent::SendFailed
            | SessionEvent::CloseFrame
            | SessionEvent::StreamEnded
            | SessionEvent::ReadFailed => SessionState::Closed,
            _ => SessionState::Open,
        },
        SessionState::Closed => SessionState::Closed,
    }
}

/// The action that `event` calls for in `state`.
pub open spec fn reaction(state: SessionState, event: SessionEvent) -> ActionText {
    match state {
        SessionState::Greeting => match event {
            SessionEvent::SendSucceeded => ActionText::Subscribe,
            SessionEvent::SendFailed => ActionText::Release,
            _ => ActionText::Continue,
        },
        SessionState::Open => match event {
            SessionEvent::TextFrame(text) => ActionText::Publish(text@),
            SessionEvent::Broadcast(payload) => ActionText::Send(payload@),
            SessionEvent::SendFailed
            | SessionEvent::CloseFrame
            | SessionEvent::StreamEnded
            | SessionEvent::ReadFailed => ActionText::Release,
            _ => ActionText::Continue,
        },
        SessionState::Closed => ActionText::Release,
    }
}

/// The route that upgrades a connection to a session.
pub fn bridge_route() -> (route: &'static str)
    ensures
        route@ == "/ws"@,
{
    "/ws"
}

/// The bus event that carries a remote command.
pub fn remote_command_event() -> (name: &'static str)
    ensures
        name@ == "ipad-command"@,
{
    "ipad-command"
}

/// Starts a session: the welcome goes out first.
pub fn open_session() -> (r: (SessionState, SessionAction))
    ensures
        r.0 == SessionState::Greeting,
        r.1.deep_view() == ActionText::Send(welcome_text()),
{
    (SessionState::Greeting, SessionAction::Send(String::from_str("Connected to Aether Core")))
}

/// Advances a session by one event. Text from the client is published
/// unchanged, a broadcast payload is sent unchanged; a close frame, the end
/// of the stream, a read error or a write error closes the session; a
/// closed session stays closed.
pub fn session_step(state: SessionState, event: SessionEvent) -> (r: (SessionState, SessionAction))
    ensures
        r.0 == next_state(state, event),
        r.1.deep_view() == reaction(state, event),
{
    match state {
        SessionState::Greeting => match event {
            SessionEvent::SendSucceeded => (SessionState::Open, SessionAction::Subscribe),
            SessionEvent::SendFailed => (SessionState::Closed, SessionAction::Release),
            _ => (SessionState::Greeting, SessionAction::Continue),
        },
        SessionState::Open => match event {
            SessionEvent::TextFrame(text) => (SessionState::Open, SessionAction::Publish(text)),
            SessionEvent::Broadcast(payload) => (SessionState::Open, SessionAction::Send(payload)),
            SessionEvent::SendFailed => (SessionState::Closed, SessionAction::Release),
            SessionEvent::CloseFrame => (SessionState::Closed, SessionAction::Release),
            SessionEvent::StreamEnded => (SessionState::Closed, SessionAction::Release),
            SessionEvent::ReadFailed => (SessionState::Closed, SessionAction::Release),
            _ => (SessionState::Open, SessionAction::Continue),
        },
        SessionState::Closed => (SessionState::Closed, SessionAction::Release),
    }
}

/// Every open session that is handed a broadcast payload sends exactly that
/// payload and stays open, however many sessions there are; where there is
/// no session, there is nothing to do.
pub proof fn broadcast_reaches_every_open_session(sessions: Seq<SessionState>, payload: String)
    ensures
        forall|i: int|
            0 <= i < sessions.len() && sessions[i] == SessionState::Open ==> reaction(
                #[trigger] sessions[i],
                SessionEvent::Broadcast(payload),
            ) == ActionText::Send(payload@) && next_state(
                sessions[i],
                SessionEvent::Broadcast(payload),
            ) == SessionState::Open,
{
}

/// An open session ends on a close frame, the end of the stream, a read
/// error or a write error, and on nothing else.
pub proof fn open_session_ends_only_on_close_or_error(event: SessionEvent)
    ensures
        next_state(SessionState::Open, event) == SessionState::Closed <==> (event
            is CloseFrame || event is StreamEnded || event is ReadFailed || event is SendFailed),
        next_state(SessionState::Open, event) != SessionState::Closed ==> next_state(
            SessionState::Open,
            event,
        ) == SessionState::Open,
{
}

/// A closed session never opens again and never sends or publishes.
pub proof fn closed_is_final(event: SessionEvent)
    ensures
        next_state(SessionState::Closed, event) == SessionState::Closed,
        reaction(SessionState::Closed, event) == ActionText::Release,
{
}

} // verus!
