//! The life of one connection: what is to be done next, told from where the
//! connection stands and what just happened on it.

use crate::clock::Timestamp;
use crate::session::{SessionRegistry, SessionSpec};
use vstd::prelude::*;
use vstd::string::*;

verus! {

/// Where a connection stands.
#[derive(Clone, Copy, Debug, PartialEq, Eq, Structural)]
pub enum ConnectionState {
    /// Accepted; its client has not been greeted yet.
    Connecting,
    /// Greeted; messages are taken and answered.
    Active,
    /// Over.
    Terminated,
}

/// What happened on a connection.
#[derive(Clone, Copy, Debug, PartialEq, Eq, Structural)]
pub enum ConnectionEvent {
    /// The connection was accepted.
    Accepted,
    /// What was last sent has gone out.
    Sent,
    /// What was last sent could not be sent.
    SendFailed,
    /// A text message came in.
    Text,
    /// A message of another kind came in.
    Other,
    /// The client closed the connection.
    Closed,
    /// The transport failed.
    Failed,
    /// The stream of messages ended.
    Ended,
}

/// What is to be done next on a connection.
#[derive(Clone, Copy, Debug, PartialEq, Eq, Structural)]
pub enum ConnectionAction {
    /// Register a session and send the event that announces it.
    Greet,
    /// Wait for the next message.
    Receive,
    /// Record the activity, answer the message and send the response.
    Answer,
    /// Take the session out of the registry; the connection is over.
    Unregister,
    /// Nothing: the connection was over before.
    Nothing,
}

/// Where a connection stands after `event`, and what is to be done.
///
/// A connection that was accepted is greeted and becomes active once the
/// greeting has gone out. An active connection answers text messages and
/// passes over others. Whatever ends a connection (the client's close, a
/// failure of the transport, the end of the stream, a failure to send, or
/// an event out of turn) leads to `Terminated` with the session taken out
/// of the registry. A message that cannot be decoded ends nothing: it is a
/// text message, and is answered.
pub open spec fn next(state: ConnectionState, event: ConnectionEvent) -> (
    ConnectionState,
    ConnectionAction,
) {
    match state {
        ConnectionState::Connecting => match event {
            ConnectionEvent::Accepted => (ConnectionState::Connecting, ConnectionAction::Greet),
            ConnectionEvent::Sent => (ConnectionState::Active, ConnectionAction::Receive),
            _ => (ConnectionState::Terminated, ConnectionAction::Unregister),
        },
        ConnectionState::Active => match event {
            ConnectionEvent::Text => (ConnectionState::Active, ConnectionAction::Answer),
            ConnectionEvent::Sent | ConnectionEvent::Other => (
                ConnectionState::Active,
                ConnectionAction::Receive,
            ),
            _ => (ConnectionState::Terminated, ConnectionAction::Unregister),
        },
        ConnectionState::Terminated => (ConnectionState::Terminated, ConnectionAction::Nothing),
    }
}

/// Where a connection stands after `event`, and what is to be done.
pub fn step(state: ConnectionState, event: ConnectionEvent) -> (r: (
    ConnectionState,
    ConnectionAction,
))
    ensures
        r == next(state, event),
{
    match state {
        ConnectionState::Connecting => match event {
            ConnectionEvent::Accepted => (ConnectionState::Connecting, ConnectionAction::Greet),
            ConnectionEvent::Sent => (ConnectionState::Active, ConnectionAction::Receive),
            _ => (ConnectionState::Terminated, ConnectionAction::Unregister),
        },
        ConnectionState::Active => match event {
            ConnectionEvent::Text => (ConnectionState::Active, ConnectionAction::Answer),
            ConnectionEvent::Sent | ConnectionEvent::Other => (
                ConnectionState::Active,
                ConnectionAction::Receive,
            ),
            _ => (ConnectionState::Terminated, ConnectionAction::Unregister),
        },
        ConnectionState::Terminated => (ConnectionState::Terminated, ConnectionAction::Nothing),
    }
}

/// The sessions after `action` was done for the session `id` at the time
/// `now`: greeting registers it, answering records its activity where it is
/// registered, unregistering takes it out.
pub open spec fn sessions_after(
    sessions: Map<Seq<char>, SessionSpec>,
    action: ConnectionAction,
    id: Seq<char>,
    now: Timestamp,
) -> Map<Seq<char>, SessionSpec> {
    match action {
        ConnectionAction::Greet => sessions.insert(id, SessionSpec::opened(id, now)),
        ConnectionAction::Answer => if sessions.contains_key(id) {
            sessions.insert(id, sessions[id].touched(now))
        } else {
            sessions
        },
        ConnectionAction::Unregister => sessions.remove(id),
        ConnectionAction::Receive | ConnectionAction::Nothing => sessions,
    }
}

/// Does to the registry what `action` asks for the session `id` at the time
/// `now`. Sending and receiving are not the registry's: they change nothing
/// here.
pub fn perform(registry: &mut SessionRegistry, action: ConnectionAction, id: &str, now: Timestamp)
    ensures
        final(registry)@ == sessions_after(old(registry)@, action, id@, now),
{
    match action {
        ConnectionAction::Greet => {
            registry.create_with(String::from_str(id), now);
        },
        ConnectionAction::Answer => {
            registry.touch_at(id, now);
        },
        ConnectionAction::Unregister => {
            registry.remove(id);
        },
        ConnectionAction::Receive | ConnectionAction::Nothing => {},
    }
}

/// Where a connection that started at `state` with `sessions` stands after
/// `events`, each handled in turn at the time of the same position in
/// `times`, and the sessions then.
pub open spec fn run(
    state: ConnectionState,
    sessions: Map<Seq<char>, SessionSpec>,
    events: Seq<ConnectionEvent>,
    times: Seq<Timestamp>,
    id: Seq<char>,
) -> (ConnectionState, Map<Seq<char>, SessionSpec>)
    decreases events.len(),
{
    if events.len() == 0 {
        (state, sessions)
    } else {
        let before = run(state, sessions, events.drop_last(), times, id);
        let (after, action) = next(before.0, events.last());
        (after, sessions_after(before.1, action, id, times[events.len() - 1]))
    }
}

/// A new connection has its session in the registry as soon as it is
/// accepted, and the session stays there while the connection is active.
pub proof fn lemma_session_visible(
    sessions: Map<Seq<char>, SessionSpec>,
    events: Seq<ConnectionEvent>,
    times: Seq<Timestamp>,
    id: Seq<char>,
)
    requires
        events.len() > 0,
        events[0] == ConnectionEvent::Accepted,
    ensures
        ({
            let end = run(ConnectionState::Connecting, sessions, events, times, id);
            end.0 != ConnectionState::Terminated ==> end.1.contains_key(id)
        }),
    decreases events.len(),
{
    if events.len() > 1 {
        assert(events.drop_last()[0] == events[0]);
        lemma_session_visible(sessions, events.drop_last(), times, id);
    } else {
        assert(events.drop_last().len() == 0);
        assert(events.last() == events[0]);
    }
}

/// Once a connection is over, its session is not in the registry, whatever
/// ended the connection: the client's close, a failure of the transport, or
/// a send that failed, the greeting's included.
pub proof fn lemma_session_gone(
    state: ConnectionState,
    sessions: Map<Seq<char>, SessionSpec>,
    events: Seq<ConnectionEvent>,
    times: Seq<Timestamp>,
    id: Seq<char>,
)
    requires
        state != ConnectionState::Terminated,
    ensures
        ({
            let end = run(state, sessions, events, times, id);
            end.0 == ConnectionState::Terminated ==> !end.1.contains_key(id)
        }),
    decreases events.len(),
{
    if events.len() > 0 {
        lemma_session_gone(state, sessions, events.drop_last(), times, id);
    }
}

/// A connection that is over stays over, and nothing is done for it.
pub proof fn lemma_terminated_is_final(event: ConnectionEvent)
    ensures
        next(ConnectionState::Terminated, event) == (
            ConnectionState::Terminated,
            ConnectionAction::Nothing,
        ),
{
}

/// No session is touched by what is done for another: the entry of every
/// other identifier is as it was.
pub proof fn lemma_other_sessions_untouched(
    sessions: Map<Seq<char>, SessionSpec>,
    action: ConnectionAction,
    id: Seq<char>,
    now: Timestamp,
    other: Seq<char>,
)
    requires
        other != id,
    ensures
        sessions_after(sessions, action, id, now).contains_key(other) == sessions.contains_key(
            other,
        ),
        sessions.contains_key(other) ==> sessions_after(sessions, action, id, now)[other]
            == sessions[other],
{
}

} // verus!
