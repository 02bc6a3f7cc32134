//! Decisions of the streaming client: when to connect, when to wait before
//! connecting again, which frames go to the message router, and when the
//! keep-alive probe runs. The caller performs each action and reports what
//! happened as the next event.

use vstd::prelude::*;

verus! {

/// Seconds between two keep-alive probes.
pub const PING_INTERVAL_SECS: u64 = 30;

#[derive(Debug, Clone, Copy, PartialEq, Eq, Structural)]
pub enum LinkState {
    Disconnected,
    Connecting,
    Connected,
}

/// What happened on the connection.
#[derive(Debug)]
pub enum LinkEvent {
    /// The client starts, or the reconnect delay has elapsed.
    Retry,
    HandshakeSucceeded,
    HandshakeFailed,
    /// A text frame arrived.
    Text(String),
    /// A ping, pong or binary frame arrived.
    OtherFrame,
    /// The server sent a close frame.
    CloseFrame,
    ReadError,
    /// The stream of frames ended.
    StreamEnded,
    /// Sending a keep-alive probe failed.
    PingFailed,
}

/// What the caller is to do next.
#[derive(Debug)]
pub enum LinkAction {
    /// Open the connection.
    Connect,
    /// Mark the connection up and start reading and the keep-alive probe.
    MarkConnected,
    /// Hand a text frame to the message router.
    Route(String),
    /// Mark the connection down and wait this many seconds, then retry.
    MarkDisconnectedAndWait(u64),
    /// Nothing to do.
    Idle,
}

/// The action of a transition, as mathematical values.
pub enum ActionSpec {
    Connect,
    MarkConnected,
    Route(Seq<char>),
    MarkDisconnectedAndWait(u64),
    Idle,
}

impl LinkAction {
    pub open spec fn spec_of(&self) -> ActionSpec {
        match self {
            LinkAction::Connect => ActionSpec::Connect,
            LinkAction::MarkConnected => ActionSpec::MarkConnected,
            LinkAction::Route(t) => ActionSpec::Route(t@),
            LinkAction::MarkDisconnectedAndWait(d) => ActionSpec::MarkDisconnectedAndWait(*d),
            LinkAction::Idle => ActionSpec::Idle,
        }
    }
}

/// Whether an event ends a live connection.
pub open spec fn ends_connection(e: LinkEvent) -> bool {
    match e {
        LinkEvent::CloseFrame | LinkEvent::ReadError | LinkEvent::StreamEnded | LinkEvent::PingFailed => true,
        _ => false,
    }
}

/// The transition table. Every way out of a connection leads to a fixed
/// wait of `delay` seconds and a new attempt, without limit.
pub open spec fn step_spec(s: LinkState, e: LinkEvent, delay: u64) -> (LinkState, ActionSpec) {
    match (s, e) {
        (LinkState::Disconnected, LinkEvent::Retry) => (LinkState::Connecting, ActionSpec::Connect),
        (LinkState::Connecting, LinkEvent::HandshakeSucceeded) => (LinkState::Connected, ActionSpec::MarkConnected),
        (LinkState::Connecting, LinkEvent::HandshakeFailed) => (
            LinkState::Disconnected,
            ActionSpec::MarkDisconnectedAndWait(delay),
        ),
        (LinkState::Connected, LinkEvent::Text(t)) => (LinkState::Connected, ActionSpec::Route(t@)),
        (LinkState::Connected, e) => if ends_connection(e) {
            (LinkState::Disconnected, ActionSpec::MarkDisconnectedAndWait(delay))
        } else {
            (LinkState::Connected, ActionSpec::Idle)
        },
        (s, _) => (s, ActionSpec::Idle),
    }
}

/// One transition of the connection state machine; `delay` is the
/// reconnect delay of the current configuration, in seconds.
pub fn step(state: LinkState, event: LinkEvent, delay: u64) -> (r: (LinkState, LinkAction))
    ensures
        (r.0, r.1.spec_of()) == step_spec(state, event, delay),
{
    match (state, event) {
        (LinkState::Disconnected, LinkEvent::Retry) => (LinkState::Connecting, LinkAction::Connect),
        (LinkState::Connecting, LinkEvent::HandshakeSucceeded) => (LinkState::Connected, LinkAction::MarkConnected),
        (LinkState::Connecting, LinkEvent::HandshakeFailed) => (
            LinkState::Disconnected,
            LinkAction::MarkDisconnectedAndWait(delay),
        ),
        (LinkState::Connected, LinkEvent::Text(t)) => (LinkState::Connected, LinkAction::Route(t)),
        (LinkState::Connected, LinkEvent::CloseFrame)
        | (LinkState::Connected, LinkEvent::ReadError)
        | (LinkState::Connected, LinkEvent::StreamEnded)
        | (LinkState::Connected, LinkEvent::PingFailed) => (
            LinkState::Disconnected,
            LinkAction::MarkDisconnectedAndWait(delay),
        ),
        (LinkState::Connected, _) => (LinkState::Connected, LinkAction::Idle),
        (s, _) => (s, LinkAction::Idle),
    }
}

/// Whether the keep-alive probe sends another ping after an interval tick:
/// only while the connection is marked up; otherwise it stops for good.
pub fn keep_alive_continues(connected: bool) -> (r: bool)
    ensures
        r == connected,
{
    connected
}

} // verus!
