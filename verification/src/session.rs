//! The per-subscriber session state machine.
//!
//! A session registers itself on transport establishment, refreshes its
//! liveness clock on every probe or probe response from the remote endpoint,
//! forwards broadcast payloads outward, and stops — deregistering from the
//! registry — when the transport closes or the endpoint stays silent past the
//! timeout threshold. The embedding program performs the returned actions on
//! the transport; every decision is made here.

use vstd::prelude::*;

use crate::registry::disconnect_rel;
use crate::registry::Registry;

verus! {

/// Time units between two firings of the liveness probe.
pub const HEARTBEAT_INTERVAL: u64 = 5;

/// Silence longer than this many time units (two missed heartbeat cycles)
/// makes the session stop.
pub const CLIENT_TIMEOUT: u64 = 10;

/// Lifecycle of one session; `Stopped` is terminal.
#[derive(Debug, PartialEq, Eq, Clone, Copy)]
pub enum SessionState {
    Starting,
    Active,
    Stopped,
}

/// One event arriving from the transport connection.
#[derive(Debug, PartialEq, Eq)]
pub enum TransportEvent {
    /// A liveness probe from the remote endpoint, to be answered in kind.
    Ping(Vec<u8>),
    /// The remote endpoint's answer to a probe of ours.
    Pong(Vec<u8>),
    /// Inbound application data; accepted but not interpreted.
    Text(Vec<u8>),
    /// Inbound application data; accepted but not interpreted.
    Binary(Vec<u8>),
    /// The remote endpoint closed the connection.
    Close,
    /// A frame with no meaning for the session.
    Nop,
}

/// What the embedding program must do with the transport after an event.
#[derive(Debug, PartialEq, Eq)]
pub enum SessionAction {
    /// Answer the remote endpoint's probe with these bytes.
    Reply(Vec<u8>),
    /// Nothing to do.
    Ignore,
    /// Close the transport and deregister the session.
    Stop,
}

/// What the embedding program must do after a heartbeat firing.
#[derive(Debug, PartialEq, Eq, Clone, Copy)]
pub enum HeartbeatAction {
    /// Send a liveness probe to the remote endpoint.
    Probe,
    /// Close the transport and deregister the session.
    Stop,
}

/// Whether a last liveness response at `last_seen` has, at `now`, been silent
/// past the timeout threshold.
pub open spec fn timed_out(last_seen: u64, now: u64) -> bool {
    last_seen <= now && now - last_seen > CLIENT_TIMEOUT
}

/// Exactly the decision one heartbeat firing makes: a session silent past the
/// threshold is stopped, any other is probed and left as it was.
pub open spec fn tick_rel(pre: Session, now: u64, post: Session, a: HeartbeatAction) -> bool {
    &&& post.id == pre.id
    &&& post.last_seen == pre.last_seen
    &&& timed_out(pre.last_seen, now) ==> a == HeartbeatAction::Stop
        && post.state == SessionState::Stopped
    &&& !timed_out(pre.last_seen, now) ==> a == HeartbeatAction::Probe
        && post.state == pre.state
}

/// State of one subscriber session: its lifecycle phase, the registry id it
/// holds once registered, and the time of the last liveness response.
pub struct Session {
    pub state: SessionState,
    pub id: Option<usize>,
    pub last_seen: u64,
}

impl Session {
    /// A session for a freshly accepted transport connection, not yet
    /// registered.
    pub fn new(now: u64) -> (s: Session)
        ensures
            s.state == SessionState::Starting,
            s.id.is_none(),
            s.last_seen == now,
    {
        Session { state: SessionState::Starting, id: None, last_seen: now }
    }

    /// Outcome of the registration attempt made when the transport came up:
    /// with an id the session becomes active; without one it stops before
    /// delivering or receiving anything.
    pub fn on_connect_result(&mut self, result: Option<usize>) -> (a: SessionAction)
        requires
            old(self).state == SessionState::Starting,
        ensures
            final(self).last_seen == old(self).last_seen,
            match result {
                Some(id) => final(self).state == SessionState::Active
                    && final(self).id == Some(id) && a == SessionAction::Ignore,
                None => final(self).state == SessionState::Stopped
                    && final(self).id == old(self).id && a == SessionAction::Stop,
            },
    {
        match result {
            Some(id) => {
                self.state = SessionState::Active;
                self.id = Some(id);
                SessionAction::Ignore
            },
            None => {
                self.state = SessionState::Stopped;
                SessionAction::Stop
            },
        }
    }

    /// Reacts to one transport event: probes and probe responses refresh the
    /// liveness clock (a probe is answered with the same bytes), inbound data
    /// is accepted but not interpreted, and a close stops the session.
    pub fn on_transport_event(&mut self, ev: TransportEvent, now: u64) -> (a: SessionAction)
        ensures
            final(self).id == old(self).id,
            match ev {
                TransportEvent::Ping(m) => a == SessionAction::Reply(m)
                    && final(self).last_seen == now && final(self).state == old(self).state,
                TransportEvent::Pong(_) => a == SessionAction::Ignore
                    && final(self).last_seen == now && final(self).state == old(self).state,
                TransportEvent::Close => a == SessionAction::Stop
                    && final(self).state == SessionState::Stopped
                    && final(self).last_seen == old(self).last_seen,
                _ => a == SessionAction::Ignore && *final(self) == *old(self),
            },
    {
        match ev {
            TransportEvent::Ping(m) => {
                self.last_seen = now;
                SessionAction::Reply(m)
            },
            TransportEvent::Pong(_) => {
                self.last_seen = now;
                SessionAction::Ignore
            },
            TransportEvent::Close => {
                self.state = SessionState::Stopped;
                SessionAction::Stop
            },
            TransportEvent::Text(_) => SessionAction::Ignore,
            TransportEvent::Binary(_) => SessionAction::Ignore,
            TransportEvent::Nop => SessionAction::Ignore,
        }
    }

    /// One firing of the periodic heartbeat: stop the session if the remote
    /// endpoint has been silent past the timeout threshold, otherwise probe
    /// it.
    pub fn heartbeat_tick(&mut self, now: u64) -> (a: HeartbeatAction)
        ensures
            tick_rel(*old(self), now, *final(self), a),
    {
        if now >= self.last_seen && now - self.last_seen > CLIENT_TIMEOUT {
            self.state = SessionState::Stopped;
            HeartbeatAction::Stop
        } else {
            HeartbeatAction::Probe
        }
    }

    /// Terminal transition, fired when the transport goes down for any
    /// reason: the session stops and hands back the id to deregister, if it
    /// ever held one.
    pub fn on_stop(&mut self) -> (id: Option<usize>)
        ensures
            final(self).state == SessionState::Stopped,
            final(self).id == old(self).id,
            final(self).last_seen == old(self).last_seen,
            id == old(self).id,
    {
        self.state = SessionState::Stopped;
        self.id
    }
}

/// Heartbeat eviction: a session whose remote endpoint has been silent past
/// the timeout threshold is stopped by the very next heartbeat firing, and
/// the disconnect it triggers removes its id from the registry.
pub proof fn lemma_timeout_evicts<H>(
    s0: Session,
    now: u64,
    s1: Session,
    a: HeartbeatAction,
    id: usize,
    r0: Registry<H>,
    r1: Registry<H>,
)
    requires
        s0.id == Some(id),
        timed_out(s0.last_seen, now),
        tick_rel(s0, now, s1, a),
        disconnect_rel(r0, id, r1),
    ensures
        a == HeartbeatAction::Stop,
        s1.state == SessionState::Stopped,
        !r1.contains_sid(id),
{
    crate::registry::lemma_remove_id_not_contains(r0.entries@, id);
}

} // verus!
