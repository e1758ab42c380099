//! The durable publisher's connection lifecycle, as an explicit state
//! machine, and the fixed provisioning of the durable work-queue stream.
//!
//! The boundary owns the broker handle and the background loop: it performs
//! connects, liveness polls and publishes, and feeds each outcome back as a
//! [`ConnEvent`]. The transition logic and the liveness gate live here.

use vstd::prelude::*;
use vstd::string::StringExecFns;

verus! {

/// Lifecycle of the broker connection.
#[derive(Clone, Copy, Debug, PartialEq, Eq, Structural)]
pub enum ConnState {
    Disconnected,
    Connecting,
    Connected,
}

/// What the boundary observed of the connection.
#[derive(Clone, Copy, Debug, PartialEq, Eq, Structural)]
pub enum ConnEvent {
    AttemptStarted,
    ConnectSucceeded,
    ConnectFailed,
    LivenessConfirmed,
    LivenessLost,
}

/// The transition relation: connect attempts start from disconnection,
/// succeed or fail from the connecting state, and a lost liveness check
/// drops an established connection; every other observation changes
/// nothing. The loop runs indefinitely — reconnection is always allowed.
pub open spec fn next_state(s: ConnState, ev: ConnEvent) -> ConnState {
    match (s, ev) {
        (ConnState::Disconnected, ConnEvent::AttemptStarted) => ConnState::Connecting,
        (ConnState::Connecting, ConnEvent::ConnectSucceeded) => ConnState::Connected,
        (ConnState::Connecting, ConnEvent::ConnectFailed) => ConnState::Disconnected,
        (ConnState::Connected, ConnEvent::LivenessLost) => ConnState::Disconnected,
        (other, _) => other,
    }
}

/// The connection manager: the current lifecycle state of the broker link.
pub struct ConnectionManager {
    pub state: ConnState,
}

impl ConnectionManager {
    /// A fresh manager starts disconnected.
    pub fn new() -> (r: ConnectionManager)
        ensures
            r.state == ConnState::Disconnected,
    {
        ConnectionManager { state: ConnState::Disconnected }
    }

    /// Advances the lifecycle by one observed event.
    pub fn on_event(&mut self, ev: ConnEvent)
        ensures
            final(self).state == next_state(old(self).state, ev),
    {
        self.state = match (self.state, ev) {
            (ConnState::Disconnected, ConnEvent::AttemptStarted) => ConnState::Connecting,
            (ConnState::Connecting, ConnEvent::ConnectSucceeded) => ConnState::Connected,
            (ConnState::Connecting, ConnEvent::ConnectFailed) => ConnState::Disconnected,
            (ConnState::Connected, ConnEvent::LivenessLost) => ConnState::Disconnected,
            (other, _) => other,
        };
    }

    /// The liveness gate consumed by readiness reporting and by the
    /// pre-publish guard of the single-event path.
    pub fn is_live(&self) -> (r: bool)
        ensures
            r == (self.state is Connected),
    {
        match self.state {
            ConnState::Connected => true,
            _ => false,
        }
    }
}

/// A connection is only ever established by a successful connect out of the
/// connecting state; no observation short of that can reach it.
pub proof fn lemma_connected_needs_success(s: ConnState, ev: ConnEvent)
    ensures
        next_state(s, ev) is Connected ==> (s is Connecting && ev is ConnectSucceeded) || (
        s is Connected && !(ev is LivenessLost)),
{
}

/// The fixed provisioning of the durable work-queue stream: each accepted
/// message is delivered to exactly one consumer and removed once
/// acknowledged, storage is file-backed, and capacity is bounded.
pub struct StreamSettings {
    pub name: String,
    pub subjects_pattern: String,
    pub work_queue_retention: bool,
    pub file_storage: bool,
    pub max_messages: i64,
    pub max_bytes: i64,
}

/// The stream the gateway provisions idempotently on every connect.
pub fn stream_settings() -> (r: StreamSettings)
    ensures
        r.name@ == "FACTO_EVENTS"@,
        r.subjects_pattern@ == "facto.events.>"@,
        r.work_queue_retention,
        r.file_storage,
        r.max_messages == 10000000i64,
        r.max_bytes == 10737418240i64,
{
    StreamSettings {
        name: "FACTO_EVENTS".to_owned(),
        subjects_pattern: "facto.events.>".to_owned(),
        work_queue_retention: true,
        file_storage: true,
        max_messages: 10000000,
        max_bytes: 10 * 1024 * 1024 * 1024,
    }
}

/// The destination key of an accepted event: a topic under the stream's
/// pattern, derived from the agent alone, giving per-agent grouping.
pub fn subject_for(agent_id: &str) -> (r: String)
    ensures
        r@ == "facto.events."@ + agent_id@,
{
    let mut s = "facto.events.".to_owned();
    s.append(agent_id);
    s
}

} // verus!
