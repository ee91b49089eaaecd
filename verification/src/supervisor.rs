//! The decisions of the connection loop: when to connect, when to announce a
//! reconnection, when to retry, when to give up and when to shut down.
//!
//! The loop itself (opening the websocket, sleeping between attempts, running
//! the reader, writer and close-watcher tasks) belongs to the caller: it asks
//! [`Supervisor::next_step`] what to do, reports the outcome of each
//! connection attempt and how each session ended, and publishes
//! [`Supervisor::connected`] as the client's connection state.
//!
//! Budget: the first attempt is free; every later attempt (after a failed
//! one, or after a lost connection) is a reconnection attempt, and at most
//! `max_retry_attempts` of them are made in a row. When they are spent, or a
//! close is requested, the loop shuts down: the client is marked disconnected
//! and every subscription ends.
use std::time::Duration;

use vstd::prelude::*;

use crate::config::ClientConfig;
use crate::error::PaleError;

verus! {

/// Requests and subscriptions need a live connection: they fail with
/// `ClientDisconnected` without one.
pub fn require_connected(connected: bool) -> (r: Result<(), PaleError>)
    ensures
        r == if connected {
            Ok(())
        } else {
            Err(PaleError::ClientDisconnected)
        },
{
    if connected {
        Ok(())
    } else {
        Err(PaleError::ClientDisconnected)
    }
}

/// Connecting needs the client to be disconnected: it fails with
/// `ClientAlreadyConnected` otherwise.
pub fn require_disconnected(connected: bool) -> (r: Result<(), PaleError>)
    ensures
        r == if connected {
            Err(PaleError::ClientAlreadyConnected)
        } else {
            Ok(())
        },
{
    if connected {
        Err(PaleError::ClientAlreadyConnected)
    } else {
        Ok(())
    }
}

/// What waiting for a connection state does next.
#[derive(Debug, Clone, Copy, PartialEq, Eq, Structural)]
pub enum WaitStep {
    /// The connection state is the one waited for: stop waiting.
    Reached,
    /// Not yet: look again after this many milliseconds.
    Recheck { after_millis: u64 },
}

/// How often a wait for a connection state looks at the state again.
pub const WAIT_RECHECK_MILLIS: u64 = 100;

/// Waiting for the connection state `wanted`: done at once when the state
/// `connected` already is the one wanted, else look again after 100 ms.
pub fn wait_step(connected: bool, wanted: bool) -> (r: WaitStep)
    ensures
        connected == wanted ==> r == WaitStep::Reached,
        connected != wanted ==> r == (WaitStep::Recheck { after_millis: WAIT_RECHECK_MILLIS }),
{
    if connected == wanted {
        WaitStep::Reached
    } else {
        WaitStep::Recheck { after_millis: WAIT_RECHECK_MILLIS }
    }
}

/// Where the connection loop stands.
#[derive(Debug, Clone, Copy, PartialEq, Eq, Structural)]
pub enum Phase {
    /// At the top of the loop: the next step has to be asked for.
    Idle,
    /// A connection attempt is under way.
    Connecting,
    /// Connected: a session is running.
    Serving,
    /// The loop is over.
    Stopped,
}

/// What the connection loop does next.
#[derive(Debug, Clone, Copy, PartialEq, Eq, Structural)]
pub enum NextStep {
    /// Try to open the websocket.
    Connect,
    /// Mark the client disconnected, end every subscription and stop.
    Shutdown,
}

/// What the loop does after a failed connection attempt.
#[derive(Debug, Clone, Copy, PartialEq, Eq)]
pub enum AfterFailure {
    /// Wait this long, then ask for the next step.
    Retry(Duration),
    /// The reconnection attempts are spent: ask for the next step at once
    /// (it is to shut down).
    GiveUp,
}

/// How a connected session ended.
#[derive(Debug, Clone, Copy, PartialEq, Eq, Structural)]
pub enum SessionEnd {
    /// The task that reads from the socket finished: the connection dropped,
    /// the server closed it, or a message could not be read.
    ReaderFinished,
    /// The task that writes requests to the socket finished.
    WriterFinished,
    /// The task that waits for a close request finished: with `Some(true)`
    /// when a close was requested, `Some(false)` when the close channel
    /// ended, and `None` when the task itself failed.
    CloseWatcherFinished(Option<bool>),
}

/// The state of the connection loop.
pub struct Supervisor {
    max_retry_attempts: i32,
    retry_delay: Duration,
    reconnect_attempts: i32,
    reconnecting: bool,
    has_connected: bool,
    close_requested: bool,
    connected: bool,
    phase: Phase,
    connections: Ghost<nat>,
}

/// The state of the connection loop, as mathematical values.
pub struct SupervisorView {
    /// The configured `max_retry_attempts`.
    pub max_retry_attempts: int,
    /// The configured delay between attempts.
    pub retry_delay: Duration,
    /// How many reconnection attempts have been made since the last
    /// successful connection (or the start).
    pub reconnect_attempts: int,
    /// The next attempt is a reconnection attempt: an attempt failed, or a
    /// connection was lost, since the last successful connection.
    pub reconnecting: bool,
    /// A connection was made at some point.
    pub has_connected: bool,
    /// A close was requested: the next step is to shut down.
    pub close_requested: bool,
    /// The connection state that the client publishes: a socket is open.
    pub connected: bool,
    pub phase: Phase,
    /// How many connections have been made so far.
    pub connections: nat,
}

impl View for Supervisor {
    type V = SupervisorView;

    closed spec fn view(&self) -> SupervisorView {
        SupervisorView {
            max_retry_attempts: self.max_retry_attempts as int,
            retry_delay: self.retry_delay,
            reconnect_attempts: self.reconnect_attempts as int,
            reconnecting: self.reconnecting,
            has_connected: self.has_connected,
            close_requested: self.close_requested,
            connected: self.connected,
            phase: self.phase,
            connections: self.connections@,
        }
    }
}

/// The state before the loop starts.
pub open spec fn initial(max_retry_attempts: int, retry_delay: Duration) -> SupervisorView {
    SupervisorView {
        max_retry_attempts,
        retry_delay,
        reconnect_attempts: 0,
        reconnecting: false,
        has_connected: false,
        close_requested: false,
        connected: false,
        phase: Phase::Idle,
        connections: 0,
    }
}

/// No reconnection attempt is left.
pub open spec fn exhausted(v: SupervisorView) -> bool {
    v.reconnecting && v.reconnect_attempts >= v.max_retry_attempts
}

/// The top of the loop: shut down once a close was requested or the
/// reconnection attempts are spent (marking the client disconnected), else
/// connect, counting the attempt when it is a reconnection.
pub open spec fn step_next(v: SupervisorView) -> (SupervisorView, NextStep) {
    if v.close_requested || exhausted(v) {
        (SupervisorView { connected: false, phase: Phase::Stopped, ..v }, NextStep::Shutdown)
    } else {
        (
            SupervisorView {
                reconnect_attempts: if v.reconnecting {
                    v.reconnect_attempts + 1
                } else {
                    v.reconnect_attempts
                },
                phase: Phase::Connecting,
                ..v
            },
            NextStep::Connect,
        )
    }
}

/// A connection attempt succeeded: the client is connected, the reconnection
/// budget starts over, and the connection is announced as a reconnection
/// exactly when a connection was made before.
pub open spec fn step_connected(v: SupervisorView) -> (SupervisorView, bool) {
    (
        SupervisorView {
            reconnect_attempts: 0,
            reconnecting: false,
            has_connected: true,
            connected: true,
            phase: Phase::Serving,
            connections: v.connections + 1,
            ..v
        },
        v.has_connected,
    )
}

/// A connection attempt failed: the client is disconnected and the next
/// attempt is a reconnection; wait the retry delay if one is left, else give
/// up.
pub open spec fn step_failed(v: SupervisorView) -> (SupervisorView, AfterFailure) {
    let w = SupervisorView { reconnecting: true, connected: false, phase: Phase::Idle, ..v };
    (w, if exhausted(w) {
        AfterFailure::GiveUp
    } else {
        AfterFailure::Retry(v.retry_delay)
    })
}

/// The session ended a close was requested (by the close watcher).
pub open spec fn close_was_requested(end: SessionEnd) -> bool {
    end == SessionEnd::CloseWatcherFinished(Some(true))
}

/// A session ended: the socket is gone, so the client is disconnected; the
/// next attempt is a reconnection with a fresh budget, unless a close was
/// requested. The loss is announced unless a close was requested.
pub open spec fn step_session_end(v: SupervisorView, end: SessionEnd) -> (SupervisorView, bool) {
    (
        SupervisorView {
            close_requested: close_was_requested(end),
            reconnecting: true,
            reconnect_attempts: 0,
            connected: false,
            phase: Phase::Idle,
            ..v
        },
        !close_was_requested(end),
    )
}

/// What every reachable state satisfies.
pub open spec fn reachable(v: SupervisorView) -> bool {
    &&& 0 <= v.reconnect_attempts
    &&& v.reconnect_attempts > 0 ==> v.reconnect_attempts <= v.max_retry_attempts && v.reconnecting
    &&& v.has_connected <==> v.connections > 0
    &&& v.connected ==> v.phase == Phase::Serving
    &&& v.phase == Phase::Serving ==> v.connected && v.has_connected
    &&& (v.phase == Phase::Connecting || v.phase == Phase::Serving) ==> !v.close_requested
}

/// One round of the loop whose connection attempt fails.
pub open spec fn failed_round(v: SupervisorView) -> (SupervisorView, AfterFailure) {
    step_failed(step_next(v).0)
}

/// The state after `n` rounds whose connection attempts fail.
pub open spec fn after_failed_rounds(v: SupervisorView, n: nat) -> SupervisorView
    decreases n,
{
    if n == 0 {
        v
    } else {
        failed_round(after_failed_rounds(v, (n - 1) as nat)).0
    }
}

/// How many reconnection attempts are left in `v`.
pub open spec fn attempts_left(v: SupervisorView) -> int {
    if v.max_retry_attempts - v.reconnect_attempts > 0 {
        v.max_retry_attempts - v.reconnect_attempts
    } else {
        0
    }
}

proof fn lemma_failed_rounds(v: SupervisorView, n: nat)
    requires
        v.phase == Phase::Idle,
        !v.close_requested,
        v.reconnecting,
        !v.connected,
        n <= attempts_left(v),
    ensures
        after_failed_rounds(v, n).phase == Phase::Idle,
        !after_failed_rounds(v, n).close_requested,
        !after_failed_rounds(v, n).connected,
        after_failed_rounds(v, n).reconnecting,
        after_failed_rounds(v, n).reconnect_attempts == v.reconnect_attempts + n,
        after_failed_rounds(v, n).max_retry_attempts == v.max_retry_attempts,
        after_failed_rounds(v, n).retry_delay == v.retry_delay,
    decreases n,
{
    if n > 0 {
        lemma_failed_rounds(v, (n - 1) as nat);
    }
}

/// Reconnection budget: from the top of the loop, once reconnecting and
/// with no close requested, while every attempt fails the loop makes exactly
/// the attempts left (at most `max_retry_attempts`), waiting the retry delay
/// after each failure but the last; then it shuts down, with the client
/// marked disconnected.
pub proof fn law_reconnection_budget(v: SupervisorView)
    requires
        reachable(v),
        v.phase == Phase::Idle,
        !v.close_requested,
        v.reconnecting,
    ensures
        attempts_left(v) <= if v.max_retry_attempts > 0 { v.max_retry_attempts } else { 0 },
        forall|k: nat| k < attempts_left(v) ==> #[trigger] step_next(after_failed_rounds(v, k)).1 == NextStep::Connect,
        forall|k: nat| k + 1 < attempts_left(v) ==> #[trigger] failed_round(after_failed_rounds(v, k)).1 == AfterFailure::Retry(v.retry_delay),
        attempts_left(v) > 0 ==> failed_round(after_failed_rounds(v, (attempts_left(v) - 1) as nat)).1 == AfterFailure::GiveUp,
        step_next(after_failed_rounds(v, attempts_left(v) as nat)).1 == NextStep::Shutdown,
        !step_next(after_failed_rounds(v, attempts_left(v) as nat)).0.connected,
        step_next(after_failed_rounds(v, attempts_left(v) as nat)).0.phase == Phase::Stopped,
{
    assert forall|k: nat| k < attempts_left(v) implies #[trigger] step_next(after_failed_rounds(v, k)).1 == NextStep::Connect by {
        lemma_failed_rounds(v, k);
    }
    assert forall|k: nat| k + 1 < attempts_left(v) implies #[trigger] failed_round(after_failed_rounds(v, k)).1 == AfterFailure::Retry(v.retry_delay) by {
        lemma_failed_rounds(v, k);
    }
    if attempts_left(v) > 0 {
        lemma_failed_rounds(v, (attempts_left(v) - 1) as nat);
    }
    lemma_failed_rounds(v, attempts_left(v) as nat);
}

/// A lost connection (any session end but a requested close) marks the
/// client disconnected at once, is announced, and starts a reconnection
/// phase with the full budget of `max_retry_attempts` attempts (none when it
/// is not positive: the loop then shuts down at once).
pub proof fn law_lost_connection(v: SupervisorView, end: SessionEnd)
    requires
        reachable(v),
        v.phase == Phase::Serving,
        !close_was_requested(end),
    ensures
        !step_session_end(v, end).0.connected,
        step_session_end(v, end).1,
        step_session_end(v, end).0.phase == Phase::Idle,
        !step_session_end(v, end).0.close_requested,
        step_session_end(v, end).0.reconnecting,
        attempts_left(step_session_end(v, end).0) == if v.max_retry_attempts > 0 {
            v.max_retry_attempts
        } else {
            0
        },
        v.max_retry_attempts <= 0 ==> step_next(step_session_end(v, end).0).1 == NextStep::Shutdown,
{
}

/// The first attempt is not a reconnection attempt: it is made whatever
/// `max_retry_attempts` is, and when it fails the loop starts reconnecting
/// with the full budget.
pub proof fn law_first_attempt(max_retry_attempts: int, retry_delay: Duration)
    ensures
        step_next(initial(max_retry_attempts, retry_delay)).1 == NextStep::Connect,
        step_next(initial(max_retry_attempts, retry_delay)).0.reconnect_attempts == 0,
        failed_round(initial(max_retry_attempts, retry_delay)).0.reconnecting,
        attempts_left(failed_round(initial(max_retry_attempts, retry_delay)).0) == if max_retry_attempts > 0 {
            max_retry_attempts
        } else {
            0
        },
{
}

/// The configuration is kept: no step of the loop changes its reconnection
/// budget or its retry delay, and every retry waits that delay. With
/// [`Supervisor::new`] the delay is the config's `retry_connection`, so every
/// `Retry` carries `retry_connection`.
pub proof fn law_configuration_is_kept(v: SupervisorView, end: SessionEnd)
    ensures
        step_next(v).0.retry_delay == v.retry_delay,
        step_next(v).0.max_retry_attempts == v.max_retry_attempts,
        step_connected(v).0.retry_delay == v.retry_delay,
        step_connected(v).0.max_retry_attempts == v.max_retry_attempts,
        step_failed(v).0.retry_delay == v.retry_delay,
        step_failed(v).0.max_retry_attempts == v.max_retry_attempts,
        step_failed(v).1 is GiveUp || step_failed(v).1 == AfterFailure::Retry(v.retry_delay),
        step_session_end(v, end).0.retry_delay == v.retry_delay,
        step_session_end(v, end).0.max_retry_attempts == v.max_retry_attempts,
        forall|m: int, d: std::time::Duration| #[trigger] initial(m, d).retry_delay == d && initial(m, d).max_retry_attempts == m,
{
}

/// A requested close ends the loop: once the close watcher reports a close
/// request, the next step is to shut down, which stops the loop and marks the
/// client disconnected; the close itself is not announced as a loss.
pub proof fn law_close_request_shuts_down(v: SupervisorView)
    requires
        v.phase == Phase::Serving,
    ensures
        !step_session_end(v, SessionEnd::CloseWatcherFinished(Some(true))).1,
        step_next(step_session_end(v, SessionEnd::CloseWatcherFinished(Some(true))).0).1 == NextStep::Shutdown,
        step_next(step_session_end(v, SessionEnd::CloseWatcherFinished(Some(true))).0).0.phase == Phase::Stopped,
        !step_next(step_session_end(v, SessionEnd::CloseWatcherFinished(Some(true))).0).0.connected,
{
}

/// The first successful connection is never announced as a reconnection,
/// however many attempts failed before it; every later successful
/// connection is.
pub proof fn law_reconnection_announcement(v: SupervisorView)
    requires
        reachable(v),
        v.phase == Phase::Connecting,
    ensures
        v.connections == 0 ==> !step_connected(v).1,
        v.connections > 0 ==> step_connected(v).1,
{
}

/// Only a socket makes the client connected: in every reachable state the
/// published state is `true` only while a session is running.
pub proof fn law_connected_only_while_serving(v: SupervisorView)
    requires
        reachable(v),
    ensures
        v.connected ==> v.phase == Phase::Serving,
{
}

impl Supervisor {
    #[verifier::type_invariant]
    spec fn well_formed(&self) -> bool {
        reachable(self@)
    }

    /// The loop's state before its first step, with the budget and the delay
    /// of `config`.
    pub fn new(config: &ClientConfig) -> (r: Self)
        ensures
            r@ == initial(config.max_retry_attempts as int, config.retry_connection),
    {
        Supervisor {
            max_retry_attempts: config.max_retry_attempts,
            retry_delay: config.retry_connection,
            reconnect_attempts: 0,
            reconnecting: false,
            has_connected: false,
            close_requested: false,
            connected: false,
            phase: Phase::Idle,
            connections: Ghost(0),
        }
    }

    /// The connection state to publish.
    pub fn connected(&self) -> (r: bool)
        ensures
            r == self@.connected,
    {
        self.connected
    }

    /// Where the loop stands.
    pub fn phase(&self) -> (r: Phase)
        ensures
            r == self@.phase,
    {
        self.phase
    }

    /// How many reconnection attempts have been made since the last
    /// successful connection.
    pub fn reconnect_attempts(&self) -> (r: i32)
        ensures
            r as int == self@.reconnect_attempts,
    {
        self.reconnect_attempts
    }

    /// The top of the loop.
    pub fn next_step(&mut self) -> (r: NextStep)
        requires
            old(self)@.phase == Phase::Idle,
        ensures
            (final(self)@, r) == step_next(old(self)@),
    {
        proof {
            use_type_invariant(&*self);
        }
        if self.close_requested || (self.reconnecting && self.reconnect_attempts >= self.max_retry_attempts) {
            *self = Supervisor { connected: false, phase: Phase::Stopped, ..*self };
            NextStep::Shutdown
        } else {
            let reconnect_attempts = if self.reconnecting {
                self.reconnect_attempts + 1
            } else {
                self.reconnect_attempts
            };
            *self = Supervisor { reconnect_attempts, phase: Phase::Connecting, ..*self };
            NextStep::Connect
        }
    }

    /// A connection attempt succeeded. Returns whether to announce it as a
    /// reconnection.
    pub fn on_connected(&mut self) -> (announce_reconnect: bool)
        requires
            old(self)@.phase == Phase::Connecting,
        ensures
            (final(self)@, announce_reconnect) == step_connected(old(self)@),
            announce_reconnect == (old(self)@.connections > 0),
    {
        proof {
            use_type_invariant(&*self);
        }
        let announce_reconnect = self.has_connected;
        *self = Supervisor {
            reconnect_attempts: 0,
            reconnecting: false,
            has_connected: true,
            connected: true,
            phase: Phase::Serving,
            connections: Ghost(self.connections@ + 1),
            ..*self
        };
        announce_reconnect
    }

    /// A connection attempt failed.
    pub fn on_connect_failed(&mut self) -> (r: AfterFailure)
        requires
            old(self)@.phase == Phase::Connecting,
        ensures
            (final(self)@, r) == step_failed(old(self)@),
    {
        proof {
            use_type_invariant(&*self);
        }
        *self = Supervisor { reconnecting: true, connected: false, phase: Phase::Idle, ..*self };
        if self.reconnect_attempts >= self.max_retry_attempts {
            AfterFailure::GiveUp
        } else {
            AfterFailure::Retry(self.retry_delay)
        }
    }

    /// A session ended. Returns whether to announce the loss of the
    /// connection.
    pub fn on_session_end(&mut self, end: SessionEnd) -> (announce_disconnect: bool)
        requires
            old(self)@.phase == Phase::Serving,
        ensures
            (final(self)@, announce_disconnect) == step_session_end(old(self)@, end),
    {
        proof {
            use_type_invariant(&*self);
        }
        let close_requested = match end {
            SessionEnd::CloseWatcherFinished(Some(true)) => true,
            _ => false,
        };
        *self = Supervisor {
            close_requested,
            reconnecting: true,
            reconnect_attempts: 0,
            connected: false,
            phase: Phase::Idle,
            ..*self
        };
        !close_requested
    }
}

} // verus!
