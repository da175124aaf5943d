//! The connection supervisor: one relay session at a time, restarted
//! forever.
//!
//! The machine owns the session lifecycle. From `Disconnected` it starts
//! an attempt; a successful handshake makes the session `Active`; any
//! establishment failure or stream end puts it back to `Disconnected`
//! after a fixed delay. Retries are unconditional and unbounded: no
//! attempt limit, no backoff, no jitter. A read error inside a live
//! stream does not end the session; only the stream's own end does.

use vstd::prelude::*;

verus! {

/// Seconds to wait between the end of one session and the next attempt.
pub const RECONNECT_DELAY_SECS: u64 = 5;

/// The lifecycle of the one session the supervisor owns.
#[derive(Clone, Copy, PartialEq, Eq, Structural, Debug)]
pub enum SessionState {
    /// No session; the next step is a new attempt.
    Disconnected,
    /// An attempt is under way: transport plus protocol identification.
    Connecting,
    /// The handshake succeeded; inbound events are being consumed.
    Active,
}

/// A supervisor step: starting an attempt moves to `Connecting` and
/// counts the attempt.
pub open spec fn spec_begin(state: SessionState, attempts: nat) -> (SessionState, nat) {
    (SessionState::Connecting, attempts + 1)
}

/// A failed establishment falls back to `Disconnected`; the attempt
/// stays counted.
pub open spec fn spec_establish_failed(state: SessionState, attempts: nat) -> (SessionState, nat) {
    (SessionState::Disconnected, attempts)
}

/// The machine after `n` whole attempt-and-fail cycles from a fresh
/// start.
pub open spec fn spec_failure_run(n: nat) -> (SessionState, nat)
    decreases n,
{
    if n == 0 {
        (SessionState::Disconnected, 0)
    } else {
        let prev = spec_failure_run((n - 1) as nat);
        let begun = spec_begin(prev.0, prev.1);
        spec_establish_failed(begun.0, begun.1)
    }
}

/// Failures never exhaust the supervisor: after any `n` consecutive
/// establishment failures it stands `Disconnected` with exactly `n`
/// attempts made, and the next step begins attempt `n + 1`. Between one
/// failure and the next attempt the runner waits the fixed delay, which
/// `on_establish_failed` hands it.
pub proof fn lemma_unbounded_retry(n: nat)
    ensures
        spec_failure_run(n).0 == SessionState::Disconnected,
        spec_failure_run(n).1 == n,
        spec_begin(spec_failure_run(n).0, spec_failure_run(n).1).1 == n + 1,
    decreases n,
{
    if n > 0 {
        lemma_unbounded_retry((n - 1) as nat);
    }
}

/// Owns the lifetime of one relay session at a time. The attempt count
/// is ghost history: it exists for reasoning, not at run time.
pub struct Supervisor {
    pub state: SessionState,
    pub attempts: Ghost<nat>,
}

impl Supervisor {
    /// A fresh supervisor: no session yet, nothing attempted.
    pub fn new() -> (r: Supervisor)
        ensures
            r.state == SessionState::Disconnected,
            r.attempts@ == 0nat,
    {
        Supervisor { state: SessionState::Disconnected, attempts: Ghost(0nat) }
    }

    /// Starts one establishment attempt.
    pub fn begin_attempt(&mut self)
        requires
            old(self).state == SessionState::Disconnected,
        ensures
            (final(self).state, final(self).attempts@) == spec_begin(
                old(self).state,
                old(self).attempts@,
            ),
    {
        self.state = SessionState::Connecting;
        self.attempts = Ghost(self.attempts@ + 1);
    }

    /// The handshake and identification succeeded: the session is live.
    pub fn on_established(&mut self)
        requires
            old(self).state == SessionState::Connecting,
        ensures
            final(self).state == SessionState::Active,
            final(self).attempts@ == old(self).attempts@,
    {
        self.state = SessionState::Active;
    }

    /// The attempt failed; the runner must wait the returned number of
    /// seconds and then try again.
    pub fn on_establish_failed(&mut self) -> (delay: u64)
        requires
            old(self).state == SessionState::Connecting,
        ensures
            (final(self).state, final(self).attempts@) == spec_establish_failed(
                old(self).state,
                old(self).attempts@,
            ),
            delay == RECONNECT_DELAY_SECS,
    {
        self.state = SessionState::Disconnected;
        RECONNECT_DELAY_SECS
    }

    /// The live session's event stream ended, cleanly or not; the runner
    /// must wait the returned number of seconds and then try again.
    pub fn on_stream_ended(&mut self) -> (delay: u64)
        requires
            old(self).state == SessionState::Active,
        ensures
            final(self).state == SessionState::Disconnected,
            final(self).attempts@ == old(self).attempts@,
            delay == RECONNECT_DELAY_SECS,
    {
        self.state = SessionState::Disconnected;
        RECONNECT_DELAY_SECS
    }

    /// A single inbound read error inside a live stream: the session
    /// stays active and the loop goes on to the next event.
    pub fn on_read_error(&self) -> (keep_going: bool)
        requires
            self.state == SessionState::Active,
        ensures
            keep_going,
    {
        true
    }

    /// The current lifecycle state.
    pub fn current_state(&self) -> (s: SessionState)
        ensures
            s == self.state,
    {
        self.state
    }
}

} // verus!
