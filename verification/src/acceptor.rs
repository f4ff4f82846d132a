//! The acceptors' decisions.
//!
//! The ingress accepts local TCP connections and retries transient accept
//! failures with an exponential backoff; the egress accepts QUIC
//! connections and, per connection, a stream at a time. The backoff
//! schedule and the per-event rules of the connection handler live here;
//! the accept calls, the sleeps and the task spawning stay with the
//! surrounding tasks.

use vstd::prelude::*;

verus! {

/// The backoff delays double from one second; when the next delay would
/// exceed this cap, the acceptor gives up and surfaces the error.
pub const MAX_ACCEPT_BACKOFF_SECS: u64 = 64;

/// What the acceptor does after a failed accept: sleep the given number
/// of seconds and retry, or abort and surface the error.
#[derive(Debug, Clone, Copy, PartialEq, Eq, Structural)]
pub enum BackoffDecision {
    Retry(u64),
    Abort,
}

/// The accept-failure backoff: a single local counter holding the next
/// delay, doubling from one second up to the cap.
pub struct AcceptBackoff {
    delay_secs: u64,
}

impl AcceptBackoff {
    /// The delay doubles from 1, so it only ever holds these values.
    #[verifier::type_invariant]
    pub closed spec fn wf(self) -> bool {
        self.delay_secs == 1 || self.delay_secs == 2 || self.delay_secs == 4 || self.delay_secs
            == 8 || self.delay_secs == 16 || self.delay_secs == 32 || self.delay_secs == 64
    }

    /// The delay the next failure would sleep, in seconds.
    pub closed spec fn delay_spec(self) -> u64 {
        self.delay_secs
    }

    pub fn new() -> (s: Self)
        ensures
            s.delay_spec() == 1,
    {
        AcceptBackoff { delay_secs: 1 }
    }

    /// A successful accept resets the backoff to one second.
    pub fn on_success(&mut self)
        ensures
            final(self).delay_spec() == 1,
    {
        self.delay_secs = 1;
    }

    /// Record one consecutive failure. While the delay is below the cap
    /// the acceptor sleeps it and doubles it; once the delay has reached
    /// the cap the next delay would exceed it, and the acceptor aborts.
    /// From a fresh backoff the decisions are thus Retry(1), Retry(2),
    /// Retry(4), Retry(8), Retry(16), Retry(32), and on the seventh
    /// consecutive failure Abort.
    pub fn on_failure(&mut self) -> (d: BackoffDecision)
        ensures
            old(self).delay_spec() < MAX_ACCEPT_BACKOFF_SECS ==> d == BackoffDecision::Retry(
                old(self).delay_spec(),
            ) && final(self).delay_spec() == 2 * old(self).delay_spec(),
            old(self).delay_spec() >= MAX_ACCEPT_BACKOFF_SECS ==> d == BackoffDecision::Abort
                && final(self).delay_spec() == old(self).delay_spec(),
    {
        proof {
            use_type_invariant(&*self);
        }
        if self.delay_secs >= MAX_ACCEPT_BACKOFF_SECS {
            BackoffDecision::Abort
        } else {
            let d = self.delay_secs;
            self.delay_secs = d * 2;
            BackoffDecision::Retry(d)
        }
    }
}

/// What the egress connection handler observed while waiting: a new
/// bidirectional stream, the stream source yielding nothing yet, the peer
/// closing the connection at the application level, any other connection
/// error, or the shutdown broadcast.
#[derive(Debug, Clone, Copy, PartialEq, Eq, Structural)]
pub enum HandlerEvent {
    StreamOpened,
    NothingYielded,
    ApplicationClosed,
    ConnectionError,
    ShutdownSignal,
}

/// What the handler does: hand the stream to a new session task, keep
/// waiting, stop cleanly after draining its children, or stop and surface
/// the error after draining its children.
#[derive(Debug, Clone, Copy, PartialEq, Eq, Structural)]
pub enum HandlerAction {
    SpawnSession,
    KeepWaiting,
    StopClean,
    StopWithError,
}

/// The handler's rule for one event: a peer application-close is a clean
/// terminal condition, any other connection error is surfaced, and the
/// shutdown broadcast stops the handler cleanly.
pub open spec fn handler_step(ev: HandlerEvent) -> HandlerAction {
    match ev {
        HandlerEvent::StreamOpened => HandlerAction::SpawnSession,
        HandlerEvent::NothingYielded => HandlerAction::KeepWaiting,
        HandlerEvent::ApplicationClosed => HandlerAction::StopClean,
        HandlerEvent::ConnectionError => HandlerAction::StopWithError,
        HandlerEvent::ShutdownSignal => HandlerAction::StopClean,
    }
}

/// Decide what the egress connection handler does with one event.
pub fn handler_on_event(ev: HandlerEvent) -> (a: HandlerAction)
    ensures
        a == handler_step(ev),
{
    match ev {
        HandlerEvent::StreamOpened => HandlerAction::SpawnSession,
        HandlerEvent::NothingYielded => HandlerAction::KeepWaiting,
        HandlerEvent::ApplicationClosed => HandlerAction::StopClean,
        HandlerEvent::ConnectionError => HandlerAction::StopWithError,
        HandlerEvent::ShutdownSignal => HandlerAction::StopClean,
    }
}

} // verus!
