//! The shutdown flag.
//!
//! Every worker holds a `Shutdown`: a flag paired with its subscription to
//! the scope's broadcast channel. The owning task awaits the channel and,
//! when the broadcast arrives (or the broadcaster is dropped), marks the
//! flag; a worker that sees the flag set performs its close action and
//! returns, and must not attempt further reads.

use vstd::prelude::*;

use tokio::sync::broadcast;

verus! {

/// tokio's broadcast receiver. The library holds it only so that the
/// owning task can await the shutdown notification; nothing here reads
/// from it, so it carries no contract.
#[verifier::external_type_specification]
#[verifier::external_body]
#[verifier::reject_recursive_types(T)]
pub struct ExBroadcastReceiver<T>(broadcast::Receiver<T>);

/// Listens for the shutdown signal of one scope.
pub struct Shutdown {
    shutdown: bool,
    /// The receive half of the scope's broadcast channel; the owning task
    /// awaits it and then calls `mark_shutdown`.
    pub notify: broadcast::Receiver<()>,
}

impl Shutdown {
    pub closed spec fn is_shutdown_spec(self) -> bool {
        self.shutdown
    }

    /// A fresh subscription: no signal seen yet.
    pub fn new(notify: broadcast::Receiver<()>) -> (s: Shutdown)
        ensures
            !s.is_shutdown_spec(),
    {
        Shutdown { shutdown: false, notify }
    }

    /// Whether the shutdown signal has been received.
    pub fn is_shutdown(&self) -> (r: bool)
        ensures
            r == self.is_shutdown_spec(),
    {
        self.shutdown
    }

    /// Record that the broadcast arrived; from here on `is_shutdown`
    /// stays true.
    pub fn mark_shutdown(&mut self)
        ensures
            final(self).is_shutdown_spec(),
    {
        self.shutdown = true;
    }
}

} // verus!
