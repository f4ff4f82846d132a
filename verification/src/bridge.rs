//! The bridge workers.
//!
//! After a successful handshake a session runs two symmetric workers: one
//! copies bytes from the TCP read half to the QUIC send half, the other
//! from the QUIC recv half to the TCP write half. Each worker here is a
//! decision machine: the surrounding task reads from the transports, hands
//! the machine one event at a time, and performs the action the machine
//! returns. The machine owns the rules of the copy loop: forward every
//! chunk verbatim, map each way a direction can end to the one close
//! action the transports need, and accept no further events afterwards.
//!
//! The transition function of each machine is a spec function, and the
//! laws proved below state, over whole event sequences, that the payload
//! is forwarded exactly and that each write half sees at most one close
//! action per session.

use vstd::prelude::*;

verus! {

/// A worker's read and write loop uses buffers of this size: an Ethernet
/// MTU of 1500 less the IPv4 overhead.
pub const TCP_BUF_SIZE: usize = 1480;

pub const QUIC_BUF_SIZE: usize = 1480;

/// Why a worker ended: its read side was exhausted or failed, its write
/// side failed, or the session was told to shut down.
#[derive(Debug, Clone, Copy, PartialEq, Eq, Structural)]
pub enum EndCause {
    SourceEof,
    SourceReadError,
    SinkWriteFailed,
    ShutdownSignal,
}

/// A worker is copying, or it has ended for the recorded cause.
#[derive(Debug, Clone, Copy, PartialEq, Eq, Structural)]
pub enum WorkerPhase {
    Running,
    Done(EndCause),
}

/// What the TCP-to-QUIC worker's task observed: a TCP read returning
/// bytes, zero (the peer half-closed), or an error; the outcome of the
/// QUIC write it was told to make; or the shutdown broadcast.
pub enum TcpToQuicEvent {
    TcpData(Vec<u8>),
    TcpEof,
    TcpReadError,
    QuicWriteOk,
    QuicWriteFailed,
    ShutdownSignal,
}

/// What the TCP-to-QUIC worker tells its task to do: write the chunk to
/// the QUIC send half, finish it, reset it with application error code 0,
/// or nothing.
pub enum TcpToQuicAction {
    ForwardToQuic(Vec<u8>),
    FinishQuic,
    ResetQuic,
    NoOp,
}

/// The transition of the TCP-to-QUIC worker: a chunk is forwarded
/// verbatim; TCP end-of-stream finishes the QUIC send half (the graceful
/// TCP-to-QUIC shutdown); a TCP read error resets it; a failed QUIC write
/// means the peer is gone and the worker just stops; the shutdown signal
/// finishes the send half. Once done, every event is ignored.
pub open spec fn t2q_step(p: WorkerPhase, ev: TcpToQuicEvent) -> (WorkerPhase, TcpToQuicAction) {
    match p {
        WorkerPhase::Done(_) => (p, TcpToQuicAction::NoOp),
        WorkerPhase::Running => match ev {
            TcpToQuicEvent::TcpData(b) => (WorkerPhase::Running, TcpToQuicAction::ForwardToQuic(b)),
            TcpToQuicEvent::TcpEof => (
                WorkerPhase::Done(EndCause::SourceEof),
                TcpToQuicAction::FinishQuic,
            ),
            TcpToQuicEvent::TcpReadError => (
                WorkerPhase::Done(EndCause::SourceReadError),
                TcpToQuicAction::ResetQuic,
            ),
            TcpToQuicEvent::QuicWriteOk => (WorkerPhase::Running, TcpToQuicAction::NoOp),
            TcpToQuicEvent::QuicWriteFailed => (
                WorkerPhase::Done(EndCause::SinkWriteFailed),
                TcpToQuicAction::NoOp,
            ),
            TcpToQuicEvent::ShutdownSignal => (
                WorkerPhase::Done(EndCause::ShutdownSignal),
                TcpToQuicAction::FinishQuic,
            ),
        },
    }
}

/// The worker copying TCP reads into the QUIC send half.
pub struct TcpToQuic {
    phase: WorkerPhase,
}

impl TcpToQuic {
    pub closed spec fn phase_spec(self) -> WorkerPhase {
        self.phase
    }

    pub fn new() -> (s: Self)
        ensures
            s.phase_spec() == WorkerPhase::Running,
    {
        TcpToQuic { phase: WorkerPhase::Running }
    }

    /// Whether the worker has ended; its task then stops reading.
    pub fn is_done(&self) -> (r: bool)
        ensures
            r == !(self.phase_spec() is Running),
    {
        !matches!(self.phase, WorkerPhase::Running)
    }

    /// Feed one event and get the action to perform, exactly as
    /// `t2q_step` maps them.
    pub fn on_event(&mut self, ev: TcpToQuicEvent) -> (a: TcpToQuicAction)
        ensures
            (final(self).phase_spec(), a) == t2q_step(old(self).phase_spec(), ev),
    {
        if !matches!(self.phase, WorkerPhase::Running) {
            return TcpToQuicAction::NoOp;
        }
        match ev {
            TcpToQuicEvent::TcpData(b) => TcpToQuicAction::ForwardToQuic(b),
            TcpToQuicEvent::TcpEof => {
                self.phase = WorkerPhase::Done(EndCause::SourceEof);
                TcpToQuicAction::FinishQuic
            },
            TcpToQuicEvent::TcpReadError => {
                self.phase = WorkerPhase::Done(EndCause::SourceReadError);
                TcpToQuicAction::ResetQuic
            },
            TcpToQuicEvent::QuicWriteOk => TcpToQuicAction::NoOp,
            TcpToQuicEvent::QuicWriteFailed => {
                self.phase = WorkerPhase::Done(EndCause::SinkWriteFailed);
                TcpToQuicAction::NoOp
            },
            TcpToQuicEvent::ShutdownSignal => {
                self.phase = WorkerPhase::Done(EndCause::ShutdownSignal);
                TcpToQuicAction::FinishQuic
            },
        }
    }
}

/// The phase and the actions of a whole run of the TCP-to-QUIC worker
/// from its start, over a sequence of events.
pub open spec fn t2q_run(evs: Seq<TcpToQuicEvent>) -> (WorkerPhase, Seq<TcpToQuicAction>)
    decreases evs.len(),
{
    if evs.len() == 0 {
        (WorkerPhase::Running, Seq::empty())
    } else {
        let (p, acts) = t2q_run(evs.drop_last());
        let (p2, a) = t2q_step(p, evs.last());
        (p2, acts.push(a))
    }
}

/// The bytes a sequence of actions forwards to the QUIC send half.
pub open spec fn t2q_forwarded(acts: Seq<TcpToQuicAction>) -> Seq<u8>
    decreases acts.len(),
{
    if acts.len() == 0 {
        Seq::empty()
    } else {
        t2q_forwarded(acts.drop_last()) + match acts.last() {
            TcpToQuicAction::ForwardToQuic(b) => b@,
            _ => Seq::empty(),
        }
    }
}

/// The bytes the worker accepted from the TCP read half: the payload of
/// every data event that arrived while the worker was still running.
pub open spec fn t2q_accepted(evs: Seq<TcpToQuicEvent>) -> Seq<u8>
    decreases evs.len(),
{
    if evs.len() == 0 {
        Seq::empty()
    } else {
        t2q_accepted(evs.drop_last()) + if t2q_run(evs.drop_last()).0 is Running {
            match evs.last() {
                TcpToQuicEvent::TcpData(b) => b@,
                _ => Seq::empty(),
            }
        } else {
            Seq::empty()
        }
    }
}

/// The payload of every data event in a sequence, accepted or not.
pub open spec fn t2q_offered(evs: Seq<TcpToQuicEvent>) -> Seq<u8>
    decreases evs.len(),
{
    if evs.len() == 0 {
        Seq::empty()
    } else {
        t2q_offered(evs.drop_last()) + match evs.last() {
            TcpToQuicEvent::TcpData(b) => b@,
            _ => Seq::empty(),
        }
    }
}

/// How many actions close the QUIC send half: a finish or a reset.
pub open spec fn t2q_close_count(acts: Seq<TcpToQuicAction>) -> nat
    decreases acts.len(),
{
    if acts.len() == 0 {
        0nat
    } else {
        t2q_close_count(acts.drop_last()) + match acts.last() {
            TcpToQuicAction::FinishQuic => 1nat,
            TcpToQuicAction::ResetQuic => 1nat,
            _ => 0nat,
        }
    }
}

/// Law: the TCP-to-QUIC worker forwards exactly the bytes it accepts, in
/// order. Whatever events its task observes, the payload pushed toward the
/// QUIC send half equals the payload taken from the TCP read half while
/// the worker ran; under a mid-stream close the forwarded stream is thus a
/// prefix of the TCP byte stream.
pub proof fn lemma_t2q_payload_preserved(evs: Seq<TcpToQuicEvent>)
    ensures
        t2q_forwarded(t2q_run(evs).1) == t2q_accepted(evs),
    decreases evs.len(),
{
    if evs.len() > 0 {
        lemma_t2q_payload_preserved(evs.drop_last());
        let (p, acts) = t2q_run(evs.drop_last());
        let (p2, a) = t2q_step(p, evs.last());
        assert(t2q_run(evs).1 == acts.push(a));
        assert(acts.push(a).drop_last() =~= acts);
        assert(acts.push(a).last() == a);
    }
}

/// Law: an uninterrupted run delivers the whole stream. If the worker is
/// still running before each event arrives, the bytes it accepts are all
/// the bytes its task read; together with `lemma_t2q_payload_preserved`,
/// the peer is sent exactly the byte stream the local client wrote.
pub proof fn lemma_t2q_complete_delivery(evs: Seq<TcpToQuicEvent>)
    requires
        forall|i: int| 0 <= i < evs.len() ==> t2q_run(#[trigger] evs.take(i)).0 is Running,
    ensures
        t2q_accepted(evs) == t2q_offered(evs),
    decreases evs.len(),
{
    if evs.len() > 0 {
        let n = evs.len() as int;
        assert forall|i: int| 0 <= i < n - 1 implies t2q_run(
            #[trigger] evs.drop_last().take(i),
        ).0 is Running by {
            assert(evs.drop_last().take(i) =~= evs.take(i));
        }
        lemma_t2q_complete_delivery(evs.drop_last());
        assert(evs.take(n - 1) =~= evs.drop_last());
        assert(t2q_run(evs.drop_last()).0 is Running);
    }
}

/// Law: the QUIC send half sees exactly one close action per session. A
/// run has issued one finish or reset if and only if it has ended for a
/// cause other than a failed QUIC write (after which the peer is gone and
/// the half is already closed), and never more than one.
pub proof fn lemma_t2q_single_close(evs: Seq<TcpToQuicEvent>)
    ensures
        t2q_close_count(t2q_run(evs).1) == match t2q_run(evs).0 {
            WorkerPhase::Running => 0nat,
            WorkerPhase::Done(EndCause::SinkWriteFailed) => 0nat,
            WorkerPhase::Done(_) => 1nat,
        },
    decreases evs.len(),
{
    if evs.len() > 0 {
        lemma_t2q_single_close(evs.drop_last());
        let (p, acts) = t2q_run(evs.drop_last());
        let (p2, a) = t2q_step(p, evs.last());
        assert(t2q_run(evs).1 == acts.push(a));
        assert(acts.push(a).drop_last() =~= acts);
        assert(acts.push(a).last() == a);
    }
}

/// Law: the shutdown broadcast stops the worker. Whatever ran before,
/// once the shutdown signal is delivered the worker is done — it attempts
/// no further reads and ignores every later event — so every spawned
/// worker returns once the broadcast reaches it.
pub proof fn lemma_t2q_shutdown_terminates(evs: Seq<TcpToQuicEvent>)
    ensures
        t2q_run(evs.push(TcpToQuicEvent::ShutdownSignal)).0 is Done,
{
    let all = evs.push(TcpToQuicEvent::ShutdownSignal);
    assert(all.drop_last() =~= evs);
}

/// What the QUIC-to-TCP worker's task observed: a QUIC read returning
/// bytes, the stream-finished signal, or an error; the outcome of the TCP
/// write it was told to make; or the shutdown broadcast.
pub enum QuicToTcpEvent {
    QuicData(Vec<u8>),
    QuicFinished,
    QuicReadError,
    TcpWriteOk,
    TcpWriteFailed,
    ShutdownSignal,
}

/// What the QUIC-to-TCP worker tells its task to do: write the chunk to
/// the TCP write half, shut that half down, tell the peer to stop sending
/// on the QUIC recv half with error code 0, or nothing.
pub enum QuicToTcpAction {
    ForwardToTcp(Vec<u8>),
    ShutdownTcp,
    StopQuic,
    NoOp,
}

/// The transition of the QUIC-to-TCP worker: a chunk is forwarded
/// verbatim; the QUIC finish signal shuts down the TCP write half (the
/// graceful QUIC-to-TCP shutdown), and so does a QUIC read error; a failed
/// TCP write asks the peer to stop sending; the shutdown signal does the
/// same. Once done, every event is ignored.
pub open spec fn q2t_step(p: WorkerPhase, ev: QuicToTcpEvent) -> (WorkerPhase, QuicToTcpAction) {
    match p {
        WorkerPhase::Done(_) => (p, QuicToTcpAction::NoOp),
        WorkerPhase::Running => match ev {
            QuicToTcpEvent::QuicData(b) => (WorkerPhase::Running, QuicToTcpAction::ForwardToTcp(b)),
            QuicToTcpEvent::QuicFinished => (
                WorkerPhase::Done(EndCause::SourceEof),
                QuicToTcpAction::ShutdownTcp,
            ),
            QuicToTcpEvent::QuicReadError => (
                WorkerPhase::Done(EndCause::SourceReadError),
                QuicToTcpAction::ShutdownTcp,
            ),
            QuicToTcpEvent::TcpWriteOk => (WorkerPhase::Running, QuicToTcpAction::NoOp),
            QuicToTcpEvent::TcpWriteFailed => (
                WorkerPhase::Done(EndCause::SinkWriteFailed),
                QuicToTcpAction::StopQuic,
            ),
            QuicToTcpEvent::ShutdownSignal => (
                WorkerPhase::Done(EndCause::ShutdownSignal),
                QuicToTcpAction::StopQuic,
            ),
        },
    }
}

/// The worker copying QUIC reads into the TCP write half.
pub struct QuicToTcp {
    phase: WorkerPhase,
}

impl QuicToTcp {
    pub closed spec fn phase_spec(self) -> WorkerPhase {
        self.phase
    }

    pub fn new() -> (s: Self)
        ensures
            s.phase_spec() == WorkerPhase::Running,
    {
        QuicToTcp { phase: WorkerPhase::Running }
    }

    /// Whether the worker has ended; its task then stops reading.
    pub fn is_done(&self) -> (r: bool)
        ensures
            r == !(self.phase_spec() is Running),
    {
        !matches!(self.phase, WorkerPhase::Running)
    }

    /// Feed one event and get the action to perform, exactly as
    /// `q2t_step` maps them.
    pub fn on_event(&mut self, ev: QuicToTcpEvent) -> (a: QuicToTcpAction)
        ensures
            (final(self).phase_spec(), a) == q2t_step(old(self).phase_spec(), ev),
    {
        if !matches!(self.phase, WorkerPhase::Running) {
            return QuicToTcpAction::NoOp;
        }
        match ev {
            QuicToTcpEvent::QuicData(b) => QuicToTcpAction::ForwardToTcp(b),
            QuicToTcpEvent::QuicFinished => {
                self.phase = WorkerPhase::Done(EndCause::SourceEof);
                QuicToTcpAction::ShutdownTcp
            },
            QuicToTcpEvent::QuicReadError => {
                self.phase = WorkerPhase::Done(EndCause::SourceReadError);
                QuicToTcpAction::ShutdownTcp
            },
            QuicToTcpEvent::TcpWriteOk => QuicToTcpAction::NoOp,
            QuicToTcpEvent::TcpWriteFailed => {
                self.phase = WorkerPhase::Done(EndCause::SinkWriteFailed);
                QuicToTcpAction::StopQuic
            },
            QuicToTcpEvent::ShutdownSignal => {
                self.phase = WorkerPhase::Done(EndCause::ShutdownSignal);
                QuicToTcpAction::StopQuic
            },
        }
    }
}

/// The phase and the actions of a whole run of the QUIC-to-TCP worker
/// from its start, over a sequence of events.
pub open spec fn q2t_run(evs: Seq<QuicToTcpEvent>) -> (WorkerPhase, Seq<QuicToTcpAction>)
    decreases evs.len(),
{
    if evs.len() == 0 {
        (WorkerPhase::Running, Seq::empty())
    } else {
        let (p, acts) = q2t_run(evs.drop_last());
        let (p2, a) = q2t_step(p, evs.last());
        (p2, acts.push(a))
    }
}

/// The bytes a sequence of actions forwards to the TCP write half.
pub open spec fn q2t_forwarded(acts: Seq<QuicToTcpAction>) -> Seq<u8>
    decreases acts.len(),
{
    if acts.len() == 0 {
        Seq::empty()
    } else {
        q2t_forwarded(acts.drop_last()) + match acts.last() {
            QuicToTcpAction::ForwardToTcp(b) => b@,
            _ => Seq::empty(),
        }
    }
}

/// The bytes the worker accepted from the QUIC recv half: the payload of
/// every data event that arrived while the worker was still running.
pub open spec fn q2t_accepted(evs: Seq<QuicToTcpEvent>) -> Seq<u8>
    decreases evs.len(),
{
    if evs.len() == 0 {
        Seq::empty()
    } else {
        q2t_accepted(evs.drop_last()) + if q2t_run(evs.drop_last()).0 is Running {
            match evs.last() {
                QuicToTcpEvent::QuicData(b) => b@,
                _ => Seq::empty(),
            }
        } else {
            Seq::empty()
        }
    }
}

/// The payload of every data event in a sequence, accepted or not.
pub open spec fn q2t_offered(evs: Seq<QuicToTcpEvent>) -> Seq<u8>
    decreases evs.len(),
{
    if evs.len() == 0 {
        Seq::empty()
    } else {
        q2t_offered(evs.drop_last()) + match evs.last() {
            QuicToTcpEvent::QuicData(b) => b@,
            _ => Seq::empty(),
        }
    }
}

/// How many actions shut down the TCP write half.
pub open spec fn q2t_close_count(acts: Seq<QuicToTcpAction>) -> nat
    decreases acts.len(),
{
    if acts.len() == 0 {
        0nat
    } else {
        q2t_close_count(acts.drop_last()) + match acts.last() {
            QuicToTcpAction::ShutdownTcp => 1nat,
            _ => 0nat,
        }
    }
}

/// How many actions ask the peer to stop sending on the QUIC recv half.
pub open spec fn q2t_stop_count(acts: Seq<QuicToTcpAction>) -> nat
    decreases acts.len(),
{
    if acts.len() == 0 {
        0nat
    } else {
        q2t_stop_count(acts.drop_last()) + match acts.last() {
            QuicToTcpAction::StopQuic => 1nat,
            _ => 0nat,
        }
    }
}

/// Law: the QUIC-to-TCP worker forwards exactly the bytes it accepts, in
/// order; under a mid-stream close the forwarded stream is a prefix of
/// what the peer sent.
pub proof fn lemma_q2t_payload_preserved(evs: Seq<QuicToTcpEvent>)
    ensures
        q2t_forwarded(q2t_run(evs).1) == q2t_accepted(evs),
    decreases evs.len(),
{
    if evs.len() > 0 {
        lemma_q2t_payload_preserved(evs.drop_last());
        let (p, acts) = q2t_run(evs.drop_last());
        let (p2, a) = q2t_step(p, evs.last());
        assert(q2t_run(evs).1 == acts.push(a));
        assert(acts.push(a).drop_last() =~= acts);
        assert(acts.push(a).last() == a);
    }
}

/// Law: an uninterrupted run delivers the whole stream the peer sent.
pub proof fn lemma_q2t_complete_delivery(evs: Seq<QuicToTcpEvent>)
    requires
        forall|i: int| 0 <= i < evs.len() ==> q2t_run(#[trigger] evs.take(i)).0 is Running,
    ensures
        q2t_accepted(evs) == q2t_offered(evs),
    decreases evs.len(),
{
    if evs.len() > 0 {
        let n = evs.len() as int;
        assert forall|i: int| 0 <= i < n - 1 implies q2t_run(
            #[trigger] evs.drop_last().take(i),
        ).0 is Running by {
            assert(evs.drop_last().take(i) =~= evs.take(i));
        }
        lemma_q2t_complete_delivery(evs.drop_last());
        assert(evs.take(n - 1) =~= evs.drop_last());
        assert(q2t_run(evs.drop_last()).0 is Running);
    }
}

/// Law: the TCP write half sees exactly one close action per session when
/// the QUIC side ended the direction (finish or read error), and never
/// more than one; when the worker ends because its own TCP write failed or
/// because of the shutdown signal, it instead tells the peer to stop
/// sending, exactly once, and the TCP half closes when it is dropped.
pub proof fn lemma_q2t_single_close(evs: Seq<QuicToTcpEvent>)
    ensures
        q2t_close_count(q2t_run(evs).1) == match q2t_run(evs).0 {
            WorkerPhase::Running => 0nat,
            WorkerPhase::Done(EndCause::SourceEof) => 1nat,
            WorkerPhase::Done(EndCause::SourceReadError) => 1nat,
            WorkerPhase::Done(_) => 0nat,
        },
        q2t_stop_count(q2t_run(evs).1) == match q2t_run(evs).0 {
            WorkerPhase::Running => 0nat,
            WorkerPhase::Done(EndCause::SinkWriteFailed) => 1nat,
            WorkerPhase::Done(EndCause::ShutdownSignal) => 1nat,
            WorkerPhase::Done(_) => 0nat,
        },
    decreases evs.len(),
{
    if evs.len() > 0 {
        lemma_q2t_single_close(evs.drop_last());
        let (p, acts) = q2t_run(evs.drop_last());
        let (p2, a) = q2t_step(p, evs.last());
        assert(q2t_run(evs).1 == acts.push(a));
        assert(acts.push(a).drop_last() =~= acts);
        assert(acts.push(a).last() == a);
    }
}

/// Law: the shutdown broadcast stops the worker, as for the other
/// direction.
pub proof fn lemma_q2t_shutdown_terminates(evs: Seq<QuicToTcpEvent>)
    ensures
        q2t_run(evs.push(QuicToTcpEvent::ShutdownSignal)).0 is Done,
{
    let all = evs.push(QuicToTcpEvent::ShutdownSignal);
    assert(all.drop_last() =~= evs);
}

} // verus!
