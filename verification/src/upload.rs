//! The upload bridge: the rendezvous protocol between the writing caller
//! and the background worker that performs the HTTP PUT.
//!
//! The worker and the constructor share one zero-capacity rendezvous
//! channel.  Exactly two messages ever travel on it for one bridge: first a
//! readiness-or-early-failure signal (sent by the snitch wrapper on the
//! worker's first read, or by the worker when the request dies before it
//! reads anything), then the final outcome of the PUT.  Construction
//! consumes the first, finalization the second.  This module holds the
//! verified decisions of that protocol; the pipe, the worker thread and the
//! channel itself live with the unverified surroundings that drive them.

use vstd::prelude::*;

use crate::error::Error;

verus! {

/// A message on the rendezvous channel, as the protocol sees it: which of
/// the two slots it fills, and whether it reports success.
pub enum Signal {
    /// The first slot: the worker has started reading the body (`true`) or
    /// failed before ever reading it (`false`).
    Readiness(bool),
    /// The second slot: the final outcome of the request.
    Completion(bool),
}

/// Where one bridge instance stands in the rendezvous protocol.
pub enum Phase {
    /// Constructed, first signal not yet consumed.
    AwaitingReadiness,
    /// Readiness consumed; the caller may write and must finalize.
    Streaming,
    /// The first signal reported failure; the bridge was never handed out.
    FailedEarly,
    /// The final outcome has been consumed; nothing more may happen.
    Complete,
}

/// The protocol's transition relation: which signal may be consumed in
/// which phase, and where it leads.  `None` is a protocol violation.
pub open spec fn protocol_step(p: Phase, s: Signal) -> Option<Phase> {
    match (p, s) {
        (Phase::AwaitingReadiness, Signal::Readiness(ok)) => Some(
            if ok {
                Phase::Streaming
            } else {
                Phase::FailedEarly
            },
        ),
        (Phase::Streaming, Signal::Completion(_)) => Some(Phase::Complete),
        _ => None,
    }
}

/// Consuming a whole run of signals from phase `p`: the phase it ends in,
/// or `None` as soon as a step violates the protocol.
pub open spec fn protocol_run(p: Phase, run: Seq<Signal>) -> Option<Phase>
    decreases run.len(),
{
    if run.len() == 0 {
        Some(p)
    } else {
        match protocol_step(p, run[0]) {
            Some(q) => protocol_run(q, run.drop_first()),
            None => None,
        }
    }
}

/// `FailedEarly` and `Complete` are terminal: no further signal is ever
/// legal there.
proof fn lemma_terminal_phase(p: Phase, run: Seq<Signal>)
    requires
        p is FailedEarly || p is Complete,
        protocol_run(p, run) is Some,
    ensures
        run.len() == 0,
        protocol_run(p, run) == Some(p),
{
}

/// A bridge that reaches completion has consumed exactly two signals: one
/// successful readiness signal, then one completion signal.  Observing
/// either twice, or never, cannot reach `Complete`.
pub proof fn lemma_exactly_two_signals(run: Seq<Signal>)
    requires
        protocol_run(Phase::AwaitingReadiness, run) == Some(Phase::Complete),
    ensures
        run.len() == 2,
        run[0] == Signal::Readiness(true),
        run[1] is Completion,
{
    assert(run.len() >= 1);
    let rest = run.drop_first();
    match run[0] {
        Signal::Readiness(ok) => {
            if ok {
                assert(protocol_run(Phase::Streaming, rest) == Some(Phase::Complete));
                assert(rest.len() >= 1);
                match rest[0] {
                    Signal::Completion(_) => {
                        lemma_terminal_phase(Phase::Complete, rest.drop_first());
                    },
                    Signal::Readiness(_) => {
                        assert(false);
                    },
                }
            } else {
                lemma_terminal_phase(Phase::FailedEarly, rest);
                assert(false);
            }
        },
        Signal::Completion(_) => {
            assert(false);
        },
    }
}

/// A bridge whose construction fails has consumed exactly one signal: the
/// failed readiness signal; no completion signal ever follows.
pub proof fn lemma_one_signal_on_early_failure(run: Seq<Signal>)
    requires
        protocol_run(Phase::AwaitingReadiness, run) == Some(Phase::FailedEarly),
    ensures
        run.len() == 1,
        run[0] == Signal::Readiness(false),
{
    assert(run.len() >= 1);
    let rest = run.drop_first();
    match run[0] {
        Signal::Readiness(ok) => {
            if ok {
                assert(protocol_run(Phase::Streaming, rest) == Some(Phase::FailedEarly));
                assert(rest.len() >= 1);
                match rest[0] {
                    Signal::Completion(_) => {
                        lemma_terminal_phase(Phase::Complete, rest.drop_first());
                        assert(false);
                    },
                    Signal::Readiness(_) => {
                        assert(false);
                    },
                }
            } else {
                lemma_terminal_phase(Phase::FailedEarly, rest);
            }
        },
        Signal::Completion(_) => {
            assert(false);
        },
    }
}

/// The one-time-fire flag of the snitch wrapper: the decorator around the
/// worker's byte source that reports readiness on the first read only.
pub struct SnitchFlag {
    fired: bool,
}

impl SnitchFlag {
    /// Whether the readiness signal has been sent already.
    pub closed spec fn has_fired(&self) -> bool {
        self.fired
    }

    /// A fresh flag: no signal sent yet.
    pub fn new() -> (r: SnitchFlag)
        ensures
            !r.has_fired(),
    {
        SnitchFlag { fired: false }
    }

    /// Called on every read of the decorated source; returns whether this
    /// read is the first one and must send the readiness signal.  After the
    /// first call the flag stays fired, so the signal is sent exactly once
    /// however many reads follow.
    pub fn on_read(&mut self) -> (signal: bool)
        ensures
            signal == !old(self).has_fired(),
            final(self).has_fired(),
    {
        let signal = !self.fired;
        self.fired = true;
        signal
    }
}

/// The caller's half of an upload in progress.  A value of this type
/// witnesses that the readiness signal has been consumed successfully: the
/// protocol stands in `Streaming`, and the one remaining legal move is to
/// consume the completion signal through [`HttpWriter::finish`], which takes
/// the bridge with it.
pub struct HttpWriter {
    phase: Ghost<Phase>,
}

impl HttpWriter {
    /// The protocol phase this handle stands in.
    pub closed spec fn phase(&self) -> Phase {
        self.phase@
    }

    /// Construction-time half of the rendezvous: decides the fate of the
    /// bridge from the first signal.  A successful readiness signal yields
    /// the bridge, in the streaming phase; an early failure yields that
    /// very error and no bridge, so no byte is ever written toward a
    /// request that already died.
    pub fn new(readiness: Result<(), Error>) -> (r: Result<HttpWriter, Error>)
        ensures
            r is Ok <==> readiness is Ok,
            r is Ok ==> r->Ok_0.phase() == Phase::Streaming,
            readiness is Err ==> r is Err && r->Err_0.code == readiness->Err_0.code
                && r->Err_0.message@ == readiness->Err_0.message@,
            protocol_step(Phase::AwaitingReadiness, Signal::Readiness(readiness is Ok)) == Some(
                if readiness is Ok {
                    Phase::Streaming
                } else {
                    Phase::FailedEarly
                },
            ),
    {
        match readiness {
            Ok(()) => Ok(HttpWriter { phase: Ghost(Phase::Streaming) }),
            Err(e) => Err(e),
        }
    }

    /// Finalization-time half of the rendezvous: consumes the bridge and
    /// reports the completion signal as the outcome of the whole upload,
    /// unchanged.  Taking `self` by value makes a second finalization, or a
    /// write after it, impossible.
    pub fn finish(self, completion: Result<(), Error>) -> (r: Result<(), Error>)
        requires
            self.phase() == Phase::Streaming,
        ensures
            r is Ok <==> completion is Ok,
            completion is Err ==> r is Err && r->Err_0.code == completion->Err_0.code
                && r->Err_0.message@ == completion->Err_0.message@,
            protocol_step(Phase::Streaming, Signal::Completion(completion is Ok)) == Some(
                Phase::Complete,
            ),
    {
        completion
    }
}

} // verus!
