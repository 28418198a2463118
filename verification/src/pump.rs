//! The stream pump task and the transport it drives.
//!
//! One pump task exists per inserter handle. It owns the receiving side of
//! the outbound queue and the bidirectional call: every envelope it consumes
//! is observed by the transport in consumption order, and after end-of-input
//! the call resolves with a single terminal outcome, captured exactly once.
//!
//! This is an executable model of the background task: the terminal reply is
//! scripted at construction, standing for whatever the remote end will answer,
//! and the transitions below are the ones the real task can take. There is no
//! transition out of the completed state.

use vstd::prelude::*;
use crate::envelope::Envelope;
use crate::outcome::{PumpOutcome, RpcStatus};

verus! {

/// The lifecycle of the pump task: constructed but not yet polled, forwarding
/// envelopes with the call in flight, or terminated with a captured outcome.
#[derive(Debug, PartialEq, Eq)]
pub enum PumpState {
    Idle,
    Streaming,
    Completed(PumpOutcome),
}

/// The background task driving the bidirectional call, together with the
/// transport's view of the stream: which envelopes it has observed, and
/// whether it has seen end-of-input.
#[derive(Debug)]
pub struct PumpTask {
    observed: Vec<Envelope>,
    saw_end_of_input: bool,
    reply: PumpOutcome,
    hint: Option<String>,
    state: PumpState,
}

impl PumpTask {
    /// The envelopes the transport has observed, oldest first.
    pub closed spec fn observed(self) -> Seq<Envelope> {
        self.observed@
    }

    /// Whether the transport has seen the half-close that signals no more
    /// data.
    pub closed spec fn saw_end_of_input(self) -> bool {
        self.saw_end_of_input
    }

    /// The outcome the call resolves with once the stream runs to completion.
    pub closed spec fn reply(self) -> PumpOutcome {
        self.reply
    }

    /// The routing hint attached once at call setup.
    pub closed spec fn hint(self) -> Option<String> {
        self.hint
    }

    /// The task's lifecycle state.
    pub closed spec fn state(self) -> PumpState {
        self.state
    }

    /// Whether the task has terminated: its outcome is captured and it
    /// consumes no further envelope.
    pub open spec fn terminated(self) -> bool {
        self.state() is Completed
    }

    /// The outcome a terminated task captured.
    pub open spec fn captured(self) -> PumpOutcome
        recommends
            self.terminated(),
    {
        self.state()->Completed_0
    }

    /// Starts the task: nothing observed yet, no end-of-input seen, the given
    /// terminal reply scripted, and the routing hint attached once at call
    /// setup.
    pub fn start(reply: PumpOutcome, hint: Option<String>) -> (t: PumpTask)
        ensures
            t.observed() == Seq::<Envelope>::empty(),
            !t.saw_end_of_input(),
            t.reply() == reply,
            t.hint() == hint,
            t.state() == PumpState::Idle,
    {
        PumpTask { observed: Vec::new(), saw_end_of_input: false, reply, hint, state: PumpState::Idle }
    }

    /// Whether the task has terminated, as executable code.
    pub fn is_terminated(&self) -> (b: bool)
        ensures
            b == self.terminated(),
    {
        match self.state {
            PumpState::Completed(_) => true,
            _ => false,
        }
    }

    /// The task consumes one envelope from the queue and feeds it to the
    /// call: the transport observes it after everything observed before.
    pub fn consume(&mut self, e: Envelope)
        requires
            !old(self).terminated(),
            !old(self).saw_end_of_input(),
        ensures
            final(self).observed() == old(self).observed().push(e),
            final(self).state() == PumpState::Streaming,
            !final(self).saw_end_of_input(),
            final(self).reply() == old(self).reply(),
            final(self).hint() == old(self).hint(),
    {
        self.observed.push(e);
        self.state = PumpState::Streaming;
    }

    /// The task observes end-of-input: the producer side of the queue is
    /// gone, the transport half-closes, and the call resolves with the
    /// scripted terminal reply, captured as the task's outcome.
    pub fn end_of_input(&mut self)
        requires
            !old(self).terminated(),
        ensures
            final(self).saw_end_of_input(),
            final(self).terminated(),
            final(self).captured() == old(self).reply(),
            final(self).observed() == old(self).observed(),
            final(self).reply() == old(self).reply(),
            final(self).hint() == old(self).hint(),
    {
        self.saw_end_of_input = true;
        let reply = clone_outcome(&self.reply);
        self.state = PumpState::Completed(reply);
    }

    /// The call fails at the transport level while the stream is still open:
    /// the task terminates with the failure, without seeing end-of-input.
    pub fn fail(&mut self, status: RpcStatus)
        requires
            !old(self).terminated(),
        ensures
            final(self).terminated(),
            final(self).captured() == PumpOutcome::Failed(status),
            final(self).saw_end_of_input() == old(self).saw_end_of_input(),
            final(self).observed() == old(self).observed(),
            final(self).reply() == old(self).reply(),
            final(self).hint() == old(self).hint(),
    {
        self.state = PumpState::Completed(PumpOutcome::Failed(status));
    }

    /// The task crashes before producing any outcome.
    pub fn crash(&mut self)
        requires
            !old(self).terminated(),
        ensures
            final(self).terminated(),
            final(self).captured() == PumpOutcome::Crashed,
            final(self).saw_end_of_input() == old(self).saw_end_of_input(),
            final(self).observed() == old(self).observed(),
            final(self).reply() == old(self).reply(),
            final(self).hint() == old(self).hint(),
    {
        self.state = PumpState::Completed(PumpOutcome::Crashed);
    }

    /// The captured outcome of a terminated task, retrieved by finalization.
    pub fn outcome(&self) -> (o: &PumpOutcome)
        requires
            self.terminated(),
        ensures
            *o == self.captured(),
    {
        match &self.state {
            PumpState::Completed(o) => o,
            _ => unreached(),
        }
    }

    /// The observed envelopes, for inspection of the transport's view.
    pub fn observations(&self) -> (v: &Vec<Envelope>)
        ensures
            v@ == self.observed(),
    {
        &self.observed
    }

    /// The routing hint attached at call setup, for inspection.
    pub fn routing_hint(&self) -> (h: &Option<String>)
        ensures
            *h == self.hint(),
    {
        &self.hint
    }

    /// Whether the transport has seen end-of-input, as executable code.
    pub fn has_seen_end_of_input(&self) -> (b: bool)
        ensures
            b == self.saw_end_of_input(),
    {
        self.saw_end_of_input
    }
}

/// Copies a terminal outcome field for field.
fn clone_outcome(o: &PumpOutcome) -> (r: PumpOutcome)
    ensures
        r == *o,
{
    match o {
        PumpOutcome::Resolved(resp) => PumpOutcome::Resolved(crate::outcome::ServerResponse {
            affected_rows: match resp.affected_rows {
                Some(n) => Some(n),
                None => None,
            },
        }),
        PumpOutcome::Failed(status) => PumpOutcome::Failed(RpcStatus {
            code: status.code,
            message: status.message.clone(),
        }),
        PumpOutcome::Crashed => PumpOutcome::Crashed,
    }
}

} // verus!
