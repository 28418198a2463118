//! The streaming inserter handle.
//!
//! The handle is the caller-facing object of the write path: it wraps each
//! submitted batch in an envelope, feeds the bounded outbound queue, and on
//! finalization drains the stream, half-closes it, and surfaces the single
//! terminal result. Exactly one pump task consumes the queue, so enqueue
//! order equals the order in which the transport observes envelopes.

use vstd::prelude::*;
use crate::envelope::{build_envelope, ColumnBatch, Envelope, Payload, RowBatch};
use crate::outcome::{spec_finish_result, interpret_outcome, Error, PumpOutcome, RpcStatus};
use crate::pump::PumpTask;
use crate::queue::OutboundQueue;

verus! {

/// A handle for streaming data inserts.
///
/// The handle owns the sending side of the outbound queue and the pump task
/// consuming it. Submissions are accepted while the task is alive; once the
/// caller finalizes the handle — which consumes it, so no later submission is
/// possible — the queue is drained, the stream half-closes, and the server's
/// single terminal response is turned into the aggregate row count.
pub struct StreamInserter {
    auth_header: Option<String>,
    dbname: String,
    queue: OutboundQueue,
    pump: PumpTask,
    submitted: Ghost<Seq<Envelope>>,
}

impl StreamInserter {
    /// The authorization credential stored at construction.
    pub closed spec fn auth_header(self) -> Option<String> {
        self.auth_header
    }

    /// The target database name stored at construction.
    pub closed spec fn dbname(self) -> String {
        self.dbname
    }

    /// The queue capacity fixed at construction.
    pub closed spec fn capacity(self) -> nat {
        self.queue.capacity()
    }

    /// The envelopes accepted so far, in submission order.
    pub closed spec fn submitted(self) -> Seq<Envelope> {
        self.submitted@
    }

    /// The envelopes still waiting in the outbound queue, oldest first.
    pub closed spec fn queued(self) -> Seq<Envelope> {
        self.queue@
    }

    /// The envelopes the transport has observed, oldest first.
    pub closed spec fn observed(self) -> Seq<Envelope> {
        self.pump.observed()
    }

    /// The terminal reply scripted for the transport at construction.
    pub closed spec fn reply(self) -> PumpOutcome {
        self.pump.reply()
    }

    /// The routing hint attached once at call setup.
    pub closed spec fn hint(self) -> Option<String> {
        self.pump.hint()
    }

    /// Whether the pump task has terminated: the stream is dead and no
    /// further submission will be delivered.
    pub closed spec fn terminated(self) -> bool {
        self.pump.terminated()
    }

    /// The outcome a terminated pump task captured.
    pub closed spec fn captured(self) -> PumpOutcome {
        self.pump.captured()
    }

    /// The envelope this handle builds around a payload.
    pub open spec fn envelope_for(self, payload: Payload) -> Envelope {
        Envelope { authorization: self.auth_header(), dbname: self.dbname(), payload }
    }

    /// Well-formedness of the session. The conservation clause is the
    /// ordering guarantee: every accepted envelope is either already
    /// observed by the transport or still queued, with no reordering, no
    /// duplication and no loss.
    pub closed spec fn wf(self) -> bool {
        &&& self.queue.wf()
        &&& self.pump.observed() + self.queue@ == self.submitted@
        &&& !self.pump.saw_end_of_input()
    }

    /// Creates a handle over a fresh stream: empty queue of the given
    /// capacity, pump task started with the scripted terminal reply and the
    /// routing hint, nothing submitted, nothing observed.
    pub fn new(
        dbname: String,
        auth_header: Option<String>,
        channel_size: usize,
        reply: PumpOutcome,
        hint: Option<String>,
    ) -> (s: StreamInserter)
        requires
            channel_size >= 1,
        ensures
            s.wf(),
            s.dbname() == dbname,
            s.auth_header() == auth_header,
            s.capacity() == channel_size,
            s.reply() == reply,
            s.hint() == hint,
            s.submitted() == Seq::<Envelope>::empty(),
            s.observed() == Seq::<Envelope>::empty(),
            s.queued() == Seq::<Envelope>::empty(),
            !s.terminated(),
    {
        StreamInserter {
            auth_header,
            dbname,
            queue: OutboundQueue::new(channel_size),
            pump: PumpTask::start(reply, hint),
            submitted: Ghost(Seq::empty()),
        }
    }

    /// Submits row-based insert requests to the stream.
    ///
    /// On a live stream the batch is wrapped in an envelope — authorization
    /// and database name cloned in, as on every envelope — and enqueued
    /// whole, after everything submitted before it. If the queue is at
    /// capacity the submission waits for the pump to drain one envelope
    /// (backpressure): it never fails for lack of room and never drops data.
    /// If the pump task has terminated, the submission is rejected with
    /// `Error::StreamingSend` and the session is left unchanged.
    pub fn row_insert(&mut self, requests: Vec<RowBatch>) -> (r: Result<(), Error>)
        requires
            old(self).wf(),
        ensures
            final(self).wf(),
            old(self).config_unchanged(*final(self)),
            old(self).terminated() ==> (r == Err::<(), Error>(Error::StreamingSend)
                && *final(self) == *old(self)),
            !old(self).terminated() ==> (r == Ok::<(), Error>(()) && !final(self).terminated()
                && final(self).submitted() == old(self).submitted().push(
                old(self).envelope_for(Payload::RowInserts(requests)),
            )),
            old(self).observed().is_prefix_of(final(self).observed()),
    {
        self.submit(Payload::RowInserts(requests))
    }

    /// Submits legacy columnar insert requests to the stream. Same contract
    /// as `row_insert`, with the legacy payload shape.
    pub fn insert(&mut self, requests: Vec<ColumnBatch>) -> (r: Result<(), Error>)
        requires
            old(self).wf(),
        ensures
            final(self).wf(),
            old(self).config_unchanged(*final(self)),
            old(self).terminated() ==> (r == Err::<(), Error>(Error::StreamingSend)
                && *final(self) == *old(self)),
            !old(self).terminated() ==> (r == Ok::<(), Error>(()) && !final(self).terminated()
                && final(self).submitted() == old(self).submitted().push(
                old(self).envelope_for(Payload::Inserts(requests)),
            )),
            old(self).observed().is_prefix_of(final(self).observed()),
    {
        self.submit(Payload::Inserts(requests))
    }

    /// The fields every operation leaves alone: header metadata is immutable
    /// for the life of the handle, and the scripted transport behavior is
    /// fixed at construction.
    pub open spec fn config_unchanged(self, post: StreamInserter) -> bool {
        &&& post.auth_header() == self.auth_header()
        &&& post.dbname() == self.dbname()
        &&& post.capacity() == self.capacity()
        &&& post.reply() == self.reply()
        &&& post.hint() == self.hint()
    }

    /// Wraps one payload and enqueues the envelope.
    fn submit(&mut self, payload: Payload) -> (r: Result<(), Error>)
        requires
            old(self).wf(),
        ensures
            final(self).wf(),
            old(self).config_unchanged(*final(self)),
            old(self).terminated() ==> (r == Err::<(), Error>(Error::StreamingSend)
                && *final(self) == *old(self)),
            !old(self).terminated() ==> (r == Ok::<(), Error>(()) && !final(self).terminated()
                && final(self).submitted() == old(self).submitted().push(
                old(self).envelope_for(payload),
            )),
            old(self).observed().is_prefix_of(final(self).observed()),
    {
        if self.pump.is_terminated() {
            return Err(Error::StreamingSend);
        }
        let envelope = build_envelope(&self.auth_header, &self.dbname, payload);
        proof {
            self.submitted@ = self.submitted@.push(envelope);
        }
        if self.queue.is_full() {
            // Backpressure: the submission waits while the pump task, which
            // runs concurrently with the caller, drains one envelope.
            let front = self.queue.dequeue();
            self.pump.consume(front);
        }
        self.queue.enqueue(envelope);
        proof {
            let o0 = old(self).observed();
            assert(o0 =~= self.pump.observed().subrange(0, o0.len() as int));
            assert(self.pump.observed() + self.queue@ =~= self.submitted@);
        }
        Ok(())
    }

    /// One scheduling step of the pump task, which runs independently of the
    /// caller: if the task is alive and an envelope is queued, the transport
    /// observes the oldest queued envelope. Returns whether the task made
    /// progress.
    pub fn pump_step(&mut self) -> (progressed: bool)
        requires
            old(self).wf(),
        ensures
            final(self).wf(),
            old(self).config_unchanged(*final(self)),
            final(self).submitted() == old(self).submitted(),
            final(self).terminated() == old(self).terminated(),
            progressed == (!old(self).terminated() && old(self).queued().len() > 0),
            progressed ==> (final(self).observed() == old(self).observed().push(
                old(self).queued()[0],
            ) && final(self).queued() == old(self).queued().drop_first()),
            !progressed ==> *final(self) == *old(self),
    {
        if !self.pump.is_terminated() && !self.queue.is_empty() {
            let front = self.queue.dequeue();
            self.pump.consume(front);
            proof {
                assert(self.pump.observed() + self.queue@ =~= self.submitted@);
            }
            true
        } else {
            false
        }
    }

    /// Simulates a transport-level failure of the call while the stream is
    /// open: the pump task terminates with the failure, and every later
    /// submission is rejected as dead-stream.
    pub fn fail_transport(&mut self, status: RpcStatus)
        requires
            old(self).wf(),
            !old(self).terminated(),
        ensures
            final(self).wf(),
            old(self).config_unchanged(*final(self)),
            final(self).terminated(),
            final(self).captured() == PumpOutcome::Failed(status),
            final(self).submitted() == old(self).submitted(),
            final(self).observed() == old(self).observed(),
            final(self).queued() == old(self).queued(),
    {
        self.pump.fail(status);
    }

    /// Simulates a crash of the pump task before it produced any outcome.
    pub fn crash_task(&mut self)
        requires
            old(self).wf(),
            !old(self).terminated(),
        ensures
            final(self).wf(),
            old(self).config_unchanged(*final(self)),
            final(self).terminated(),
            final(self).captured() == PumpOutcome::Crashed,
            final(self).submitted() == old(self).submitted(),
            final(self).observed() == old(self).observed(),
            final(self).queued() == old(self).queued(),
    {
        self.pump.crash();
    }

    /// Finalizes the stream and returns the terminal result together with
    /// the pump task, whose transport observations can then be inspected.
    ///
    /// Consuming the handle is what makes finalization happen at most once
    /// and rejects any later submission. On a live stream, every envelope
    /// still queued is delivered to the transport first — so the transport
    /// observes exactly the submitted envelopes, in submission order — then
    /// the producer side is dropped, the transport sees end-of-input, and
    /// the call resolves with the scripted terminal reply. On a dead stream
    /// nothing more is delivered and the captured outcome is reported.
    /// Either way the outcome is interpreted by `interpret_outcome`: one row
    /// count or one error, never both.
    pub fn finish_parts(self) -> (r: (Result<u32, Error>, PumpTask))
        requires
            self.wf(),
        ensures
            !self.terminated() ==> (r.1.observed() == self.submitted() && r.1.saw_end_of_input()
                && r.0 == spec_finish_result(self.reply())),
            self.terminated() ==> (r.1.observed() == self.observed() && !r.1.saw_end_of_input()
                && r.0 == spec_finish_result(self.captured())),
            r.1.terminated(),
            r.1.hint() == self.hint(),
    {
        let ghost orig = self;
        let StreamInserter { auth_header: _, dbname: _, mut queue, mut pump, submitted } = self;
        if !pump.is_terminated() {
            while !queue.is_empty()
                invariant
                    queue.wf(),
                    !pump.terminated(),
                    !pump.saw_end_of_input(),
                    pump.observed() + queue@ == submitted@,
                    pump.reply() == orig.reply(),
                    pump.hint() == orig.hint(),
                decreases queue@.len(),
            {
                let front = queue.dequeue();
                pump.consume(front);
                proof {
                    assert(pump.observed() + queue@ =~= submitted@);
                }
            }
            proof {
                assert(pump.observed() =~= pump.observed() + queue@);
            }
            pump.end_of_input();
        }
        let result = interpret_outcome(pump.outcome());
        (result, pump)
    }

    /// Finalizes the stream: drops the sending side, waits for the pump
    /// task, and returns the aggregate row count of the stream on success.
    /// See `finish_parts` for the full protocol; this form discards the
    /// transport observations.
    pub fn finish(self) -> (r: Result<u32, Error>)
        requires
            self.wf(),
        ensures
            !self.terminated() ==> r == spec_finish_result(self.reply()),
            self.terminated() ==> r == spec_finish_result(self.captured()),
    {
        let (result, _pump) = self.finish_parts();
        result
    }
}

/// The ordering law: in a well-formed session the transport has observed a
/// prefix of the submitted envelopes, in submission order, and what it has
/// not observed yet is exactly the queued remainder, still in order. Nothing
/// is reordered, duplicated or lost.
pub proof fn lemma_submission_order(s: StreamInserter)
    requires
        s.wf(),
    ensures
        s.observed() + s.queued() == s.submitted(),
        s.observed().is_prefix_of(s.submitted()),
        s.queued() == s.submitted().skip(s.observed().len() as int),
{
    assert(s.observed().is_prefix_of(s.submitted())) by {
        assert(s.observed() + s.queued() == s.submitted());
        assert forall|i: int| 0 <= i < s.observed().len() implies s.observed()[i]
            == s.submitted()[i] by {
            assert(s.submitted()[i] == (s.observed() + s.queued())[i]);
        }
    }
    assert(s.queued() =~= s.submitted().skip(s.observed().len() as int));
}

/// The backpressure law: a well-formed session never queues more envelopes
/// than its capacity, which is positive — submissions beyond capacity wait
/// instead of growing the queue, bounding memory use.
pub proof fn lemma_bounded_queue(s: StreamInserter)
    requires
        s.wf(),
    ensures
        s.queued().len() <= s.capacity(),
        s.capacity() >= 1,
{
}

} // verus!
