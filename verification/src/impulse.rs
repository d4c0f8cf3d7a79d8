//! A pollable impulse stream: a shared event counter plus an optional parked
//! continuation. Repeated payload-free "it happened" signals become a
//! lossless, infinite sequence of ready poll results.

use vstd::prelude::*;

verus! {

/// Relies on `core::task::Waker` from std: an opaque, cheaply cloned handle
/// that resumes one suspended task. Declared so that the stream state can
/// hold the parked continuation; nothing inside the value is inspected.
#[verifier::external_type_specification]
#[verifier::external_body]
pub struct ExWaker(core::task::Waker);

/// Relies on `core::task::Waker::wake` from std: consumes the handle and
/// requests that the task it belongs to be scheduled for another poll.
/// Its effect is on the foreign executor alone, so nothing is promised here.
pub assume_specification[ core::task::Waker::wake ](w: core::task::Waker);

/// Relies on `Clone for core::task::Waker` from std: returns a handle that
/// awakens the same task as the original. Which task that is lies outside
/// this model, so nothing is promised of the returned value.
pub assume_specification[ <core::task::Waker as Clone>::clone ](
    w: &core::task::Waker,
) -> (r: core::task::Waker);

/// Mathematical state of an impulse stream: how many impulses are queued and
/// which continuation, if any, is parked awaiting the next impulse.
pub struct StreamModel {
    /// Impulses signalled but not yet delivered by a ready poll.
    pub queued: nat,
    /// The continuation stored by a poll that found the queue empty.
    pub parked: Option<core::task::Waker>,
}

/// An infinite stream of unit events. `trigger` queues one impulse (resuming
/// a parked continuation, if any); `poll_next` delivers one queued impulse,
/// or parks the caller's continuation when none is queued. The stream never
/// signals end-of-sequence.
pub struct ImpulseStream {
    pending: usize,
    waiting: Option<core::task::Waker>,
}

impl View for ImpulseStream {
    type V = StreamModel;

    closed spec fn view(&self) -> StreamModel {
        StreamModel { queued: self.pending as nat, parked: self.waiting }
    }
}

impl ImpulseStream {
    /// Create a stream with no queued impulse and no parked continuation:
    /// any poll will park until `trigger` is invoked.
    pub fn new() -> (s: Self)
        ensures
            s@.queued == 0,
            s@.parked is None,
    {
        ImpulseStream { pending: 0, waiting: None }
    }

    /// Signal one impulse: the queue grows by exactly one, and a parked
    /// continuation, if present, is removed from the slot before being
    /// resumed, so it can never be resumed twice. Safe to call with no
    /// consumer attached: impulses accumulate and are never lost.
    pub fn trigger(&mut self)
        requires
            old(self)@.queued < usize::MAX,
        ensures
            final(self)@.queued == old(self)@.queued + 1,
            final(self)@.parked is None,
    {
        self.pending = self.pending + 1;
        let parked = self.waiting.take();
        match parked {
            Some(w) => w.wake(),
            None => {}
        }
    }

    /// Callback entry point for foreign event wiring: accepts one argument
    /// of any reference type, ignores its content entirely, and has exactly
    /// the effect of a direct `trigger` call.
    pub fn triggerer<A>(&mut self, _event: &A)
        requires
            old(self)@.queued < usize::MAX,
        ensures
            final(self)@.queued == old(self)@.queued + 1,
            final(self)@.parked is None,
    {
        self.trigger()
    }

    /// Deliver one impulse if any is queued (the queue shrinks by one and the
    /// parked slot is untouched); otherwise park the caller's continuation
    /// and report not ready. A ready result is never a delivery of nothing:
    /// it is returned exactly when an impulse was queued.
    pub fn poll_next(&mut self, continuation: core::task::Waker) -> (ready: bool)
        ensures
            ready == (old(self)@.queued > 0),
            ready ==> final(self)@.queued == old(self)@.queued - 1
                && final(self)@.parked == old(self)@.parked,
            !ready ==> final(self)@.queued == 0
                && final(self)@.parked == Some(continuation),
    {
        if self.pending > 0 {
            self.pending = self.pending - 1;
            true
        } else {
            self.waiting = Some(continuation);
            false
        }
    }

    /// How many impulses are queued right now.
    pub fn queued_count(&self) -> (n: usize)
        ensures
            n as nat == self@.queued,
    {
        self.pending
    }

    /// Whether a continuation is parked awaiting the next impulse.
    pub fn has_parked(&self) -> (b: bool)
        ensures
            b == (self@.parked is Some),
    {
        self.waiting.is_some()
    }
}

/// One recorded call on an impulse stream, for reasoning about whole call
/// sequences.
#[derive(Clone, Copy, Debug)]
pub enum StreamOp {
    /// A `trigger` call.
    Trigger,
    /// A `poll_next` call.
    Poll,
}

/// How many impulses a call sequence signals.
pub open spec fn triggers_in(ops: Seq<StreamOp>) -> nat
    decreases ops.len(),
{
    if ops.len() == 0 {
        0
    } else {
        triggers_in(ops.drop_last()) + match ops.last() {
            StreamOp::Trigger => 1 as nat,
            StreamOp::Poll => 0 as nat,
        }
    }
}

/// How many impulses are still queued after a call sequence runs against a
/// stream that starts empty.
pub open spec fn queued_after(ops: Seq<StreamOp>) -> nat
    decreases ops.len(),
{
    if ops.len() == 0 {
        0
    } else {
        let q = queued_after(ops.drop_last());
        match ops.last() {
            StreamOp::Trigger => q + 1,
            StreamOp::Poll => if q > 0 { (q - 1) as nat } else { 0 },
        }
    }
}

/// How many ready results the polls in a call sequence obtain, against a
/// stream that starts empty: a poll delivers exactly when an impulse is
/// queued at that point of the sequence.
pub open spec fn delivered_after(ops: Seq<StreamOp>) -> nat
    decreases ops.len(),
{
    if ops.len() == 0 {
        0
    } else {
        let d = delivered_after(ops.drop_last());
        match ops.last() {
            StreamOp::Trigger => d,
            StreamOp::Poll => if queued_after(ops.drop_last()) > 0 { d + 1 } else { d },
        }
    }
}

/// Law: impulses are neither lost nor duplicated. Over any call sequence on
/// a stream that starts empty, every impulse signalled has either been
/// delivered by a ready poll or is still queued, and never more deliveries
/// occur than impulses were signalled at that point.
pub proof fn lemma_no_loss_no_duplication(ops: Seq<StreamOp>)
    ensures
        delivered_after(ops) + queued_after(ops) == triggers_in(ops),
        delivered_after(ops) <= triggers_in(ops),
    decreases ops.len(),
{
    if ops.len() > 0 {
        lemma_no_loss_no_duplication(ops.drop_last());
    }
}

/// Queued impulses never outnumber the calls made so far.
pub proof fn lemma_queued_bounded(ops: Seq<StreamOp>)
    ensures
        queued_after(ops) <= ops.len(),
    decreases ops.len(),
{
    if ops.len() > 0 {
        lemma_queued_bounded(ops.drop_last());
    }
}

/// Run a recorded call sequence against a live stream that starts empty and
/// count the ready results: the stream behaves exactly as the sequence model
/// says, impulse for impulse.
pub fn replay(
    stream: &mut ImpulseStream,
    ops: &Vec<StreamOp>,
    continuation: &core::task::Waker,
) -> (delivered: usize)
    requires
        old(stream)@.queued == 0,
        ops@.len() < usize::MAX,
    ensures
        final(stream)@.queued == queued_after(ops@),
        delivered == delivered_after(ops@),
{
    let mut delivered: usize = 0;
    let mut i: usize = 0;
    while i < ops.len()
        invariant
            i <= ops@.len(),
            ops@.len() < usize::MAX,
            delivered <= i,
            stream@.queued == queued_after(ops@.take(i as int)),
            delivered == delivered_after(ops@.take(i as int)),
        decreases ops@.len() - i,
    {
        proof {
            assert(ops@.take(i as int + 1).drop_last() =~= ops@.take(i as int));
            lemma_queued_bounded(ops@.take(i as int));
        }
        match ops[i] {
            StreamOp::Trigger => {
                stream.trigger();
            }
            StreamOp::Poll => {
                let ready = stream.poll_next(continuation.clone());
                if ready {
                    delivered = delivered + 1;
                }
            }
        }
        i = i + 1;
    }
    proof {
        assert(ops@.take(ops@.len() as int) =~= ops@);
    }
    delivered
}

} // verus!
