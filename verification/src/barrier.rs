//! Capture barrier: counts asynchronous per-output capture completions and
//! releases the caller once every output has completed, then resets so the
//! barrier can serve the next freeze cycle.

use vstd::prelude::*;

verus! {

/// The barrier's state: the completion counter and the logical output count.
///
/// The caller loops on a blocking protocol-dispatch step and re-checks
/// [`CaptureBarrier::try_release`] after every step, since one step may
/// process any number of unrelated events.
pub struct CaptureBarrier {
    /// Completions seen in the current capture round, `0..=outputs_total`.
    pub copy_ready: usize,
    /// The number of outputs whose completions one round must gather.
    pub outputs_total: usize,
}

impl CaptureBarrier {
    /// A barrier expecting one completion from each of `total` outputs.
    pub fn new(total: usize) -> (r: Self)
        ensures
            r == (CaptureBarrier { copy_ready: 0, outputs_total: total }),
    {
        Self { copy_ready: 0, outputs_total: total }
    }

    /// Whether every expected completion has arrived.
    pub open spec fn released(self) -> bool {
        self.copy_ready == self.outputs_total
    }

    /// Records one output's terminal capture event.  Each output completes at
    /// most once per round, so the counter never passes the output count.
    pub fn on_capture_complete(&mut self)
        requires
            old(self).copy_ready < old(self).outputs_total,
        ensures
            *final(self) == (CaptureBarrier {
                copy_ready: (old(self).copy_ready + 1) as usize,
                ..*old(self)
            }),
    {
        self.copy_ready = self.copy_ready + 1;
    }

    /// One re-check of the barrier between dispatch steps: reports whether
    /// every completion has arrived, and on release resets the counter for
    /// the next round.  With fewer completions it reports `false` and changes
    /// nothing, so a wait loop never ends early.
    pub fn try_release(&mut self) -> (done: bool)
        ensures
            done == old(self).released(),
            *final(self) == if done {
                (CaptureBarrier { copy_ready: 0, ..*old(self) })
            } else {
                *old(self)
            },
    {
        if self.copy_ready == self.outputs_total {
            self.copy_ready = 0;
            true
        } else {
            false
        }
    }

    /// The counter after a round of completion events, each adding one: the
    /// step [`CaptureBarrier::on_capture_complete`] takes, folded over the
    /// events in arrival order.
    pub open spec fn count_after(start: nat, events: Seq<usize>) -> nat
        decreases events.len(),
    {
        if events.len() == 0 {
            start
        } else {
            Self::count_after(start + 1, events.drop_first())
        }
    }

    /// Each completion adds exactly one, whichever output it came from.
    pub proof fn lemma_count_after(start: nat, events: Seq<usize>)
        ensures
            Self::count_after(start, events) == start + events.len(),
        decreases events.len(),
    {
        if events.len() > 0 {
            Self::lemma_count_after(start + 1, events.drop_first());
        }
    }

    /// A fresh barrier releases after a round of completion events exactly
    /// when the round holds one event per output: after `total` completions
    /// `try_release` returns and resets the counter, and with fewer it never
    /// does.
    pub proof fn lemma_release_iff_all_complete(total: nat, events: Seq<usize>)
        ensures
            Self::count_after(0, events) == total <==> events.len() == total,
            events.len() < total ==> Self::count_after(0, events) < total,
    {
        Self::lemma_count_after(0, events);
    }

    /// Completions delivered in any permutation yield the same counter, so
    /// the outcome of a round does not depend on arrival order.
    pub proof fn lemma_order_irrelevant(events1: Seq<usize>, events2: Seq<usize>)
        requires
            events1.to_multiset() == events2.to_multiset(),
        ensures
            Self::count_after(0, events1) == Self::count_after(0, events2),
    {
        events1.to_multiset_ensures();
        events2.to_multiset_ensures();
        Self::lemma_count_after(0, events1);
        Self::lemma_count_after(0, events2);
    }
}

} // verus!
