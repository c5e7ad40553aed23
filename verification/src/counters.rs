use vstd::prelude::*;

use crate::outcome::{
    count_delivered, lemma_count_delivered_le_len, lemma_count_delivered_subrange_step,
    DeliveryOutcome,
};

verus! {

/// The pipeline's delivery accounting: two monotonically increasing
/// accumulators, cumulative over the pipeline's lifetime, with no reset.
///
/// `drained` counts confirmed deliveries; `discarded` counts every other
/// outcome, submission-time rejections included. Only the dispatcher path
/// writes them; an external monitor may mirror and read snapshots at any
/// time.
pub struct Counters {
    /// Records confirmed delivered by the broker.
    pub drained: u64,
    /// Records dequeued and dispatched but not confirmed delivered.
    pub discarded: u64,
}

impl Counters {
    /// Fresh accounting: nothing drained, nothing discarded.
    pub fn new() -> (r: Counters)
        ensures
            r.drained == 0,
            r.discarded == 0,
    {
        Counters { drained: 0, discarded: 0 }
    }

    /// Account the outcomes in `[start, end)` of one cycle's outcome
    /// sequence: each delivered outcome adds one to `drained`, every other
    /// outcome adds one to `discarded`, so together they add exactly the
    /// number of outcomes accounted.
    pub fn record_outcomes_range(
        &mut self,
        outcomes: &Vec<DeliveryOutcome>,
        start: usize,
        end: usize,
    )
        requires
            start <= end <= outcomes@.len(),
            old(self).drained + (end - start) <= u64::MAX,
            old(self).discarded + (end - start) <= u64::MAX,
        ensures
            final(self).drained == old(self).drained + count_delivered(
                outcomes@.subrange(start as int, end as int),
            ),
            final(self).discarded == old(self).discarded + (end - start) - count_delivered(
                outcomes@.subrange(start as int, end as int),
            ),
    {
        let mut delivered: u64 = 0;
        let mut i: usize = start;
        proof {
            assert(outcomes@.subrange(start as int, start as int) =~= Seq::<
                DeliveryOutcome,
            >::empty());
        }
        while i < end
            invariant
                start <= i <= end <= outcomes@.len(),
                delivered == count_delivered(outcomes@.subrange(start as int, i as int)),
                delivered <= i - start,
            decreases end - i,
        {
            proof {
                lemma_count_delivered_subrange_step(outcomes@, start as int, i as int);
            }
            match &outcomes[i] {
                DeliveryOutcome::Delivered => {
                    delivered = delivered + 1;
                },
                _ => {},
            }
            i = i + 1;
        }
        self.drained = self.drained + delivered;
        self.discarded = self.discarded + ((end - start) as u64 - delivered);
    }

    /// Account all outcomes of one cycle.
    pub fn record_outcomes(&mut self, outcomes: &Vec<DeliveryOutcome>)
        requires
            old(self).drained + outcomes@.len() <= u64::MAX,
            old(self).discarded + outcomes@.len() <= u64::MAX,
        ensures
            final(self).drained == old(self).drained + count_delivered(outcomes@),
            final(self).discarded == old(self).discarded + outcomes@.len() - count_delivered(
                outcomes@,
            ),
    {
        let len = outcomes.len();
        self.record_outcomes_range(outcomes, 0, len);
        proof {
            assert(outcomes@.subrange(0, len as int) =~= outcomes@);
        }
    }
}

} // verus!
