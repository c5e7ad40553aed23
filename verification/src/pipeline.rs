use vstd::prelude::*;

use crate::config::{BATCH_SIZE, IDLE_ESCALATION_THRESHOLD};
use crate::counters::Counters;
use crate::dispatch::{cycle_outcomes, lemma_merged_len};
use crate::idle::{CycleDelay, IdleController};
use crate::outcome::{
    count_accepted, count_delivered, lemma_count_delivered_concat, lemma_count_delivered_le_len,
    merged_outcomes, AwaitOutcome, DeliveryOutcome, FatalError, SubmitOutcome,
};
use crate::record::{DecodedRecord, ResolvedRecord};
use crate::resolver::{batch_routable, chosen_topic, override_view, resolve_batch, resolve_topic};

verus! {

/// `c` is the number of cycles needed to process `n` records in batches of
/// at most `BATCH_SIZE`: zero for an empty queue, otherwise the least `c`
/// with `n <= c * BATCH_SIZE` — the ceiling of `n / BATCH_SIZE`.
pub open spec fn is_cycle_count(n: int, c: int) -> bool {
    if n == 0 {
        c == 0
    } else {
        (c - 1) * (BATCH_SIZE as int) < n <= c * (BATCH_SIZE as int)
    }
}

/// The publish pipeline's state: the connector-level topic override it was
/// configured with, the idle/backpressure controller, and the delivery
/// counters. A single task drives it; cycles never overlap.
pub struct Pipeline {
    /// When configured, every record is routed to this topic, whatever its
    /// embedded topic field says.
    pub topic_override: Option<String>,
    /// The two-tier idle backoff state.
    pub idle: IdleController,
    /// Lifetime delivery accounting.
    pub counters: Counters,
}

impl Pipeline {
    /// A fresh pipeline: active (no idle cycles), nothing accounted.
    pub fn new(topic_override: Option<String>) -> (r: Pipeline)
        ensures
            r.topic_override == topic_override,
            r.idle.idle_cycles == 0,
            r.counters.drained == 0,
            r.counters.discarded == 0,
    {
        Pipeline { topic_override, idle: IdleController::new(), counters: Counters::new() }
    }

    /// Stamp a collected batch with destination topics under this pipeline's
    /// override, all-or-nothing; see [`resolve_batch`].
    pub fn resolve(&self, batch: &Vec<DecodedRecord>) -> (r: Result<
        Vec<ResolvedRecord>,
        FatalError,
    >)
        ensures
            r is Ok <==> batch_routable(self.topic_override, batch@),
            r matches Ok(v) ==> {
                &&& v@.len() == batch@.len()
                &&& forall|i: int|
                    0 <= i < batch@.len() ==> {
                        &&& (#[trigger] v@[i]).topic@ == chosen_topic(
                            override_view(self.topic_override),
                            batch@[i].topic@,
                        )
                        &&& v@[i].key@ == batch@[i].key@
                        &&& v@[i].payload@ == batch@[i].payload@
                        &&& v@[i].timestamp == batch@[i].timestamp
                    }
            },
            r matches Err(e) ==> e == FatalError::EmptyTopic,
    {
        resolve_batch(&self.topic_override, batch)
    }

    /// Close one cycle after its batch was submitted, flushed and awaited:
    /// account every record's outcome — each delivered one into `drained`,
    /// each rejected, failed or cancelled one into `discarded` — and compute
    /// the delay before the next cycle from the batch's occupancy.
    ///
    /// `submits` holds the broker's answer for each submitted record in
    /// submission order; `awaits` holds the awaited result of each accepted
    /// submission, in the same order. An empty cycle (no records submitted)
    /// counts as idle; any non-empty batch makes the pipeline active again,
    /// even if the broker rejected all of it.
    pub fn finish_cycle(&mut self, submits: &Vec<SubmitOutcome>, awaits: &Vec<AwaitOutcome>) -> (d:
        CycleDelay)
        requires
            awaits@.len() == count_accepted(submits@),
            old(self).counters.drained + submits@.len() <= u64::MAX,
            old(self).counters.discarded + submits@.len() <= u64::MAX,
        ensures
            final(self).topic_override == old(self).topic_override,
            final(self).counters.drained == old(self).counters.drained + count_delivered(
                merged_outcomes(submits@, awaits@),
            ),
            final(self).counters.discarded == old(self).counters.discarded + submits@.len()
                - count_delivered(merged_outcomes(submits@, awaits@)),
            final(self).counters.drained + final(self).counters.discarded == old(
                self,
            ).counters.drained + old(self).counters.discarded + submits@.len(),
            submits@.len() > 0 ==> final(self).idle.idle_cycles == 0 && d == CycleDelay::Immediate,
            submits@.len() == 0 ==> final(self).idle.idle_cycles == (
            if old(self).idle.idle_cycles < IDLE_ESCALATION_THRESHOLD {
                old(self).idle.idle_cycles + 1
            } else {
                old(self).idle.idle_cycles as int
            }),
            submits@.len() == 0 ==> (d == CycleDelay::Short <==> final(self).idle.idle_cycles
                < IDLE_ESCALATION_THRESHOLD),
            submits@.len() == 0 ==> (d == CycleDelay::Long <==> final(self).idle.idle_cycles
                >= IDLE_ESCALATION_THRESHOLD),
    {
        proof {
            lemma_merged_len(submits@, awaits@);
        }
        let outcomes = cycle_outcomes(submits, awaits);
        self.counters.record_outcomes(&outcomes);
        let batch_was_empty = submits.len() == 0;
        self.idle.observe_cycle(batch_was_empty)
    }

    /// Replay the publish loop over a queue of `records` enqueued at once,
    /// with `verdicts[i]` the broker's outcome for `records[i]`: the loop
    /// collects full batches of `BATCH_SIZE` until the queue is exhausted,
    /// checks every record's route, and accounts every verdict.
    ///
    /// Succeeds exactly when every record resolves to a non-empty topic
    /// under the pipeline's override, and then returns how many cycles the
    /// drain took — the ceiling of `records.len() / BATCH_SIZE` — with
    /// `drained` grown by exactly the delivered verdicts and `discarded` by
    /// all the others. A record that cannot be routed terminates the drain
    /// at its batch, before that batch is accounted.
    pub fn drain_enqueued(
        &mut self,
        records: &Vec<DecodedRecord>,
        verdicts: &Vec<DeliveryOutcome>,
    ) -> (r: Result<usize, FatalError>)
        requires
            verdicts@.len() == records@.len(),
            old(self).counters.drained + records@.len() <= u64::MAX,
            old(self).counters.discarded + records@.len() <= u64::MAX,
        ensures
            final(self).topic_override == old(self).topic_override,
            r is Ok <==> batch_routable(old(self).topic_override, records@),
            r matches Ok(c) ==> is_cycle_count(records@.len() as int, c as int),
            r is Ok ==> final(self).counters.drained == old(self).counters.drained
                + count_delivered(verdicts@),
            r is Ok ==> final(self).counters.discarded == old(self).counters.discarded
                + records@.len() - count_delivered(verdicts@),
            r is Ok ==> final(self).counters.drained + final(self).counters.discarded == old(
                self,
            ).counters.drained + old(self).counters.discarded + records@.len(),
            r is Ok && records@.len() > 0 ==> final(self).idle.idle_cycles == 0,
            records@.len() == 0 ==> final(self).idle == old(self).idle,
            r matches Err(e) ==> e == FatalError::EmptyTopic,
            r is Err ==> exists|m: int|
                {
                    &&& 0 <= m <= records@.len()
                    &&& m % (BATCH_SIZE as int) == 0
                    &&& final(self).counters.drained == old(self).counters.drained
                        + count_delivered(#[trigger] verdicts@.subrange(0, m))
                    &&& final(self).counters.discarded == old(self).counters.discarded + m
                        - count_delivered(verdicts@.subrange(0, m))
                },
            final(self).counters.drained >= old(self).counters.drained,
            final(self).counters.discarded >= old(self).counters.discarded,
    {
        let n = records.len();
        let mut i: usize = 0;
        let mut cycles: usize = 0;
        proof {
            assert(verdicts@.subrange(0, 0) =~= Seq::<DeliveryOutcome>::empty());
        }
        while i < n
            invariant
                n == records@.len(),
                n == verdicts@.len(),
                i <= n,
                cycles <= i,
                self.topic_override == old(self).topic_override,
                old(self).counters.drained + n <= u64::MAX,
                old(self).counters.discarded + n <= u64::MAX,
                i < n ==> i as int == cycles as int * (BATCH_SIZE as int),
                i == n ==> is_cycle_count(n as int, cycles as int),
                self.counters.drained == old(self).counters.drained + count_delivered(
                    verdicts@.subrange(0, i as int),
                ),
                self.counters.discarded == old(self).counters.discarded + i - count_delivered(
                    verdicts@.subrange(0, i as int),
                ),
                cycles > 0 ==> self.idle.idle_cycles == 0,
                cycles == 0 ==> self.idle == old(self).idle,
                forall|j: int|
                    0 <= j < i ==> chosen_topic(
                        override_view(old(self).topic_override),
                        (#[trigger] records@[j]).topic@,
                    ).len() > 0,
            decreases n - i,
        {
            let remaining = n - i;
            let take = if remaining < BATCH_SIZE {
                remaining
            } else {
                BATCH_SIZE
            };
            let end = i + take;
            let mut j = i;
            while j < end
                invariant
                    i <= j <= end <= n,
                    i < n,
                    i as int == cycles as int * (BATCH_SIZE as int),
                    n == records@.len(),
                    n == verdicts@.len(),
                    self.topic_override == old(self).topic_override,
                    self.counters.drained == old(self).counters.drained + count_delivered(
                        verdicts@.subrange(0, i as int),
                    ),
                    self.counters.discarded == old(self).counters.discarded + i - count_delivered(
                        verdicts@.subrange(0, i as int),
                    ),
                    forall|k: int|
                        i <= k < j ==> chosen_topic(
                            override_view(old(self).topic_override),
                            (#[trigger] records@[k]).topic@,
                        ).len() > 0,
                decreases end - j,
            {
                match resolve_topic(&self.topic_override, &records[j].topic) {
                    Ok(_topic) => {},
                    Err(e) => {
                        proof {
                            assert(chosen_topic(
                                override_view(old(self).topic_override),
                                records@[j as int].topic@,
                            ).len() == 0);
                            assert(!batch_routable(old(self).topic_override, records@));
                            lemma_count_delivered_le_len(verdicts@.subrange(0, i as int));
                            assert(i as int % (BATCH_SIZE as int) == 0);
                        }
                        return Err(e);
                    },
                }
                j = j + 1;
            }
            proof {
                lemma_count_delivered_le_len(verdicts@.subrange(0, i as int));
            }
            self.counters.record_outcomes_range(verdicts, i, end);
            let _advance = self.idle.observe_cycle(false);
            proof {
                lemma_count_delivered_concat(verdicts@, 0, i as int, end as int);
            }
            cycles = cycles + 1;
            i = end;
        }
        proof {
            assert(verdicts@.subrange(0, n as int) =~= verdicts@);
            lemma_count_delivered_le_len(verdicts@);
        }
        Ok(cycles)
    }
}

} // verus!
