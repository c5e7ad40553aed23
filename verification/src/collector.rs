use vstd::prelude::*;

use crate::config::BATCH_SIZE;
use crate::outcome::FatalError;
use crate::record::DecodedRecord;

verus! {

/// What one non-blocking poll of the upstream channel produced, after the
/// record codec ran on any dequeued buffer.
pub enum PollEvent {
    /// A record was dequeued and decoded.
    Item(DecodedRecord),
    /// A record was dequeued but its buffer failed to decode: a fatal
    /// condition, not a per-record skip.
    DecodeFailed,
    /// The channel is currently empty; the cycle's batch is complete.
    Empty,
    /// The channel reported permanent closure: the pipeline cannot make
    /// progress and must terminate.
    Closed,
}

/// The collector's decision after one poll.
#[derive(Clone, Copy, Debug, PartialEq, Eq, Structural)]
pub enum CollectStep {
    /// Keep polling: the batch has room and the channel may have more.
    Continue,
    /// Stop polling and dispatch the batch collected so far.
    Complete,
    /// Stop the pipeline: an unrecoverable condition was observed.
    Fatal(FatalError),
}

/// Inbound batch collector: accumulates up to `BATCH_SIZE` records per
/// cycle from non-blocking polls of the upstream channel, stopping early
/// when the channel reports empty.
pub struct BatchCollector {
    /// The records accumulated this cycle, in dequeue order.
    pub records: Vec<DecodedRecord>,
}

impl BatchCollector {
    /// Start collecting a fresh, empty batch.
    pub fn new() -> (r: BatchCollector)
        ensures
            r.records@.len() == 0,
    {
        BatchCollector { records: Vec::new() }
    }

    /// Number of records accumulated so far.
    pub fn len(&self) -> (n: usize)
        ensures
            n == self.records@.len(),
    {
        self.records.len()
    }

    /// Decide on one poll's event: accept a decoded record into the batch
    /// (completing it when it reaches `BATCH_SIZE`), complete the batch
    /// early on an empty channel, or report the fatal conditions — channel
    /// closure and decode failure — without accepting anything.
    ///
    /// Only `Continue` invites another poll, so a caller that polls while
    /// the collector continues never exceeds `BATCH_SIZE` records.
    pub fn on_event(&mut self, event: PollEvent) -> (step: CollectStep)
        requires
            old(self).records@.len() < BATCH_SIZE,
        ensures
            event matches PollEvent::Item(rec) ==> {
                &&& final(self).records@ == old(self).records@.push(rec)
                &&& (step == CollectStep::Continue <==> final(self).records@.len() < BATCH_SIZE)
                &&& (step == CollectStep::Complete <==> final(self).records@.len() == BATCH_SIZE)
            },
            event is Empty ==> final(self).records@ == old(self).records@ && step
                == CollectStep::Complete,
            event is Closed ==> final(self).records@ == old(self).records@ && step
                == CollectStep::Fatal(FatalError::ChannelClosed),
            event is DecodeFailed ==> final(self).records@ == old(self).records@ && step
                == CollectStep::Fatal(FatalError::DecodeFailure),
    {
        match event {
            PollEvent::Item(rec) => {
                self.records.push(rec);
                if self.records.len() == BATCH_SIZE {
                    CollectStep::Complete
                } else {
                    CollectStep::Continue
                }
            },
            PollEvent::Empty => CollectStep::Complete,
            PollEvent::Closed => CollectStep::Fatal(FatalError::ChannelClosed),
            PollEvent::DecodeFailed => CollectStep::Fatal(FatalError::DecodeFailure),
        }
    }

    /// Hand over the cycle's batch, in dequeue order.
    pub fn into_batch(self) -> (r: Vec<DecodedRecord>)
        ensures
            r@ == self.records@,
    {
        self.records
    }
}

} // verus!
