use vstd::prelude::*;

use crate::config::{IDLE_ESCALATION_THRESHOLD, LONG_DELAY_MS, SHORT_DELAY_MS};

verus! {

/// How long the pipeline pauses before starting its next cycle.
#[derive(Clone, Copy, Debug, PartialEq, Eq, Structural)]
pub enum CycleDelay {
    /// No pause: the last cycle produced a non-empty batch, so more input is
    /// likely waiting.
    Immediate,
    /// Short pause (`SHORT_DELAY_MS`): the upstream channel has been empty
    /// for fewer than `IDLE_ESCALATION_THRESHOLD` consecutive cycles.
    Short,
    /// Long pause (`LONG_DELAY_MS`): sustained emptiness; poll coarsely.
    Long,
}

impl CycleDelay {
    /// The pause this tier stands for, in milliseconds.
    pub fn millis(self) -> (r: u64)
        ensures
            self is Immediate ==> r == 0,
            self is Short ==> r == SHORT_DELAY_MS,
            self is Long ==> r == LONG_DELAY_MS,
    {
        match self {
            CycleDelay::Immediate => 0,
            CycleDelay::Short => SHORT_DELAY_MS,
            CycleDelay::Long => LONG_DELAY_MS,
        }
    }
}

/// Backpressure/idle controller: a state machine over one counter of
/// consecutive empty cycles.
///
/// Any cycle that yields a non-empty batch resets the counter to zero and
/// asks for no delay; an empty cycle increments it. While the counter stays
/// below `IDLE_ESCALATION_THRESHOLD` the delay is short; once it reaches the
/// threshold the delay escalates to long. The counter saturates at the
/// threshold: beyond it, only the comparison with the threshold matters, so
/// the observable delay policy is unchanged and the counter cannot overflow.
pub struct IdleController {
    /// Number of consecutive empty cycles observed, saturated at
    /// `IDLE_ESCALATION_THRESHOLD`.
    pub idle_cycles: u64,
}

impl IdleController {
    /// A fresh controller in the active state: no empty cycles observed.
    pub fn new() -> (r: IdleController)
        ensures
            r.idle_cycles == 0,
    {
        IdleController { idle_cycles: 0 }
    }

    /// Record the outcome of one cycle and return the delay to apply before
    /// the next one.
    pub fn observe_cycle(&mut self, batch_was_empty: bool) -> (d: CycleDelay)
        ensures
            !batch_was_empty ==> final(self).idle_cycles == 0 && d == CycleDelay::Immediate,
            batch_was_empty ==> final(self).idle_cycles == (
                if old(self).idle_cycles < IDLE_ESCALATION_THRESHOLD {
                    old(self).idle_cycles + 1
                } else {
                    old(self).idle_cycles as int
                }
            ),
            batch_was_empty ==> (d == CycleDelay::Short <==> final(self).idle_cycles
                < IDLE_ESCALATION_THRESHOLD),
            batch_was_empty ==> (d == CycleDelay::Long <==> final(self).idle_cycles
                >= IDLE_ESCALATION_THRESHOLD),
    {
        if batch_was_empty {
            if self.idle_cycles < IDLE_ESCALATION_THRESHOLD {
                self.idle_cycles = self.idle_cycles + 1;
            }
            if self.idle_cycles < IDLE_ESCALATION_THRESHOLD {
                CycleDelay::Short
            } else {
                CycleDelay::Long
            }
        } else {
            self.idle_cycles = 0;
            CycleDelay::Immediate
        }
    }
}

} // verus!
