use vstd::prelude::*;

verus! {

/// What the broker client answered when one record was submitted: either it
/// took the record and handed back a delivery handle, or it declined at
/// submission time (for instance because its local queue was full).
#[derive(Clone, Debug, PartialEq, Eq)]
pub enum SubmitOutcome {
    /// The broker accepted the record; a delivery handle is pending.
    Accepted,
    /// The broker declined the record at submission time, with its reason.
    Rejected(String),
}

/// What awaiting one delivery handle reported.
#[derive(Clone, Debug, PartialEq, Eq)]
pub enum AwaitOutcome {
    /// The broker confirmed delivery.
    Delivered,
    /// The broker reported a delivery failure, with its reason.
    Failed(String),
    /// The handle was dropped or aborted before it resolved.
    Cancelled,
}

/// The per-record result of one dispatch attempt: exactly one of these is
/// accounted for every record handed to the dispatcher.
#[derive(Clone, Debug, PartialEq, Eq)]
pub enum DeliveryOutcome {
    /// The broker confirmed delivery; counted as drained.
    Delivered,
    /// The broker declined the record at submission time; counted as
    /// discarded without a delivery handle ever existing.
    Rejected(String),
    /// The broker reported a delivery failure; counted as discarded.
    Failed(String),
    /// The delivery handle was dropped or aborted before it resolved;
    /// counted as discarded.
    Cancelled,
}

/// The conditions under which the pipeline cannot continue: each one is an
/// upstream contract violation or a configuration defect, and terminates the
/// publish loop rather than being skipped.
#[derive(Clone, Copy, Debug, PartialEq, Eq, Structural)]
pub enum FatalError {
    /// The upstream channel reported permanent closure.
    ChannelClosed,
    /// A record buffer failed to decode.
    DecodeFailure,
    /// A record resolved to an empty topic with no override configured.
    EmptyTopic,
}

/// How many outcomes in the sequence report a confirmed delivery.
pub open spec fn count_delivered(s: Seq<DeliveryOutcome>) -> nat
    decreases s.len(),
{
    if s.len() == 0 {
        0
    } else {
        count_delivered(s.drop_last()) + (if s.last() is Delivered {
            1nat
        } else {
            0nat
        })
    }
}

/// How many submissions were accepted, i.e. how many delivery handles the
/// cycle produced.
pub open spec fn count_accepted(s: Seq<SubmitOutcome>) -> nat
    decreases s.len(),
{
    if s.len() == 0 {
        0
    } else {
        (if s[0] is Accepted {
            1nat
        } else {
            0nat
        }) + count_accepted(s.drop_first())
    }
}

/// The delivery outcome that one awaited handle maps to.
pub open spec fn outcome_of_await(a: AwaitOutcome) -> DeliveryOutcome {
    match a {
        AwaitOutcome::Delivered => DeliveryOutcome::Delivered,
        AwaitOutcome::Failed(reason) => DeliveryOutcome::Failed(reason),
        AwaitOutcome::Cancelled => DeliveryOutcome::Cancelled,
    }
}

/// The per-record outcomes of one cycle, in submission order: a rejected
/// submission contributes its rejection directly, and each accepted
/// submission consumes the next awaited result in order.
pub open spec fn merged_outcomes(submits: Seq<SubmitOutcome>, awaits: Seq<AwaitOutcome>) -> Seq<
    DeliveryOutcome,
>
    recommends
        awaits.len() == count_accepted(submits),
    decreases submits.len(),
{
    if submits.len() == 0 {
        Seq::empty()
    } else {
        match submits[0] {
            SubmitOutcome::Rejected(reason) => seq![DeliveryOutcome::Rejected(reason)]
                + merged_outcomes(submits.drop_first(), awaits),
            SubmitOutcome::Accepted => seq![outcome_of_await(awaits[0])] + merged_outcomes(
                submits.drop_first(),
                awaits.drop_first(),
            ),
        }
    }
}

/// No sequence reports more deliveries than it has outcomes.
pub proof fn lemma_count_delivered_le_len(s: Seq<DeliveryOutcome>)
    ensures
        count_delivered(s) <= s.len(),
    decreases s.len(),
{
    if s.len() > 0 {
        lemma_count_delivered_le_len(s.drop_last());
    }
}

/// Conservation at the outcome level: of one cycle's outcomes, the delivered
/// ones and the undelivered ones together account for every record, so each
/// record is counted in exactly one of the two counters.
pub proof fn lemma_outcome_conservation(s: Seq<DeliveryOutcome>)
    ensures
        count_delivered(s) + (s.len() - count_delivered(s)) == s.len(),
{
    lemma_count_delivered_le_len(s);
}

/// Extending the counted range by one outcome adds exactly that outcome's
/// contribution.
pub proof fn lemma_count_delivered_subrange_step(s: Seq<DeliveryOutcome>, start: int, i: int)
    requires
        0 <= start <= i < s.len(),
    ensures
        count_delivered(s.subrange(start, i + 1)) == count_delivered(s.subrange(start, i)) + (
        if s[i] is Delivered {
            1nat
        } else {
            0nat
        }),
{
    let ext = s.subrange(start, i + 1);
    assert(ext.drop_last() =~= s.subrange(start, i));
    assert(ext.last() == s[i]);
}

/// Counting delivered outcomes over adjacent ranges adds up.
pub proof fn lemma_count_delivered_concat(s: Seq<DeliveryOutcome>, a: int, b: int, c: int)
    requires
        0 <= a <= b <= c <= s.len(),
    ensures
        count_delivered(s.subrange(a, c)) == count_delivered(s.subrange(a, b)) + count_delivered(
            s.subrange(b, c),
        ),
    decreases c - b,
{
    if b == c {
        assert(s.subrange(b, c) =~= Seq::<DeliveryOutcome>::empty());
        assert(s.subrange(a, c) =~= s.subrange(a, b));
    } else {
        lemma_count_delivered_concat(s, a, b, c - 1);
        lemma_count_delivered_subrange_step(s, a, c - 1);
        lemma_count_delivered_subrange_step(s, b, c - 1);
    }
}

} // verus!
