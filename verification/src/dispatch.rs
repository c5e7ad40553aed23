use vstd::prelude::*;

use crate::outcome::{
    count_accepted, merged_outcomes, outcome_of_await, AwaitOutcome, DeliveryOutcome, SubmitOutcome,
};

verus! {

/// A cycle with as many awaited results as accepted submissions yields one
/// delivery outcome per submitted record.
pub proof fn lemma_merged_len(submits: Seq<SubmitOutcome>, awaits: Seq<AwaitOutcome>)
    requires
        awaits.len() == count_accepted(submits),
    ensures
        merged_outcomes(submits, awaits).len() == submits.len(),
    decreases submits.len(),
{
    if submits.len() > 0 {
        if submits[0] is Accepted {
            lemma_merged_len(submits.drop_first(), awaits.drop_first());
        } else {
            lemma_merged_len(submits.drop_first(), awaits);
        }
    }
}

/// Assemble the per-record outcomes of one cycle, in submission order.
///
/// A rejected submission contributes its rejection directly and never had a
/// delivery handle; each accepted submission consumes the next awaited
/// result, in order. The caller must have awaited exactly one result per
/// accepted submission.
pub fn cycle_outcomes(submits: &Vec<SubmitOutcome>, awaits: &Vec<AwaitOutcome>) -> (out: Vec<
    DeliveryOutcome,
>)
    requires
        awaits@.len() == count_accepted(submits@),
    ensures
        out@ == merged_outcomes(submits@, awaits@),
{
    let mut out: Vec<DeliveryOutcome> = Vec::new();
    let mut i: usize = 0;
    let mut ai: usize = 0;
    let alen: usize = awaits.len();
    proof {
        assert(submits@.skip(0) =~= submits@);
        assert(awaits@.skip(0) =~= awaits@);
        assert(out@ + merged_outcomes(submits@, awaits@) =~= merged_outcomes(submits@, awaits@));
    }
    while i < submits.len()
        invariant
            i <= submits@.len(),
            ai <= alen,
            alen == awaits@.len(),
            awaits@.skip(ai as int).len() == count_accepted(submits@.skip(i as int)),
            merged_outcomes(submits@, awaits@) == out@ + merged_outcomes(
                submits@.skip(i as int),
                awaits@.skip(ai as int),
            ),
        decreases submits@.len() - i,
    {
        let ghost rem_s = submits@.skip(i as int);
        let ghost rem_a = awaits@.skip(ai as int);
        proof {
            assert(rem_s[0] == submits@[i as int]);
            assert(rem_s.drop_first() =~= submits@.skip(i as int + 1));
        }
        match &submits[i] {
            SubmitOutcome::Rejected(reason) => {
                let ghost prev = out@;
                out.push(DeliveryOutcome::Rejected(reason.clone()));
                proof {
                    assert(merged_outcomes(rem_s, rem_a) == seq![
                        DeliveryOutcome::Rejected(rem_s[0]->Rejected_0),
                    ] + merged_outcomes(rem_s.drop_first(), rem_a));
                    assert(out@ + merged_outcomes(rem_s.drop_first(), rem_a) =~= prev
                        + merged_outcomes(rem_s, rem_a));
                }
            },
            SubmitOutcome::Accepted => {
                proof {
                    assert(count_accepted(rem_s) >= 1);
                    assert(rem_a.len() >= 1);
                    assert(rem_a[0] == awaits@[ai as int]);
                    assert(rem_a.drop_first() =~= awaits@.skip(ai as int + 1));
                }
                let ghost prev = out@;
                let next = await_outcome(&awaits[ai]);
                ai = ai + 1;
                out.push(next);
                proof {
                    assert(merged_outcomes(rem_s, rem_a) == seq![outcome_of_await(rem_a[0])]
                        + merged_outcomes(rem_s.drop_first(), rem_a.drop_first()));
                    assert(out@ + merged_outcomes(rem_s.drop_first(), rem_a.drop_first()) =~= prev
                        + merged_outcomes(rem_s, rem_a));
                }
            },
        }
        i = i + 1;
    }
    proof {
        assert(submits@.skip(submits@.len() as int) =~= Seq::<SubmitOutcome>::empty());
        assert(out@ + Seq::<DeliveryOutcome>::empty() =~= out@);
    }
    out
}

/// The delivery outcome one awaited handle maps to.
fn await_outcome(a: &AwaitOutcome) -> (r: DeliveryOutcome)
    ensures
        r == outcome_of_await(*a),
{
    match a {
        AwaitOutcome::Delivered => DeliveryOutcome::Delivered,
        AwaitOutcome::Failed(reason) => DeliveryOutcome::Failed(reason.clone()),
        AwaitOutcome::Cancelled => DeliveryOutcome::Cancelled,
    }
}

} // verus!
