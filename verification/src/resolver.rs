use vstd::prelude::*;

use crate::outcome::FatalError;
use crate::record::{DecodedRecord, ResolvedRecord};

verus! {

/// The connector-level topic override, as a sequence of characters when one
/// is configured.
pub open spec fn override_view(configured: Option<String>) -> Option<Seq<char>> {
    match configured {
        Option::Some(t) => Option::Some(t@),
        Option::None => Option::None,
    }
}

/// The topic a record is routed to: the connector-level override
/// unconditionally when one is configured, otherwise the topic embedded in
/// the record.
pub open spec fn chosen_topic(configured: Option<Seq<char>>, embedded: Seq<char>) -> Seq<char> {
    match configured {
        Option::Some(t) => t,
        Option::None => embedded,
    }
}

/// Select the destination topic for one record.
///
/// Succeeds exactly when the chosen source yields a non-empty topic. An
/// empty chosen topic means the record cannot be routed: the connector and
/// the upstream producer schema are mismatched, a fatal configuration error
/// rather than a per-record failure.
pub fn resolve_topic(configured: &Option<String>, embedded: &String) -> (r: Result<
    String,
    FatalError,
>)
    ensures
        r is Ok <==> chosen_topic(override_view(*configured), embedded@).len() > 0,
        r matches Ok(t) ==> t@ == chosen_topic(override_view(*configured), embedded@),
        r matches Err(e) ==> e == FatalError::EmptyTopic,
{
    let chosen: &String = match configured {
        Option::Some(t) => t,
        Option::None => embedded,
    };
    if chosen.as_str().is_empty() {
        Err(FatalError::EmptyTopic)
    } else {
        Ok(chosen.clone())
    }
}

/// Every record of the batch resolves to a non-empty topic under the given
/// connector-level override.
pub open spec fn batch_routable(configured: Option<String>, records: Seq<DecodedRecord>) -> bool {
    forall|i: int|
        0 <= i < records.len() ==> chosen_topic(
            override_view(configured),
            (#[trigger] records[i]).topic@,
        ).len() > 0
}

/// Stamp every record of a batch with its destination topic, in order.
///
/// All-or-nothing: succeeds exactly when every record of the batch resolves
/// to a non-empty topic, and then preserves each record's key, payload and
/// timestamp unchanged. A single unroutable record aborts the whole batch
/// before anything is handed to the broker.
pub fn resolve_batch(configured: &Option<String>, batch: &Vec<DecodedRecord>) -> (r: Result<
    Vec<ResolvedRecord>,
    FatalError,
>)
    ensures
        r is Ok <==> batch_routable(*configured, batch@),
        r matches Ok(v) ==> {
            &&& v@.len() == batch@.len()
            &&& forall|i: int|
                0 <= i < batch@.len() ==> {
                    &&& (#[trigger] v@[i]).topic@ == chosen_topic(
                        override_view(*configured),
                        batch@[i].topic@,
                    )
                    &&& v@[i].key@ == batch@[i].key@
                    &&& v@[i].payload@ == batch@[i].payload@
                    &&& v@[i].timestamp == batch@[i].timestamp
                }
        },
        r matches Err(e) ==> e == FatalError::EmptyTopic,
{
    let mut out: Vec<ResolvedRecord> = Vec::new();
    let mut i: usize = 0;
    while i < batch.len()
        invariant
            0 <= i <= batch@.len(),
            out@.len() == i,
            forall|j: int|
                0 <= j < i ==> {
                    &&& chosen_topic(
                        override_view(*configured),
                        (#[trigger] batch@[j]).topic@,
                    ).len() > 0
                    &&& out@[j].topic@ == chosen_topic(override_view(*configured), batch@[j].topic@)
                    &&& out@[j].key@ == batch@[j].key@
                    &&& out@[j].payload@ == batch@[j].payload@
                    &&& out@[j].timestamp == batch@[j].timestamp
                },
        decreases batch@.len() - i,
    {
        let rec = &batch[i];
        match resolve_topic(configured, &rec.topic) {
            Ok(topic) => {
                out.push(
                    ResolvedRecord {
                        topic,
                        key: clone_bytes(&rec.key),
                        payload: clone_bytes(&rec.payload),
                        timestamp: rec.timestamp,
                    },
                );
            },
            Err(e) => {
                proof {
                    assert(chosen_topic(override_view(*configured), batch@[i as int].topic@).len()
                        == 0);
                }
                return Err(e);
            },
        }
        i = i + 1;
    }
    Ok(out)
}

/// An owned copy of a byte buffer, equal to its source.
fn clone_bytes(v: &Vec<u8>) -> (r: Vec<u8>)
    ensures
        r@ == v@,
{
    let r = v.clone();
    proof {
        assert(forall|i: int| 0 <= i < v@.len() ==> r@[i] == v@[i]);
        assert(r@ =~= v@);
    }
    r
}

} // verus!
