use vstd::prelude::*;

verus! {

/// The structured fields the record codec derives from one raw record
/// buffer: an epoch-millisecond timestamp, a partitioning key, the message
/// payload, and the topic embedded in the record's schema. The codec itself
/// is an external collaborator; the pipeline receives its output.
#[derive(Clone, Debug, PartialEq, Eq)]
pub struct DecodedRecord {
    /// Event time in epoch milliseconds.
    pub timestamp: u64,
    /// Partitioning key bytes.
    pub key: Vec<u8>,
    /// Message payload bytes.
    pub payload: Vec<u8>,
    /// Destination topic embedded in the record; may be empty when the
    /// producer left it unset.
    pub topic: String,
}

/// A record stamped with its final destination topic, ready to hand to the
/// broker client's asynchronous send primitive.
#[derive(Clone, Debug, PartialEq, Eq)]
pub struct ResolvedRecord {
    /// Destination topic chosen by the topic resolver; never empty.
    pub topic: String,
    /// Partitioning key bytes, carried over unchanged.
    pub key: Vec<u8>,
    /// Message payload bytes, carried over unchanged.
    pub payload: Vec<u8>,
    /// Event time in epoch milliseconds, carried over unchanged.
    pub timestamp: u64,
}

} // verus!
