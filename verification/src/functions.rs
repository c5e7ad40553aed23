use vstd::prelude::*;

verus! {

/// Implemented by dataflow operators that declare the schema of the records
/// they produce, as one type tag per field.
pub trait FunctionSchema {
    /// The type tags of the fields this operator's records carry, in field
    /// order.
    fn schema_types(&self) -> Vec<u8>;
}

} // verus!
