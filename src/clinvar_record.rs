//! A compact summary record and a collector for such records.
use vstd::prelude::*;

verus! {

/// Identifier, status and title of one `ClinVarSet`.
#[derive(Debug)]
pub struct ClinvarRecord {
    pub clinvar_set_id: i64,
    pub record_status: String,
    pub record_title: String,
}

/// Collects summary records.
pub struct RecordBuilder {
    _records: Vec<ClinvarRecord>,
}

impl RecordBuilder {
    pub closed spec fn len_spec(&self) -> nat {
        self._records@.len()
    }

    /// An empty collector.
    pub fn new() -> (r: Self)
        ensures
            r.len_spec() == 0,
    {
        RecordBuilder { _records: Vec::new() }
    }
}

} // verus!
