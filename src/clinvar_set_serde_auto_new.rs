//! Reduced typed model of a `ClinVarSet` record: identifiers, status and
//! dates only.
use vstd::prelude::*;

verus! {

#[derive(Debug)]
pub struct ClinVarSet {
    pub id: String,
    pub record_status: String,
    pub replaces: String,
    pub title: String,
    pub reference_clin_var_assertion: ReferenceClinVarAssertion,
    pub clin_var_assertion: Vec<ClinVarAssertion>,
}

#[derive(Debug)]
pub struct ReferenceClinVarAssertion {
    pub id: String,
    pub date_last_updated: String,
    pub date_created: String,
}

#[derive(Debug)]
pub struct ClinVarAssertion {
    pub id: String,
    pub date_last_updated: String,
    pub date_created: String,
}

} // verus!
