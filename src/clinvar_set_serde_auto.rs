//! Full typed model of a `ClinVarSet` record: one struct per element kind,
//! attributes and child elements as fields.
use vstd::prelude::*;

verus! {

#[derive(Debug)]
pub struct ClinVarSet {
    pub id: String,
    pub text: Option<String>,
    pub clin_var_assertion: ClinVarAssertion,
    pub record_status: String,
    pub reference_clin_var_assertion: ReferenceClinVarAssertion,
    pub title: String,
}

#[derive(Debug)]
pub struct ClinVarAssertion {
    pub id: String,
    pub text: Option<String>,
    pub assertion: ClinVarAssertionAssertion,
    pub classification: Classification,
    pub clin_var_accession: ClinVarAssertionClinVarAccession,
    pub clin_var_submission_id: ClinVarSubmissionId,
    pub external_id: ExternalId,
    pub measure_set: ClinVarAssertionMeasureSet,
    pub observed_in: ClinVarAssertionObservedIn,
    pub record_status: String,
    pub trait_set: ClinVarAssertionTraitSet,
}

#[derive(Debug)]
pub struct ClinVarAssertionAssertion {
    pub assertion_type: String,
}

#[derive(Debug)]
pub struct Classification {
    pub date_last_evaluated: String,
    pub text: Option<String>,
    pub germline_classification: String,
    pub review_status: String,
}

#[derive(Debug)]
pub struct ClinVarAssertionClinVarAccession {
    pub acc: String,
    pub date_created: String,
    pub date_updated: String,
    pub org_id: String,
    pub org_type: String,
    pub organization_category: String,
    pub clin_var_accession_type: String,
    pub version: String,
}

#[derive(Debug)]
pub struct ClinVarSubmissionId {
    pub local_key: String,
    pub submitter: String,
    pub submitter_date: String,
    pub title: String,
}

#[derive(Debug)]
pub struct ExternalId {
    pub db: String,
    pub id: String,
    pub external_id_type: String,
}

#[derive(Debug)]
pub struct ClinVarAssertionMeasureSet {
    pub measure_set_type: String,
    pub text: Option<String>,
    pub measure: ClinVarAssertionMeasureSetMeasure,
}

#[derive(Debug)]
pub struct ClinVarAssertionMeasureSetMeasure {
    pub measure_type: String,
    pub text: Option<String>,
    pub attribute_set: ClinVarAssertionMeasureSetMeasureAttributeSet,
    pub measure_relationship: ClinVarAssertionMeasureSetMeasureMeasureRelationship,
    pub name: ClinVarAssertionMeasureSetMeasureName,
    pub xref: ClinVarAssertionMeasureSetMeasureXref,
}

#[derive(Debug)]
pub struct ClinVarAssertionMeasureSetMeasureAttributeSet {
    pub text: Option<String>,
    pub attribute: ClinVarAssertionMeasureSetMeasureAttributeSetAttribute,
}

#[derive(Debug)]
pub struct ClinVarAssertionMeasureSetMeasureAttributeSetAttribute {
    pub attribute_type: String,
    pub text: Option<String>,
}

#[derive(Debug)]
pub struct ClinVarAssertionMeasureSetMeasureMeasureRelationship {
    pub measure_relationship_type: String,
    pub text: Option<String>,
    pub symbol: ClinVarAssertionMeasureSetMeasureMeasureRelationshipSymbol,
}

#[derive(Debug)]
pub struct ClinVarAssertionMeasureSetMeasureMeasureRelationshipSymbol {
    pub text: Option<String>,
    pub element_value:
        ClinVarSetClinVarAssertionMeasureSetMeasureMeasureRelationshipSymbolElementValue,
}

#[derive(Debug)]
pub struct ClinVarSetClinVarAssertionMeasureSetMeasureMeasureRelationshipSymbolElementValue {
    pub element_value_type: String,
    pub text: Option<String>,
}

#[derive(Debug)]
pub struct ClinVarAssertionMeasureSetMeasureName {
    pub text: Option<String>,
    pub element_value: ClinVarSetClinVarAssertionMeasureSetMeasureNameElementValue,
}

#[derive(Debug)]
pub struct ClinVarSetClinVarAssertionMeasureSetMeasureNameElementValue {
    pub element_value_type: String,
    pub text: Option<String>,
}

#[derive(Debug)]
pub struct ClinVarAssertionMeasureSetMeasureXref {
    pub db: String,
    pub id: String,
    pub xref_type: String,
}

#[derive(Debug)]
pub struct ClinVarAssertionObservedIn {
    pub text: Option<String>,
    pub method: ClinVarAssertionObservedInMethod,
    pub observed_data: ClinVarAssertionObservedInObservedData,
    pub sample: ClinVarAssertionObservedInSample,
}

#[derive(Debug)]
pub struct ClinVarAssertionObservedInMethod {
    pub text: Option<String>,
    pub method_type: String,
}

#[derive(Debug)]
pub struct ClinVarAssertionObservedInObservedData {
    pub text: Option<String>,
    pub attribute: ClinVarSetClinVarAssertionObservedInObservedDataAttribute,
    pub citation: ClinVarAssertionObservedInObservedDataCitation,
    pub xref: ClinVarAssertionObservedInObservedDataXref,
}

#[derive(Debug)]
pub struct ClinVarSetClinVarAssertionObservedInObservedDataAttribute {
    pub attribute_type: String,
    pub text: Option<String>,
}

#[derive(Debug)]
pub struct ClinVarAssertionObservedInObservedDataCitation {
    pub text: Option<String>,
    pub id: ClinVarAssertionObservedInObservedDataCitationId,
}

#[derive(Debug)]
pub struct ClinVarAssertionObservedInObservedDataCitationId {
    pub source: String,
    pub text: Option<String>,
}

#[derive(Debug)]
pub struct ClinVarAssertionObservedInObservedDataXref {
    pub db: String,
    pub id: String,
    pub xref_type: String,
}

#[derive(Debug)]
pub struct ClinVarAssertionObservedInSample {
    pub text: Option<String>,
    pub affected_status: String,
    pub origin: String,
    pub species: String,
}

#[derive(Debug)]
pub struct ClinVarAssertionTraitSet {
    pub trait_set_type: String,
    pub text: Option<String>,
    pub trait_set_trait: ClinVarAssertionTraitSetTrait,
}

#[derive(Debug)]
pub struct ClinVarAssertionTraitSetTrait {
    pub trait_type: String,
    pub text: Option<String>,
    pub name: ClinVarAssertionTraitSetTraitName,
}

#[derive(Debug)]
pub struct ClinVarAssertionTraitSetTraitName {
    pub text: Option<String>,
    pub element_value: ClinVarSetClinVarAssertionTraitSetTraitNameElementValue,
}

#[derive(Debug)]
pub struct ClinVarSetClinVarAssertionTraitSetTraitNameElementValue {
    pub element_value_type: String,
    pub text: Option<String>,
}

#[derive(Debug)]
pub struct ReferenceClinVarAssertion {
    pub date_created: String,
    pub date_last_updated: String,
    pub id: String,
    pub text: Option<String>,
    pub assertion: ReferenceClinVarAssertionAssertion,
    pub classifications: Classifications,
    pub clin_var_accession: ReferenceClinVarAssertionClinVarAccession,
    pub measure_set: ReferenceClinVarAssertionMeasureSet,
    pub observed_in: ReferenceClinVarAssertionObservedIn,
    pub record_status: String,
    pub trait_set: ReferenceClinVarAssertionTraitSet,
}

#[derive(Debug)]
pub struct ReferenceClinVarAssertionAssertion {
    pub assertion_type: String,
}

#[derive(Debug)]
pub struct Classifications {
    pub text: Option<String>,
    pub germline_classification: ClassificationsGermlineClassification,
}

#[derive(Debug)]
pub struct ClassificationsGermlineClassification {
    pub text: Option<String>,
    pub description: Description,
    pub review_status: String,
}

#[derive(Debug)]
pub struct Description {
    pub date_last_evaluated: String,
    pub text: Option<String>,
}

#[derive(Debug)]
pub struct ReferenceClinVarAssertionClinVarAccession {
    pub acc: String,
    pub date_created: String,
    pub date_updated: String,
    pub clin_var_accession_type: String,
    pub version: String,
}

#[derive(Debug)]
pub struct ReferenceClinVarAssertionMeasureSet {
    pub acc: String,
    pub id: String,
    pub measure_set_type: String,
    pub version: String,
    pub text: Option<String>,
    pub measure: ReferenceClinVarAssertionMeasureSetMeasure,
    pub name: ClinVarSetReferenceClinVarAssertionMeasureSetName,
    pub xref: ClinVarSetReferenceClinVarAssertionMeasureSetXref,
}

#[derive(Debug)]
pub struct ReferenceClinVarAssertionMeasureSetMeasure {
    pub id: String,
    pub measure_type: String,
    pub text: Option<String>,
    pub attribute_set: Vec<ReferenceClinVarAssertionMeasureSetMeasureAttributeSet>,
    pub canonical_spdi: String,
    pub cytogenetic_location: String,
    pub measure_relationship: ReferenceClinVarAssertionMeasureSetMeasureMeasureRelationship,
    pub name: ReferenceClinVarAssertionMeasureSetMeasureName,
    pub sequence_location: Vec<MeasureSequenceLocation>,
    pub xref: Vec<ReferenceClinVarAssertionMeasureSetMeasureXref>,
}

#[derive(Debug)]
pub struct ReferenceClinVarAssertionMeasureSetMeasureAttributeSet {
    pub text: Option<String>,
    pub attribute: ReferenceClinVarAssertionMeasureSetMeasureAttributeSetAttribute,
    pub xref: Vec<MeasureSetMeasureAttributeSetXref>,
}

#[derive(Debug)]
pub struct ReferenceClinVarAssertionMeasureSetMeasureAttributeSetAttribute {
    pub accession: Option<String>,
    pub change: Option<String>,
    pub maneselect: Option<String>,
    pub attribute_type: String,
    pub version: Option<String>,
    pub integer_value: Option<String>,
    pub text: Option<String>,
}

#[derive(Debug)]
pub struct MeasureSetMeasureAttributeSetXref {
    pub db: String,
    pub id: String,
}

#[derive(Debug)]
pub struct ReferenceClinVarAssertionMeasureSetMeasureMeasureRelationship {
    pub measure_relationship_type: String,
    pub text: Option<String>,
    pub name: MeasureSetMeasureMeasureRelationshipName,
    pub sequence_location: Vec<MeasureRelationshipSequenceLocation>,
    pub symbol: ReferenceClinVarAssertionMeasureSetMeasureMeasureRelationshipSymbol,
    pub xref: Vec<MeasureSetMeasureMeasureRelationshipXref>,
}

#[derive(Debug)]
pub struct MeasureSetMeasureMeasureRelationshipName {
    pub text: Option<String>,
    pub element_value:
        ClinVarSetReferenceClinVarAssertionMeasureSetMeasureMeasureRelationshipNameElementValue,
}

#[derive(Debug)]
pub struct ClinVarSetReferenceClinVarAssertionMeasureSetMeasureMeasureRelationshipNameElementValue {
    pub element_value_type: String,
    pub text: Option<String>,
}

#[derive(Debug)]
pub struct MeasureRelationshipSequenceLocation {
    pub accession: String,
    pub assembly: String,
    pub assembly_accession_version: String,
    pub assembly_status: String,
    pub chr: String,
    pub strand: String,
    pub display_start: String,
    pub display_stop: String,
    pub start: String,
    pub stop: String,
    pub variant_length: Option<String>,
}

#[derive(Debug)]
pub struct ReferenceClinVarAssertionMeasureSetMeasureMeasureRelationshipSymbol {
    pub text: Option<String>,
    pub element_value:
        ClinVarSetReferenceClinVarAssertionMeasureSetMeasureMeasureRelationshipSymbolElementValue,
}

#[derive(Debug)]
pub struct ClinVarSetReferenceClinVarAssertionMeasureSetMeasureMeasureRelationshipSymbolElementValue
{
    pub element_value_type: String,
    pub text: Option<String>,
}

#[derive(Debug)]
pub struct MeasureSetMeasureMeasureRelationshipXref {
    pub db: String,
    pub id: String,
    pub xref_type: Option<String>,
}

#[derive(Debug)]
pub struct ReferenceClinVarAssertionMeasureSetMeasureName {
    pub text: Option<String>,
    pub element_value: ClinVarSetReferenceClinVarAssertionMeasureSetMeasureNameElementValue,
}

#[derive(Debug)]
pub struct ClinVarSetReferenceClinVarAssertionMeasureSetMeasureNameElementValue {
    pub element_value_type: String,
    pub text: Option<String>,
}

#[derive(Debug)]
pub struct MeasureSequenceLocation {
    pub accession: String,
    pub assembly: String,
    pub assembly_accession_version: String,
    pub assembly_status: String,
    pub chr: String,
    pub alternate_allele_vcf: String,
    pub display_start: String,
    pub display_stop: String,
    pub position_vcf: String,
    pub reference_allele_vcf: String,
    pub start: String,
    pub stop: String,
    pub variant_length: String,
}

#[derive(Debug)]
pub struct ReferenceClinVarAssertionMeasureSetMeasureXref {
    pub db: String,
    pub id: String,
    pub xref_type: Option<String>,
}

#[derive(Debug)]
pub struct ClinVarSetReferenceClinVarAssertionMeasureSetName {
    pub text: Option<String>,
    pub element_value: ClinVarSetReferenceClinVarAssertionMeasureSetNameElementValue,
}

#[derive(Debug)]
pub struct ClinVarSetReferenceClinVarAssertionMeasureSetNameElementValue {
    pub element_value_type: String,
    pub text: Option<String>,
}

#[derive(Debug)]
pub struct ClinVarSetReferenceClinVarAssertionMeasureSetXref {
    pub db: String,
    pub id: String,
}

#[derive(Debug)]
pub struct ReferenceClinVarAssertionObservedIn {
    pub text: Option<String>,
    pub method: ReferenceClinVarAssertionObservedInMethod,
    pub observed_data: ReferenceClinVarAssertionObservedInObservedData,
    pub sample: ReferenceClinVarAssertionObservedInSample,
}

#[derive(Debug)]
pub struct ReferenceClinVarAssertionObservedInMethod {
    pub text: Option<String>,
    pub method_type: String,
}

#[derive(Debug)]
pub struct ReferenceClinVarAssertionObservedInObservedData {
    pub id: String,
    pub text: Option<String>,
    pub attribute: ClinVarSetReferenceClinVarAssertionObservedInObservedDataAttribute,
    pub citation: ReferenceClinVarAssertionObservedInObservedDataCitation,
}

#[derive(Debug)]
pub struct ClinVarSetReferenceClinVarAssertionObservedInObservedDataAttribute {
    pub attribute_type: String,
    pub text: Option<String>,
}

#[derive(Debug)]
pub struct ReferenceClinVarAssertionObservedInObservedDataCitation {
    pub citation_type: String,
    pub text: Option<String>,
    pub id: ReferenceClinVarAssertionObservedInObservedDataCitationId,
}

#[derive(Debug)]
pub struct ReferenceClinVarAssertionObservedInObservedDataCitationId {
    pub source: String,
    pub text: Option<String>,
}

#[derive(Debug)]
pub struct ReferenceClinVarAssertionObservedInSample {
    pub text: Option<String>,
    pub affected_status: String,
    pub origin: String,
    pub species: ReferenceClinVarAssertionObservedInSampleSpecies,
}

#[derive(Debug)]
pub struct ReferenceClinVarAssertionObservedInSampleSpecies {
    pub taxonomy_id: String,
    pub text: Option<String>,
}

#[derive(Debug)]
pub struct ReferenceClinVarAssertionTraitSet {
    pub id: String,
    pub trait_set_type: String,
    pub text: Option<String>,
    pub trait_set_trait: ReferenceClinVarAssertionTraitSetTrait,
}

#[derive(Debug)]
pub struct ReferenceClinVarAssertionTraitSetTrait {
    pub id: String,
    pub trait_type: String,
    pub text: Option<String>,
    pub name: Vec<ReferenceClinVarAssertionTraitSetTraitName>,
    pub symbol: Vec<ClinVarSetReferenceClinVarAssertionTraitSetTraitSymbol>,
    pub xref: Vec<ReferenceClinVarAssertionTraitSetTraitXref>,
}

#[derive(Debug)]
pub struct ReferenceClinVarAssertionTraitSetTraitName {
    pub text: Option<String>,
    pub element_value: ClinVarSetReferenceClinVarAssertionTraitSetTraitNameElementValue,
    pub xref: Vec<TraitSetTraitNameXref>,
}

#[derive(Debug)]
pub struct ClinVarSetReferenceClinVarAssertionTraitSetTraitNameElementValue {
    pub element_value_type: String,
    pub text: Option<String>,
}

#[derive(Debug)]
pub struct TraitSetTraitNameXref {
    pub db: String,
    pub id: String,
}

#[derive(Debug)]
pub struct ClinVarSetReferenceClinVarAssertionTraitSetTraitSymbol {
    pub text: Option<String>,
    pub element_value: ClinVarSetReferenceClinVarAssertionTraitSetTraitSymbolElementValue,
    pub xref: TraitSetTraitSymbolXref,
}

#[derive(Debug)]
pub struct ClinVarSetReferenceClinVarAssertionTraitSetTraitSymbolElementValue {
    pub element_value_type: String,
    pub text: Option<String>,
}

#[derive(Debug)]
pub struct TraitSetTraitSymbolXref {
    pub db: String,
    pub id: String,
    pub xref_type: String,
}

#[derive(Debug)]
pub struct ReferenceClinVarAssertionTraitSetTraitXref {
    pub db: String,
    pub id: String,
    pub xref_type: Option<String>,
}

} // verus!
