//! Typed model of the parts of a `ClinVarSet` that locate and classify its
//! variant, with accessors that select the locus of a genome build.
use vstd::prelude::*;

use crate::cli::{assembly_name, Genome};
use crate::clinvar::record::contig_label;
use crate::text::eq_str;

verus! {

#[derive(Debug)]
pub struct ClinVarSet {
    pub reference_clinvar_assertion: ReferenceClinVarAssertion,
    pub title: String,
}

#[derive(Debug)]
pub struct ReferenceClinVarAssertion {
    pub id: String,
    pub date_last_updated: String,
    pub date_created: String,
    pub clinvar_accession: ClinVarAccession,
    pub classifications: Classifications,
    pub measure_set: MeasureSet,
}

#[derive(Debug)]
pub struct Classifications {
    pub germline: Vec<GermlineClassification>,
}

#[derive(Debug)]
pub struct ClinVarAccession {
    pub rcv: String,
}

#[derive(Debug)]
pub struct GermlineClassification {
    pub description: GermlineClassificationDescription,
}

#[derive(Debug)]
pub struct GermlineClassificationDescription {
    pub description: String,
    pub date_last_evaluated: String,
}

#[derive(Debug)]
pub struct MeasureSet {
    pub measure: Vec<Measure>,
    pub acc: String,
}

#[derive(Debug)]
pub struct Measure {
    pub measure_type: String,
    pub id: String,
    pub sequence_location: Vec<Option<SequenceLocation>>,
}

#[derive(Debug)]
pub struct SequenceLocation {
    pub assembly: String,
    pub chr: String,
    pub accession: String,
    pub position_vcf: String,
    pub reference_allele_vcf: String,
    pub alternate_allele_vcf: String,
}

/// The last location of build `g` among `ls`.
pub open spec fn last_in(ls: Seq<Option<SequenceLocation>>, g: Genome) -> Option<SequenceLocation>
    decreases ls.len(),
{
    if ls.len() == 0 {
        None
    } else {
        match ls.last() {
            Some(l) if l.assembly@ == assembly_name(g) => Some(l),
            _ => last_in(ls.drop_last(), g),
        }
    }
}

/// The last location of build `g` over all measures, in document order.
pub open spec fn last_location(ms: Seq<Measure>, g: Genome) -> Option<SequenceLocation>
    decreases ms.len(),
{
    if ms.len() == 0 {
        None
    } else {
        match last_in(ms.last().sequence_location@, g) {
            Some(l) => Some(l),
            None => last_location(ms.drop_last(), g),
        }
    }
}

/// One line of the compact locus representation: contig, position,
/// alleles, accession and classification, tab-separated.
pub open spec fn repr_line(l: SequenceLocation, rcv: Seq<char>, description: Seq<char>) -> Seq<
    char,
> {
    contig_label(l.chr@) + "\t"@ + l.position_vcf@ + "\t"@ + l.reference_allele_vcf@ + "\t"@
        + l.alternate_allele_vcf@ + "\t"@ + rcv + "\t"@ + description + "\n"@
}

fn last_in_exec<'a>(ls: &'a Vec<Option<SequenceLocation>>, g: &Genome) -> (r: Option<
    &'a SequenceLocation,
>)
    ensures
        match last_in(ls@, *g) {
            Some(l) => r is Some && *r->0 == l,
            None => r is None,
        },
{
    let mut cur: Option<&SequenceLocation> = None;
    let mut i: usize = 0;
    while i < ls.len()
        invariant
            i <= ls@.len(),
            match last_in(ls@.subrange(0, i as int), *g) {
                Some(l) => cur is Some && *cur->0 == l,
                None => cur is None,
            },
        decreases ls.len() - i,
    {
        proof {
            let s = ls@.subrange(0, i + 1);
            assert(s.drop_last() =~= ls@.subrange(0, i as int));
            assert(s.last() == ls@[i as int]);
        }
        match &ls[i] {
            Some(l) => {
                if eq_str(l.assembly.as_str(), g.assembly()) {
                    cur = Some(l);
                }
            },
            None => {},
        }
        i = i + 1;
    }
    assert(ls@.subrange(0, ls@.len() as int) =~= ls@);
    cur
}

impl ClinVarSet {
    pub open spec fn selected(&self, g: Genome) -> Option<SequenceLocation> {
        last_location(self.reference_clinvar_assertion.measure_set.measure@, g)
    }

    /// The location of build `g` that the accessors report: the last one in
    /// document order.
    pub fn get_location(&self, g: &Genome) -> (r: Option<&SequenceLocation>)
        ensures
            match self.selected(*g) {
                Some(l) => r is Some && *r->0 == l,
                None => r is None,
            },
    {
        let ms = &self.reference_clinvar_assertion.measure_set.measure;
        let mut cur: Option<&SequenceLocation> = None;
        let mut i: usize = 0;
        while i < ms.len()
            invariant
                i <= ms@.len(),
                ms == &self.reference_clinvar_assertion.measure_set.measure,
                match last_location(ms@.subrange(0, i as int), *g) {
                    Some(l) => cur is Some && *cur->0 == l,
                    None => cur is None,
                },
            decreases ms.len() - i,
        {
            proof {
                let s = ms@.subrange(0, i + 1);
                assert(s.drop_last() =~= ms@.subrange(0, i as int));
                assert(s.last() == ms@[i as int]);
            }
            match last_in_exec(&ms[i].sequence_location, g) {
                Some(l) => {
                    cur = Some(l);
                },
                None => {},
            }
            i = i + 1;
        }
        assert(ms@.subrange(0, ms@.len() as int) =~= ms@);
        cur
    }

    /// Chromosome of the selected location of build `g`.
    pub fn get_chrom(&self, g: &Genome) -> (r: Option<&str>)
        ensures
            match self.selected(*g) {
                Some(l) => r is Some && r->0@ == l.chr@,
                None => r is None,
            },
    {
        match self.get_location(g) {
            Some(l) => Some(l.chr.as_str()),
            None => None,
        }
    }

    /// VCF position of the selected location of build `g`.
    pub fn get_pos(&self, g: &Genome) -> (r: Option<&str>)
        ensures
            match self.selected(*g) {
                Some(l) => r is Some && r->0@ == l.position_vcf@,
                None => r is None,
            },
    {
        match self.get_location(g) {
            Some(l) => Some(l.position_vcf.as_str()),
            None => None,
        }
    }

    /// Reference allele of the selected location of build `g`.
    pub fn get_ref(&self, g: &Genome) -> (r: Option<&str>)
        ensures
            match self.selected(*g) {
                Some(l) => r is Some && r->0@ == l.reference_allele_vcf@,
                None => r is None,
            },
    {
        match self.get_location(g) {
            Some(l) => Some(l.reference_allele_vcf.as_str()),
            None => None,
        }
    }

    /// Alternate allele of the selected location of build `g`.
    pub fn get_alt(&self, g: &Genome) -> (r: Option<&str>)
        ensures
            match self.selected(*g) {
                Some(l) => r is Some && r->0@ == l.alternate_allele_vcf@,
                None => r is None,
            },
    {
        match self.get_location(g) {
            Some(l) => Some(l.alternate_allele_vcf.as_str()),
            None => None,
        }
    }

    /// The record's RCV accession.
    pub fn get_rcv(&self) -> (r: &str)
        ensures
            r@ == self.reference_clinvar_assertion.clinvar_accession.rcv@,
    {
        self.reference_clinvar_assertion.clinvar_accession.rcv.as_str()
    }

    /// Evaluation date of the first germline classification.
    pub fn get_date_last_evaluated(&self) -> (r: &str)
        requires
            self.reference_clinvar_assertion.classifications.germline@.len() > 0,
        ensures
            r@ == self.reference_clinvar_assertion.classifications.germline@[0].description.date_last_evaluated@,
    {
        self.reference_clinvar_assertion.classifications.germline[0].description.date_last_evaluated.as_str()
    }

    /// Text of the first germline classification.
    pub fn get_description(&self) -> (r: &str)
        requires
            self.reference_clinvar_assertion.classifications.germline@.len() > 0,
        ensures
            r@ == self.reference_clinvar_assertion.classifications.germline@[0].description.description@,
    {
        self.reference_clinvar_assertion.classifications.germline[0].description.description.as_str()
    }

    /// The compact locus line of build `g`, if the record has a location of
    /// that build.
    pub fn get_repr(&self, g: &Genome) -> (r: Option<String>)
        requires
            self.selected(*g) is Some
                ==> self.reference_clinvar_assertion.classifications.germline@.len() > 0,
        ensures
            match self.selected(*g) {
                Some(l) => r is Some && r->0@ == repr_line(
                    l,
                    self.reference_clinvar_assertion.clinvar_accession.rcv@,
                    self.reference_clinvar_assertion.classifications.germline@[0].description.description@,
                ),
                None => r is None,
            },
    {
        let l = match self.get_location(g) {
            Some(l) => l,
            None => {
                return None;
            },
        };
        let mut s = crate::clinvar::record::contig_name(l.chr.as_str());
        s.append("\t");
        s.append(l.position_vcf.as_str());
        s.append("\t");
        s.append(l.reference_allele_vcf.as_str());
        s.append("\t");
        s.append(l.alternate_allele_vcf.as_str());
        s.append("\t");
        s.append(self.get_rcv());
        s.append("\t");
        s.append(self.get_description());
        s.append("\n");
        Some(s)
    }
}

} // verus!
