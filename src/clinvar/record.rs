use vstd::prelude::*;

use crate::cli::{assembly_name, Genome};
use crate::error::ClinvarXMLTabError;
use crate::text::{
    copy_string, decimal, eq_str, normalize_classification, normalized_classification,
    parse_usize, parsed_usize, usize_text,
};
use crate::xml::handler::{
    attribute_of, opt_view, strings_view, visit_name, NodeVisit, VisitModel,
};
use noodles_core::Position;
use noodles_vcf::io::Writer;
use noodles_vcf::variant::io::Write;
use noodles_vcf::variant::record_buf::{info::field::Value, AlternateBases};
use noodles_vcf::variant::RecordBuf;

verus! {

/// Fields extracted from one `ClinVarSet` record. Every field starts unset;
/// the locus fields are those of the selected genome build.
#[derive(Debug)]
pub struct ClinVarRecord {
    pub status: Option<String>,
    pub replaces: Option<String>,
    pub rcv: Option<String>,
    pub vcv: Option<String>,
    pub clnsig: Option<String>,
    pub description: Option<String>,
    pub date_last_updated: Option<String>,
    pub chromosome: Option<String>,
    pub position: Option<usize>,
    pub reference: Option<String>,
    pub alternate: Option<String>,
}

/// Mathematical view of a [`ClinVarRecord`].
pub struct RecordModel {
    pub status: Option<Seq<char>>,
    pub replaces: Option<Seq<char>>,
    pub rcv: Option<Seq<char>>,
    pub vcv: Option<Seq<char>>,
    pub clnsig: Option<Seq<char>>,
    pub description: Option<Seq<char>>,
    pub date_last_updated: Option<Seq<char>>,
    pub chromosome: Option<Seq<char>>,
    pub position: Option<usize>,
    pub reference: Option<Seq<char>>,
    pub alternate: Option<Seq<char>>,
}

impl View for ClinVarRecord {
    type V = RecordModel;

    open spec fn view(&self) -> RecordModel {
        RecordModel {
            status: opt_view(self.status),
            replaces: opt_view(self.replaces),
            rcv: opt_view(self.rcv),
            vcv: opt_view(self.vcv),
            clnsig: opt_view(self.clnsig),
            description: opt_view(self.description),
            date_last_updated: opt_view(self.date_last_updated),
            chromosome: opt_view(self.chromosome),
            position: self.position,
            reference: opt_view(self.reference),
            alternate: opt_view(self.alternate),
        }
    }
}

/// The record with every field unset.
pub open spec fn empty_record() -> RecordModel {
    RecordModel {
        status: None,
        replaces: None,
        rcv: None,
        vcv: None,
        clnsig: None,
        description: None,
        date_last_updated: None,
        chromosome: None,
        position: None,
        reference: None,
        alternate: None,
    }
}

impl ClinVarRecord {
    /// A record with every field unset.
    pub fn new() -> (r: ClinVarRecord)
        ensures
            r@ == empty_record(),
    {
        ClinVarRecord {
            status: None,
            replaces: None,
            rcv: None,
            vcv: None,
            clnsig: None,
            description: None,
            date_last_updated: None,
            chromosome: None,
            position: None,
            reference: None,
            alternate: None,
        }
    }
}

pub open spec fn or_empty(o: Option<Seq<char>>) -> Seq<char> {
    match o {
        Some(s) => s,
        None => Seq::empty(),
    }
}

pub open spec fn rcv_path() -> Seq<Seq<char>> {
    seq!["ClinVarSet"@, "ReferenceClinVarAssertion"@, "ClinVarAccession"@]
}

pub open spec fn measure_set_path() -> Seq<Seq<char>> {
    seq!["ClinVarSet"@, "ReferenceClinVarAssertion"@, "MeasureSet"@]
}

pub open spec fn classification_path() -> Seq<Seq<char>> {
    seq![
        "ClinVarSet"@,
        "ReferenceClinVarAssertion"@,
        "Classifications"@,
        "GermlineClassification"@,
        "Description"@,
    ]
}

pub open spec fn location_path() -> Seq<Seq<char>> {
    seq![
        "ClinVarSet"@,
        "ReferenceClinVarAssertion"@,
        "MeasureSet"@,
        "Measure"@,
        "SequenceLocation"@,
    ]
}

/// The locus of a `SequenceLocation` block: chromosome token, position,
/// reference and alternate alleles, each unset where the attribute is
/// missing (or, for the position, not a number).
pub open spec fn locus_of(r: RecordModel, v: VisitModel) -> RecordModel {
    RecordModel {
        chromosome: attribute_of(v.attributes, "Chr"@),
        position: match attribute_of(v.attributes, "positionVCF"@) {
            Some(p) => parsed_usize(p),
            None => None,
        },
        reference: attribute_of(v.attributes, "referenceAlleleVCF"@),
        alternate: attribute_of(v.attributes, "alternateAlleleVCF"@),
        ..r
    }
}

/// Whether a visit is a locus block of the build `g`.
pub open spec fn is_locus_of(v: VisitModel, g: Genome) -> bool {
    v.depth == 5 && v.path == location_path() && attribute_of(v.attributes, "Assembly"@)
        == Some(assembly_name(g))
}

/// The extraction rule table: the record after one visit.
///
/// Shallow fields match on depth and element name; accession and locus fields
/// match on the exact path. A locus block only applies for its own build.
pub open spec fn apply_rule(r: RecordModel, v: VisitModel, g: Genome) -> RecordModel {
    let text = or_empty(v.text);
    if v.depth == 2 {
        if visit_name(v) == "RecordStatus"@ {
            RecordModel { status: Some(text), ..r }
        } else if visit_name(v) == "Replaces"@ {
            RecordModel { replaces: Some(text), ..r }
        } else if visit_name(v) == "Title"@ {
            RecordModel { description: Some(text), ..r }
        } else if visit_name(v) == "ReferenceClinVarAssertion"@ {
            RecordModel {
                date_last_updated: Some(or_empty(attribute_of(v.attributes, "DateLastUpdated"@))),
                ..r
            }
        } else {
            r
        }
    } else if v.depth == 3 {
        if v.path == rcv_path() && attribute_of(v.attributes, "Type"@) == Some("RCV"@) {
            RecordModel { rcv: Some(or_empty(attribute_of(v.attributes, "Acc"@))), ..r }
        } else if v.path == measure_set_path() {
            RecordModel { vcv: Some(or_empty(attribute_of(v.attributes, "Acc"@))), ..r }
        } else {
            r
        }
    } else if v.depth == 5 {
        if v.path == classification_path() {
            RecordModel { clnsig: Some(normalized_classification(text)), ..r }
        } else if is_locus_of(v, g) {
            locus_of(r, v)
        } else {
            r
        }
    } else {
        r
    }
}

/// The record after a sequence of visits, applied in order.
pub open spec fn apply_rules(r: RecordModel, vs: Seq<VisitModel>, g: Genome) -> RecordModel
    decreases vs.len(),
{
    if vs.len() == 0 {
        r
    } else {
        apply_rule(apply_rules(r, vs.drop_last(), g), vs.last(), g)
    }
}

fn text_or_empty(o: &Option<String>) -> (r: String)
    ensures
        r@ == or_empty(opt_view(*o)),
{
    match o {
        Some(s) => copy_string(s),
        None => {
            proof {
                reveal_strlit("");
            }
            let e = String::from_str("");
            assert(e@ =~= Seq::<char>::empty());
            e
        },
    }
}

fn attribute_or_empty(v: &NodeVisit, name: &str) -> (r: String)
    ensures
        r@ == or_empty(attribute_of(v@.attributes, name@)),
{
    let a = v.attribute(name);
    text_or_empty(&a)
}

/// Applies the extraction rules to one visit; the last match of a rule wins.
pub fn dispatch(record: &mut ClinVarRecord, v: &NodeVisit, genome: Genome)
    ensures
        final(record)@ == apply_rule(old(record)@, v@, genome),
{
    if v.depth == 2 {
        if v.has_name("RecordStatus") {
            record.status = Some(text_or_empty(&v.text));
        } else if v.has_name("Replaces") {
            record.replaces = Some(text_or_empty(&v.text));
        } else if v.has_name("Title") {
            record.description = Some(text_or_empty(&v.text));
        } else if v.has_name("ReferenceClinVarAssertion") {
            record.date_last_updated = Some(attribute_or_empty(v, "DateLastUpdated"));
        }
    } else if v.depth == 3 {
        let rcv: [&str; 3] = ["ClinVarSet", "ReferenceClinVarAssertion", "ClinVarAccession"];
        let measure_set: [&str; 3] = ["ClinVarSet", "ReferenceClinVarAssertion", "MeasureSet"];
        assert(rcv@.map_values(|s: &str| s@) =~= rcv_path());
        assert(measure_set@.map_values(|s: &str| s@) =~= measure_set_path());
        let is_rcv = v.path_is(&rcv) && match v.attribute("Type") {
            Some(t) => eq_str(t.as_str(), "RCV"),
            None => false,
        };
        if is_rcv {
            record.rcv = Some(attribute_or_empty(v, "Acc"));
        } else if v.path_is(&measure_set) {
            record.vcv = Some(attribute_or_empty(v, "Acc"));
        }
    } else if v.depth == 5 {
        let classification: [&str; 5] = [
            "ClinVarSet",
            "ReferenceClinVarAssertion",
            "Classifications",
            "GermlineClassification",
            "Description",
        ];
        let location: [&str; 5] = [
            "ClinVarSet",
            "ReferenceClinVarAssertion",
            "MeasureSet",
            "Measure",
            "SequenceLocation",
        ];
        assert(classification@.map_values(|s: &str| s@) =~= classification_path());
        assert(location@.map_values(|s: &str| s@) =~= location_path());
        if v.path_is(&classification) {
            let t = text_or_empty(&v.text);
            record.clnsig = Some(normalize_classification(t.as_str()));
        } else if v.path_is(&location) && match v.attribute("Assembly") {
            Some(a) => eq_str(a.as_str(), genome.assembly()),
            None => false,
        } {
            record.chromosome = v.attribute("Chr");
            record.position = match v.attribute("positionVCF") {
                Some(p) => parse_usize(p.as_str()),
                None => None,
            };
            record.reference = v.attribute("referenceAlleleVCF");
            record.alternate = v.attribute("alternateAlleleVCF");
        }
    }
}

/// Lifecycle of a sink: the header is written exactly once, before any record
/// row, and nothing is written after closing.
#[derive(Clone, Copy, Debug, PartialEq, Eq, Structural)]
pub enum SinkState {
    AwaitingHeader,
    HeaderWritten,
    Closed,
}

#[verifier::external_type_specification]
#[verifier::external_body]
pub struct ExCsvError(csv::Error);

/// The bytes of one CSV row holding `fields`, as the csv crate writes it.
pub uninterp spec fn csv_line(fields: Seq<Seq<char>>) -> Seq<u8>;

/// Relies on `csv::Writer::write_record` (with `from_writer` and
/// `into_inner`): the fields of one row, quoted where needed, then the
/// terminator. Into a fresh in-memory writer this cannot fail: the first
/// record skips the field-count check, and writing to a `Vec` never errs.
#[verifier::external_body]
fn csv_record(fields: &Vec<String>) -> (r: Result<Vec<u8>, csv::Error>)
    ensures
        r is Ok,
        r is Ok ==> r->Ok_0@ == csv_line(strings_view(fields@)),
{
    let mut w = csv::Writer::from_writer(Vec::new());
    w.write_record(fields)?;
    w.into_inner().map_err(|e| e.into_error().into())
}

/// Column names of the tabular encoding.
pub open spec fn tabular_header() -> Seq<Seq<char>> {
    seq![
        "STATUS"@,
        "REPLACES"@,
        "RCV"@,
        "VCV"@,
        "CLNSIG"@,
        "DESCRIPTION"@,
        "DATE_LAST_UPDATED"@,
        "CHROMOSOME"@,
        "POSITION"@,
        "REFERENCE"@,
        "ALTERNATE"@,
    ]
}

/// A chromosome token in the `chr`-prefixed form.
pub open spec fn prefixed_chromosome(t: Seq<char>) -> Seq<char> {
    "chr"@ + t
}

/// The fields of the tabular row of a record: unset fields are empty, except
/// the superseded accession, which is left out of the row when unset.
pub open spec fn tabular_fields(r: RecordModel) -> Seq<Seq<char>> {
    seq![or_empty(r.status)] + match r.replaces {
        Some(x) => seq![x],
        None => Seq::empty(),
    } + seq![
        or_empty(r.rcv),
        or_empty(r.vcv),
        or_empty(r.clnsig),
        or_empty(r.description),
        or_empty(r.date_last_updated),
        match r.chromosome {
            Some(c) => prefixed_chromosome(c),
            None => Seq::empty(),
        },
        match r.position {
            Some(p) => decimal(p as nat),
            None => Seq::empty(),
        },
        or_empty(r.reference),
        or_empty(r.alternate),
    ]
}

fn push_str(v: &mut Vec<String>, s: &str)
    ensures
        strings_view(final(v)@) == strings_view(old(v)@).push(s@),
{
    v.push(String::from_str(s));
    assert(strings_view(v@) =~= strings_view(old(v)@).push(s@));
}

fn push_string(v: &mut Vec<String>, s: String)
    ensures
        strings_view(final(v)@) == strings_view(old(v)@).push(s@),
{
    v.push(s);
    assert(strings_view(v@) =~= strings_view(old(v)@).push(s@));
}

fn push_opt(v: &mut Vec<String>, o: &Option<String>)
    ensures
        strings_view(final(v)@) == strings_view(old(v)@).push(or_empty(opt_view(*o))),
{
    push_string(v, text_or_empty(o));
}

fn concat_str(a: &str, b: &str) -> (r: String)
    ensures
        r@ == a@ + b@,
{
    let mut s = String::from_str(a);
    s.append(b);
    s
}

/// Builds the tabular row of a record.
pub fn tabular_row(r: &ClinVarRecord) -> (out: Vec<String>)
    ensures
        strings_view(out@) == tabular_fields(r@),
{
    let mut v: Vec<String> = Vec::new();
    push_opt(&mut v, &r.status);
    match &r.replaces {
        Some(x) => push_string(&mut v, copy_string(x)),
        None => {},
    }
    push_opt(&mut v, &r.rcv);
    push_opt(&mut v, &r.vcv);
    push_opt(&mut v, &r.clnsig);
    push_opt(&mut v, &r.description);
    push_opt(&mut v, &r.date_last_updated);
    match &r.chromosome {
        Some(c) => {
            proof {
                reveal_strlit("chr");
            }
            push_string(&mut v, concat_str("chr", c.as_str()));
        },
        None => push_opt(&mut v, &None),
    }
    match r.position {
        Some(p) => push_string(&mut v, usize_text(p)),
        None => push_opt(&mut v, &None),
    }
    push_opt(&mut v, &r.reference);
    push_opt(&mut v, &r.alternate);
    assert(strings_view(v@) =~= tabular_fields(r@));
    v
}

/// Builds the header row of the tabular encoding.
pub fn tabular_header_row() -> (out: Vec<String>)
    ensures
        strings_view(out@) == tabular_header(),
{
    let mut v: Vec<String> = Vec::new();
    push_str(&mut v, "STATUS");
    push_str(&mut v, "REPLACES");
    push_str(&mut v, "RCV");
    push_str(&mut v, "VCV");
    push_str(&mut v, "CLNSIG");
    push_str(&mut v, "DESCRIPTION");
    push_str(&mut v, "DATE_LAST_UPDATED");
    push_str(&mut v, "CHROMOSOME");
    push_str(&mut v, "POSITION");
    push_str(&mut v, "REFERENCE");
    push_str(&mut v, "ALTERNATE");
    assert(strings_view(v@) =~= tabular_header());
    v
}

/// Tabular sink: a header row, then one row per record whatever fields
/// resolved.
pub struct CSVRecordHandler {
    record: ClinVarRecord,
    genome: Genome,
    state: SinkState,
}

impl CSVRecordHandler {
    pub closed spec fn record_model(&self) -> RecordModel {
        self.record@
    }

    pub closed spec fn genome_model(&self) -> Genome {
        self.genome
    }

    pub closed spec fn state_model(&self) -> SinkState {
        self.state
    }

    /// A tabular sink for the build `genome`, before its header.
    pub fn new(genome: Genome) -> (r: CSVRecordHandler)
        ensures
            r.record_model() == empty_record(),
            r.genome_model() == genome,
            r.state_model() == SinkState::AwaitingHeader,
    {
        CSVRecordHandler { record: ClinVarRecord::new(), genome, state: SinkState::AwaitingHeader }
    }

    /// The genome build the sink selects locus blocks for.
    pub fn genome(&self) -> (r: Genome)
        ensures
            r == self.genome_model(),
    {
        self.genome
    }

    /// The sink's lifecycle state.
    pub fn state(&self) -> (r: SinkState)
        ensures
            r == self.state_model(),
    {
        self.state
    }

    /// The record accumulated so far.
    pub fn record(&self) -> (r: &ClinVarRecord)
        ensures
            r@ == self.record_model(),
    {
        &self.record
    }

    /// The header row. Must come first, and only once.
    pub fn write_header(&mut self) -> (r: Result<Vec<u8>, ClinvarXMLTabError>)
        requires
            old(self).state_model() == SinkState::AwaitingHeader,
        ensures
            final(self).record_model() == old(self).record_model(),
            final(self).genome_model() == old(self).genome_model(),
            r is Ok,
            r->Ok_0@ == csv_line(tabular_header()),
            final(self).state_model() == SinkState::HeaderWritten,
    {
        let row = tabular_header_row();
        match csv_record(&row) {
            Ok(b) => {
                self.state = SinkState::HeaderWritten;
                Ok(b)
            },
            Err(_) => Err(ClinvarXMLTabError::CSVError),
        }
    }

    /// Applies the extraction rules to one visit of the current record.
    pub fn handle(&mut self, v: &NodeVisit)
        ensures
            final(self).record_model() == apply_rule(
                old(self).record_model(),
                v@,
                old(self).genome_model(),
            ),
            final(self).genome_model() == old(self).genome_model(),
            final(self).state_model() == old(self).state_model(),
    {
        dispatch(&mut self.record, v, self.genome);
    }

    /// The row of a finished record.
    pub fn accept(&self, record: &ClinVarRecord) -> (r: Result<Vec<u8>, ClinvarXMLTabError>)
        requires
            self.state_model() == SinkState::HeaderWritten,
        ensures
            r is Ok,
            r->Ok_0@ == csv_line(tabular_fields(record@)),
    {
        let row = tabular_row(record);
        match csv_record(&row) {
            Ok(b) => Ok(b),
            Err(_) => Err(ClinvarXMLTabError::CSVError),
        }
    }

    /// Ends the current record: its row, and an empty record for the next one.
    pub fn end_record(&mut self) -> (r: Result<Vec<u8>, ClinvarXMLTabError>)
        requires
            old(self).state_model() == SinkState::HeaderWritten,
        ensures
            final(self).record_model() == empty_record(),
            final(self).genome_model() == old(self).genome_model(),
            final(self).state_model() == SinkState::HeaderWritten,
            r is Ok,
            r->Ok_0@ == csv_line(tabular_fields(old(self).record_model())),
    {
        let mut rec = ClinVarRecord::new();
        std::mem::swap(&mut rec, &mut self.record);
        self.accept(&rec)
    }

    /// Closes the sink; nothing is written after this.
    pub fn close(&mut self)
        requires
            old(self).state_model() == SinkState::HeaderWritten,
        ensures
            final(self).state_model() == SinkState::Closed,
            final(self).record_model() == old(self).record_model(),
            final(self).genome_model() == old(self).genome_model(),
    {
        self.state = SinkState::Closed;
    }
}

/// One data line of the variant encoding, as plain values.
pub struct VariantRow {
    pub contig: String,
    pub position: usize,
    pub reference: String,
    pub alternate: String,
    pub filters: Vec<String>,
    pub info: Vec<(String, Option<String>)>,
}

/// Mathematical view of a [`VariantRow`].
pub struct VariantRowModel {
    pub contig: Seq<char>,
    pub position: usize,
    pub reference: Seq<char>,
    pub alternate: Seq<char>,
    pub filters: Seq<Seq<char>>,
    pub info: Seq<(Seq<char>, Option<Seq<char>>)>,
}

pub open spec fn info_view(v: Seq<(String, Option<String>)>) -> Seq<
    (Seq<char>, Option<Seq<char>>),
> {
    v.map_values(|p: (String, Option<String>)| (p.0@, opt_view(p.1)))
}

impl View for VariantRow {
    type V = VariantRowModel;

    open spec fn view(&self) -> VariantRowModel {
        VariantRowModel {
            contig: self.contig@,
            position: self.position,
            reference: self.reference@,
            alternate: self.alternate@,
            filters: strings_view(self.filters@),
            info: info_view(self.info@),
        }
    }
}

/// Contig label of a chromosome token: the mitochondrial token `MT` is
/// `chrM`, every other token takes the `chr` prefix.
pub open spec fn contig_label(t: Seq<char>) -> Seq<char> {
    if t == "MT"@ {
        "chrM"@
    } else {
        prefixed_chromosome(t)
    }
}

/// Whether all four locus fields resolved (the position being 1-based).
pub open spec fn locus_resolved(r: RecordModel) -> bool {
    r.chromosome is Some && r.position is Some && r.position->0 >= 1 && r.reference is Some
        && r.alternate is Some
}

/// The variant line of a record, if its locus resolved: contig, position,
/// alleles, the `PASS` filter, and the accession and classification as
/// `CLNACC` and `CLNSIG`.
pub open spec fn variant_row(r: RecordModel) -> Option<VariantRowModel> {
    if locus_resolved(r) {
        Some(
            VariantRowModel {
                contig: contig_label(r.chromosome->0),
                position: r.position->0,
                reference: r.reference->0,
                alternate: r.alternate->0,
                filters: seq!["PASS"@],
                info: seq![("CLNACC"@, r.rcv), ("CLNSIG"@, r.clnsig)],
            },
        )
    } else {
        None
    }
}

/// The contig label of a chromosome token.
pub fn contig_name(t: &str) -> (r: String)
    ensures
        r@ == contig_label(t@),
{
    if eq_str(t, "MT") {
        proof {
            reveal_strlit("chrM");
        }
        String::from_str("chrM")
    } else {
        proof {
            reveal_strlit("chr");
        }
        concat_str("chr", t)
    }
}

fn copy_opt(o: &Option<String>) -> (r: Option<String>)
    ensures
        opt_view(r) == opt_view(*o),
{
    match o {
        Some(s) => Some(copy_string(s)),
        None => None,
    }
}

/// Builds the variant line of a record, or `None` where its locus did not
/// resolve.
pub fn build_variant_row(r: &ClinVarRecord) -> (out: Option<VariantRow>)
    ensures
        match variant_row(r@) {
            Some(m) => out is Some && out->0@ == m,
            None => out is None,
        },
{
    match (&r.chromosome, r.position, &r.reference, &r.alternate) {
        (Some(c), Some(p), Some(a), Some(b)) => {
            if p == 0 {
                return None;
            }
            let mut filters: Vec<String> = Vec::new();
            push_str(&mut filters, "PASS");
            let mut info: Vec<(String, Option<String>)> = Vec::new();
            info.push((String::from_str("CLNACC"), copy_opt(&r.rcv)));
            info.push((String::from_str("CLNSIG"), copy_opt(&r.clnsig)));
            let row = VariantRow {
                contig: contig_name(c.as_str()),
                position: p,
                reference: copy_string(a),
                alternate: copy_string(b),
                filters,
                info,
            };
            assert(row@.info =~= seq![("CLNACC"@, r@.rcv), ("CLNSIG"@, r@.clnsig)]);
            assert(row@.filters =~= seq!["PASS"@]);
            Some(row)
        },
        _ => None,
    }
}

#[verifier::external_type_specification]
#[verifier::external_body]
pub struct ExVcfHeader(noodles_vcf::Header);

#[verifier::external_type_specification]
#[verifier::external_body]
pub struct ExIoError(std::io::Error);

/// Relies on `noodles_vcf::io::Writer::write_header`: the header in VCF text
/// form.
#[verifier::external_body]
fn vcf_header_bytes(header: &noodles_vcf::Header) -> (r: Result<Vec<u8>, std::io::Error>) {
    let mut w = noodles_vcf::io::Writer::new(Vec::new());
    w.write_header(header)?;
    Ok(w.into_inner())
}

/// The data line noodles writes for a row, or `None` where it refuses one of
/// the row's values.
pub uninterp spec fn vcf_line(row: VariantRowModel) -> Option<Seq<u8>>;

/// Relies on `noodles_vcf::variant::RecordBuf::builder` and the VCF writer's
/// `write_variant_record`: one data line for the row. For a `RecordBuf` the
/// writer does not consult the header, so the line depends on the row alone.
/// `noodles_core::Position::new` rejects only 0.
#[verifier::external_body]
fn vcf_row_line(header: &noodles_vcf::Header, row: &VariantRow) -> (r: Result<
    Vec<u8>,
    std::io::Error,
>)
    requires
        row.position >= 1,
    ensures
        r is Ok <==> vcf_line(row@) is Some,
        r is Ok ==> r->Ok_0@ == vcf_line(row@)->0,
{
    let record = RecordBuf::builder()
        .set_reference_sequence_name(row.contig.clone())
        .set_variant_start(Position::new(row.position).unwrap())
        .set_reference_bases(row.reference.clone())
        .set_alternate_bases(AlternateBases::from(vec![row.alternate.clone()]))
        .set_filters(row.filters.iter().cloned().collect())
        .set_info(row.info.iter().map(|(k, v)| (k.clone(), v.clone().map(Value::String))).collect())
        .build();
    let mut w = Writer::new(Vec::new());
    w.write_variant_record(header, &record)?;
    Ok(w.into_inner())
}

/// What the variant sink hands out for a finished record: nothing for a
/// record whose locus did not resolve, else the encoded line of its row, or
/// the encoder's refusal.
pub open spec fn variant_outcome(r: RecordModel) -> Result<Option<Seq<u8>>, ClinvarXMLTabError> {
    match variant_row(r) {
        None => Ok(None),
        Some(m) => match vcf_line(m) {
            Some(b) => Ok(Some(b)),
            None => Err(ClinvarXMLTabError::VCFError),
        },
    }
}

pub open spec fn outcome_view(r: Result<Option<Vec<u8>>, ClinvarXMLTabError>) -> Result<
    Option<Seq<u8>>,
    ClinvarXMLTabError,
> {
    match r {
        Ok(Some(b)) => Ok(Some(b@)),
        Ok(None) => Ok(None),
        Err(e) => Err(e),
    }
}

/// Records dropped by the variant sink for one finished record.
pub open spec fn drops_of(r: RecordModel) -> nat {
    if variant_row(r) is None {
        1
    } else {
        0
    }
}

/// Lines written by the variant sink for one finished record.
pub open spec fn writes_of(r: RecordModel) -> nat {
    if variant_outcome(r) is Ok && variant_outcome(r)->Ok_0 is Some {
        1
    } else {
        0
    }
}

/// Variant sink: a header section, then one line per record whose locus
/// resolved; the others are dropped and counted.
pub struct VCFRecordHandler {
    record: ClinVarRecord,
    vcf_header: noodles_vcf::Header,
    genome: Genome,
    state: SinkState,
    written: u64,
    dropped: u64,
}

impl VCFRecordHandler {
    pub closed spec fn record_model(&self) -> RecordModel {
        self.record@
    }

    pub closed spec fn genome_model(&self) -> Genome {
        self.genome
    }

    pub closed spec fn state_model(&self) -> SinkState {
        self.state
    }

    pub closed spec fn written_model(&self) -> nat {
        self.written as nat
    }

    pub closed spec fn dropped_model(&self) -> nat {
        self.dropped as nat
    }

    /// A variant sink for the build `genome` that writes `vcf_header`.
    pub fn new_from_header(vcf_header: noodles_vcf::Header, genome: Genome) -> (r: VCFRecordHandler)
        ensures
            r.record_model() == empty_record(),
            r.genome_model() == genome,
            r.state_model() == SinkState::AwaitingHeader,
            r.written_model() == 0,
            r.dropped_model() == 0,
    {
        VCFRecordHandler {
            record: ClinVarRecord::new(),
            vcf_header,
            genome,
            state: SinkState::AwaitingHeader,
            written: 0,
            dropped: 0,
        }
    }

    /// The genome build the sink selects locus blocks for.
    pub fn genome(&self) -> (r: Genome)
        ensures
            r == self.genome_model(),
    {
        self.genome
    }

    /// The sink's lifecycle state.
    pub fn state(&self) -> (r: SinkState)
        ensures
            r == self.state_model(),
    {
        self.state
    }

    /// The record accumulated so far.
    pub fn record(&self) -> (r: &ClinVarRecord)
        ensures
            r@ == self.record_model(),
    {
        &self.record
    }

    /// Number of records written as lines.
    pub fn written(&self) -> (r: u64)
        ensures
            r == self.written_model(),
    {
        self.written
    }

    /// Number of records dropped for want of a resolved locus.
    pub fn dropped(&self) -> (r: u64)
        ensures
            r == self.dropped_model(),
    {
        self.dropped
    }

    /// The header section. Must come first, and only once.
    pub fn write_header(&mut self) -> (r: Result<Vec<u8>, ClinvarXMLTabError>)
        requires
            old(self).state_model() == SinkState::AwaitingHeader,
        ensures
            final(self).record_model() == old(self).record_model(),
            final(self).genome_model() == old(self).genome_model(),
            final(self).written_model() == old(self).written_model(),
            final(self).dropped_model() == old(self).dropped_model(),
            match r {
                Ok(_) => final(self).state_model() == SinkState::HeaderWritten,
                Err(e) => e == ClinvarXMLTabError::VCFError && final(self).state_model()
                    == SinkState::AwaitingHeader,
            },
    {
        match vcf_header_bytes(&self.vcf_header) {
            Ok(b) => {
                self.state = SinkState::HeaderWritten;
                Ok(b)
            },
            Err(_) => Err(ClinvarXMLTabError::VCFError),
        }
    }

    /// Applies the extraction rules to one visit of the current record.
    pub fn handle(&mut self, v: &NodeVisit)
        ensures
            final(self).record_model() == apply_rule(
                old(self).record_model(),
                v@,
                old(self).genome_model(),
            ),
            final(self).genome_model() == old(self).genome_model(),
            final(self).state_model() == old(self).state_model(),
            final(self).written_model() == old(self).written_model(),
            final(self).dropped_model() == old(self).dropped_model(),
    {
        dispatch(&mut self.record, v, self.genome);
    }

    /// Ends the current record and decides its fate: the line built from it
    /// where its locus resolved, else `None` and one more dropped record. The
    /// record is reset for the next one either way.
    pub fn finish_record(&mut self) -> (r: Option<VariantRow>)
        requires
            old(self).state_model() == SinkState::HeaderWritten,
            old(self).dropped_model() < u64::MAX,
        ensures
            final(self).record_model() == empty_record(),
            final(self).genome_model() == old(self).genome_model(),
            final(self).state_model() == old(self).state_model(),
            final(self).written_model() == old(self).written_model(),
            match variant_row(old(self).record_model()) {
                Some(m) => r is Some && r->0@ == m && final(self).dropped_model()
                    == old(self).dropped_model(),
                None => r is None && final(self).dropped_model() == old(self).dropped_model()
                    + 1,
            },
    {
        let built = build_variant_row(&self.record);
        self.record = ClinVarRecord::new();
        if built.is_none() {
            self.dropped = self.dropped + 1;
        }
        built
    }

    /// Encodes one line against the sink's header.
    pub fn encode_row(&mut self, row: &VariantRow) -> (r: Result<Vec<u8>, ClinvarXMLTabError>)
        requires
            old(self).state_model() == SinkState::HeaderWritten,
            old(self).written_model() < u64::MAX,
            row.position >= 1,
        ensures
            final(self).record_model() == old(self).record_model(),
            final(self).genome_model() == old(self).genome_model(),
            final(self).state_model() == old(self).state_model(),
            final(self).dropped_model() == old(self).dropped_model(),
            match vcf_line(row@) {
                Some(b) => r is Ok && r->Ok_0@ == b && final(self).written_model()
                    == old(self).written_model() + 1,
                None => r == Err::<Vec<u8>, ClinvarXMLTabError>(ClinvarXMLTabError::VCFError)
                    && final(self).written_model() == old(self).written_model(),
            },
    {
        match vcf_row_line(&self.vcf_header, row) {
            Ok(b) => {
                self.written = self.written + 1;
                Ok(b)
            },
            Err(_) => Err(ClinvarXMLTabError::VCFError),
        }
    }

    /// Takes a finished record: `Ok(None)` where it is dropped for want of a
    /// resolved locus, else its encoded line.
    pub fn accept(&mut self, record: &ClinVarRecord) -> (r: Result<
        Option<Vec<u8>>,
        ClinvarXMLTabError,
    >)
        requires
            old(self).state_model() == SinkState::HeaderWritten,
            old(self).written_model() < u64::MAX,
            old(self).dropped_model() < u64::MAX,
        ensures
            final(self).record_model() == old(self).record_model(),
            final(self).genome_model() == old(self).genome_model(),
            final(self).state_model() == SinkState::HeaderWritten,
            outcome_view(r) == variant_outcome(record@),
            final(self).dropped_model() == old(self).dropped_model() + drops_of(record@),
            final(self).written_model() == old(self).written_model() + writes_of(record@),
    {
        match build_variant_row(record) {
            Some(row) => match self.encode_row(&row) {
                Ok(b) => Ok(Some(b)),
                Err(e) => Err(e),
            },
            None => {
                self.dropped = self.dropped + 1;
                Ok(None)
            },
        }
    }

    /// Ends the current record: `Ok(None)` where it was dropped for want of a
    /// resolved locus, else its encoded line. The record is reset either way.
    pub fn end_record(&mut self) -> (r: Result<Option<Vec<u8>>, ClinvarXMLTabError>)
        requires
            old(self).state_model() == SinkState::HeaderWritten,
            old(self).written_model() < u64::MAX,
            old(self).dropped_model() < u64::MAX,
        ensures
            final(self).record_model() == empty_record(),
            final(self).genome_model() == old(self).genome_model(),
            final(self).state_model() == SinkState::HeaderWritten,
            outcome_view(r) == variant_outcome(old(self).record_model()),
            final(self).dropped_model() == old(self).dropped_model() + drops_of(
                old(self).record_model(),
            ),
            final(self).written_model() == old(self).written_model() + writes_of(
                old(self).record_model(),
            ),
    {
        let mut rec = ClinVarRecord::new();
        std::mem::swap(&mut rec, &mut self.record);
        self.accept(&rec)
    }

    /// Closes the sink; nothing is written after this.
    pub fn close(&mut self)
        requires
            old(self).state_model() == SinkState::HeaderWritten,
        ensures
            final(self).state_model() == SinkState::Closed,
            final(self).record_model() == old(self).record_model(),
            final(self).written_model() == old(self).written_model(),
            final(self).dropped_model() == old(self).dropped_model(),
    {
        self.state = SinkState::Closed;
    }
}

/// The fields a visit writes: `Some(value)` for each field it sets.
pub struct RecordDelta {
    pub status: Option<Option<Seq<char>>>,
    pub replaces: Option<Option<Seq<char>>>,
    pub rcv: Option<Option<Seq<char>>>,
    pub vcv: Option<Option<Seq<char>>>,
    pub clnsig: Option<Option<Seq<char>>>,
    pub description: Option<Option<Seq<char>>>,
    pub date_last_updated: Option<Option<Seq<char>>>,
    pub chromosome: Option<Option<Seq<char>>>,
    pub position: Option<Option<usize>>,
    pub reference: Option<Option<Seq<char>>>,
    pub alternate: Option<Option<Seq<char>>>,
}

pub open spec fn pick<T>(old: T, w: Option<T>) -> T {
    match w {
        Some(x) => x,
        None => old,
    }
}

pub open spec fn later<T>(a: Option<T>, b: Option<T>) -> Option<T> {
    match b {
        Some(x) => Some(x),
        None => a,
    }
}

/// `r` with the fields written by `d` replaced.
pub open spec fn overlay(r: RecordModel, d: RecordDelta) -> RecordModel {
    RecordModel {
        status: pick(r.status, d.status),
        replaces: pick(r.replaces, d.replaces),
        rcv: pick(r.rcv, d.rcv),
        vcv: pick(r.vcv, d.vcv),
        clnsig: pick(r.clnsig, d.clnsig),
        description: pick(r.description, d.description),
        date_last_updated: pick(r.date_last_updated, d.date_last_updated),
        chromosome: pick(r.chromosome, d.chromosome),
        position: pick(r.position, d.position),
        reference: pick(r.reference, d.reference),
        alternate: pick(r.alternate, d.alternate),
    }
}

/// The writes of `a` followed by those of `b`.
pub open spec fn compose(a: RecordDelta, b: RecordDelta) -> RecordDelta {
    RecordDelta {
        status: later(a.status, b.status),
        replaces: later(a.replaces, b.replaces),
        rcv: later(a.rcv, b.rcv),
        vcv: later(a.vcv, b.vcv),
        clnsig: later(a.clnsig, b.clnsig),
        description: later(a.description, b.description),
        date_last_updated: later(a.date_last_updated, b.date_last_updated),
        chromosome: later(a.chromosome, b.chromosome),
        position: later(a.position, b.position),
        reference: later(a.reference, b.reference),
        alternate: later(a.alternate, b.alternate),
    }
}

pub open spec fn no_writes() -> RecordDelta {
    RecordDelta {
        status: None,
        replaces: None,
        rcv: None,
        vcv: None,
        clnsig: None,
        description: None,
        date_last_updated: None,
        chromosome: None,
        position: None,
        reference: None,
        alternate: None,
    }
}

/// The writes of one visit: what `apply_rule` sets, whatever the record.
pub open spec fn delta_of(v: VisitModel, g: Genome) -> RecordDelta {
    let e = empty_record();
    let a = apply_rule(e, v, g);
    let text = or_empty(v.text);
    if v.depth == 2 {
        if visit_name(v) == "RecordStatus"@ {
            RecordDelta { status: Some(a.status), ..no_writes() }
        } else if visit_name(v) == "Replaces"@ {
            RecordDelta { replaces: Some(a.replaces), ..no_writes() }
        } else if visit_name(v) == "Title"@ {
            RecordDelta { description: Some(a.description), ..no_writes() }
        } else if visit_name(v) == "ReferenceClinVarAssertion"@ {
            RecordDelta { date_last_updated: Some(a.date_last_updated), ..no_writes() }
        } else {
            no_writes()
        }
    } else if v.depth == 3 {
        if v.path == rcv_path() && attribute_of(v.attributes, "Type"@) == Some("RCV"@) {
            RecordDelta { rcv: Some(a.rcv), ..no_writes() }
        } else if v.path == measure_set_path() {
            RecordDelta { vcv: Some(a.vcv), ..no_writes() }
        } else {
            no_writes()
        }
    } else if v.depth == 5 {
        if v.path == classification_path() {
            RecordDelta { clnsig: Some(a.clnsig), ..no_writes() }
        } else if is_locus_of(v, g) {
            RecordDelta {
                chromosome: Some(a.chromosome),
                position: Some(a.position),
                reference: Some(a.reference),
                alternate: Some(a.alternate),
                ..no_writes()
            }
        } else {
            no_writes()
        }
    } else {
        no_writes()
    }
}

/// The writes of a sequence of visits; later writes win.
pub open spec fn deltas_of(vs: Seq<VisitModel>, g: Genome) -> RecordDelta
    decreases vs.len(),
{
    if vs.len() == 0 {
        no_writes()
    } else {
        compose(deltas_of(vs.drop_last(), g), delta_of(vs.last(), g))
    }
}

proof fn lemma_rule_is_overlay(r: RecordModel, v: VisitModel, g: Genome)
    ensures
        apply_rule(r, v, g) == overlay(r, delta_of(v, g)),
{
}

proof fn lemma_overlay_compose(r: RecordModel, a: RecordDelta, b: RecordDelta)
    ensures
        overlay(overlay(r, a), b) == overlay(r, compose(a, b)),
{
}

proof fn lemma_rules_are_overlay(r: RecordModel, vs: Seq<VisitModel>, g: Genome)
    ensures
        apply_rules(r, vs, g) == overlay(r, deltas_of(vs, g)),
    decreases vs.len(),
{
    if vs.len() > 0 {
        lemma_rules_are_overlay(r, vs.drop_last(), g);
        lemma_rule_is_overlay(apply_rules(r, vs.drop_last(), g), vs.last(), g);
        lemma_overlay_compose(r, deltas_of(vs.drop_last(), g), delta_of(vs.last(), g));
    }
}

/// Dispatching the visits of a record a second time onto the record they
/// produced changes no field: each rule overwrites its fields with values
/// taken from the visit alone, and the last match wins.
pub proof fn lemma_dispatch_idempotent(r: RecordModel, vs: Seq<VisitModel>, g: Genome)
    ensures
        apply_rules(apply_rules(r, vs, g), vs, g) == apply_rules(r, vs, g),
{
    let d = deltas_of(vs, g);
    lemma_rules_are_overlay(r, vs, g);
    lemma_rules_are_overlay(apply_rules(r, vs, g), vs, g);
    lemma_overlay_compose(r, d, d);
    assert(compose(d, d) == d);
}

/// The locus fields of a record.
pub open spec fn locus_fields(r: RecordModel) -> (
    Option<Seq<char>>,
    Option<usize>,
    Option<Seq<char>>,
    Option<Seq<char>>,
) {
    (r.chromosome, r.position, r.reference, r.alternate)
}

proof fn lemma_locus_from_block(r: RecordModel, vs: Seq<VisitModel>, g: Genome, a: int)
    requires
        0 <= a < vs.len(),
        is_locus_of(vs[a], g),
        forall|k: int| 0 <= k < vs.len() && k != a ==> !is_locus_of(#[trigger] vs[k], g),
    ensures
        locus_fields(apply_rules(r, vs, g)) == locus_fields(locus_of(r, vs[a])),
    decreases vs.len(),
{
    if a < vs.len() - 1 {
        let p = vs.drop_last();
        assert forall|k: int| 0 <= k < p.len() && k != a implies !is_locus_of(#[trigger] p[k], g) by {
            assert(p[k] == vs[k]);
        }
        lemma_locus_from_block(r, p, g, a);
        assert(!is_locus_of(vs[vs.len() - 1], g));
    } else {
        lemma_paths_differ();
        assert(vs.drop_last().len() == a);
    }
}

proof fn lemma_paths_differ()
    ensures
        location_path() != classification_path(),
{
    reveal_strlit("MeasureSet");
    reveal_strlit("Classifications");
    assert(location_path()[2].len() != classification_path()[2].len());
}

/// With one locus block per build, selecting build 37 yields exactly the
/// build-37 locus and selecting build 38 exactly the build-38 locus.
pub proof fn lemma_build_selection(r: RecordModel, vs: Seq<VisitModel>, a: int, b: int)
    requires
        0 <= a < vs.len(),
        0 <= b < vs.len(),
        is_locus_of(vs[a], Genome::Hg19),
        is_locus_of(vs[b], Genome::Hg38),
        forall|k: int| 0 <= k < vs.len() && k != a ==> !is_locus_of(#[trigger] vs[k], Genome::Hg19),
        forall|k: int| 0 <= k < vs.len() && k != b ==> !is_locus_of(#[trigger] vs[k], Genome::Hg38),
    ensures
        locus_fields(apply_rules(r, vs, Genome::Hg19)) == locus_fields(locus_of(r, vs[a])),
        locus_fields(apply_rules(r, vs, Genome::Hg38)) == locus_fields(locus_of(r, vs[b])),
{
    lemma_locus_from_block(r, vs, Genome::Hg19, a);
    lemma_locus_from_block(r, vs, Genome::Hg38, b);
}

/// A record whose chromosome token is `MT` gets the contig `chrM` in the
/// variant encoding and the `chr`-prefixed `chrMT` in the tabular one.
pub proof fn lemma_mitochondrial_labels(r: RecordModel)
    requires
        r.chromosome == Some("MT"@),
    ensures
        locus_resolved(r) ==> variant_row(r)->0.contig == "chrM"@,
        tabular_fields(r).contains("chrMT"@),
{
    reveal_strlit("chr");
    reveal_strlit("MT");
    reveal_strlit("chrMT");
    assert(prefixed_chromosome("MT"@) =~= "chrMT"@);
    let f = tabular_fields(r);
    let tail = seq![
        or_empty(r.rcv),
        or_empty(r.vcv),
        or_empty(r.clnsig),
        or_empty(r.description),
        or_empty(r.date_last_updated),
        prefixed_chromosome("MT"@),
        match r.position {
            Some(p) => decimal(p as nat),
            None => Seq::empty(),
        },
        or_empty(r.reference),
        or_empty(r.alternate),
    ];
    let head = seq![or_empty(r.status)] + match r.replaces {
        Some(x) => seq![x],
        None => Seq::empty(),
    };
    assert(f == head + tail);
    assert(tail[5] == "chrMT"@);
    assert(f[head.len() + 5int] == tail[5]);
}

/// A record missing any of chromosome, position, reference or alternate
/// yields no variant line, while its tabular row still has every column but
/// the optional superseded accession.
pub proof fn lemma_unresolved_locus(r: RecordModel)
    requires
        r.chromosome is None || r.position is None || r.reference is None || r.alternate is None,
    ensures
        variant_row(r) is None,
        tabular_fields(r).len() == if r.replaces is Some { 11int } else { 10int },
{
}

} // verus!
