use vstd::prelude::*;

use crate::cli::Genome;
use crate::clinvar::record::{
    apply_rule, apply_rules, csv_line, dispatch, drops_of, empty_record, outcome_view,
    tabular_fields, tabular_header, variant_outcome, writes_of, CSVRecordHandler, RecordModel,
    SinkState, VCFRecordHandler,
};
use crate::error::ClinvarXMLTabError;
use crate::xml::handler::{NodeVisit, VisitModel};
use crate::xml::reader::{parsed_nodes, record_visits, visits_view, walk};

pub use crate::clinvar::record::ClinVarRecord;

verus! {

/// Accumulates the fields of one record from its visits.
pub struct RecordHandler {
    record: ClinVarRecord,
    genome: Genome,
}

impl RecordHandler {
    pub closed spec fn record_model(&self) -> RecordModel {
        self.record@
    }

    pub closed spec fn genome_model(&self) -> Genome {
        self.genome
    }

    /// An empty accumulator for the build `genome`.
    pub fn new(genome: Genome) -> (r: RecordHandler)
        ensures
            r.record_model() == empty_record(),
            r.genome_model() == genome,
    {
        RecordHandler { record: ClinVarRecord::new(), genome }
    }

    /// Applies the extraction rules to one visit.
    pub fn handle(&mut self, v: &NodeVisit)
        ensures
            final(self).record_model() == apply_rule(
                old(self).record_model(),
                v@,
                old(self).genome_model(),
            ),
            final(self).genome_model() == old(self).genome_model(),
    {
        dispatch(&mut self.record, v, self.genome);
    }

    /// Applies the extraction rules to a sequence of visits, in order.
    pub fn handle_all(&mut self, vs: &Vec<NodeVisit>)
        ensures
            final(self).record_model() == apply_rules(
                old(self).record_model(),
                visits_view(vs@),
                old(self).genome_model(),
            ),
            final(self).genome_model() == old(self).genome_model(),
    {
        let mut i: usize = 0;
        while i < vs.len()
            invariant
                i <= vs@.len(),
                self.genome_model() == old(self).genome_model(),
                self.record_model() == apply_rules(
                    old(self).record_model(),
                    visits_view(vs@).subrange(0, i as int),
                    self.genome_model(),
                ),
            decreases vs.len() - i,
        {
            proof {
                let s = visits_view(vs@).subrange(0, i + 1);
                assert(s.drop_last() =~= visits_view(vs@).subrange(0, i as int));
                assert(s.last() == vs@[i as int]@);
            }
            self.handle(&vs[i]);
            i = i + 1;
        }
        assert(visits_view(vs@).subrange(0, vs@.len() as int) =~= visits_view(vs@));
    }

    /// The finished record; the accumulator is empty afterwards.
    pub fn take_record(&mut self) -> (r: ClinVarRecord)
        ensures
            r@ == old(self).record_model(),
            final(self).record_model() == empty_record(),
            final(self).genome_model() == old(self).genome_model(),
    {
        let mut rec = ClinVarRecord::new();
        std::mem::swap(&mut rec, &mut self.record);
        rec
    }
}

/// The visits of one record buffer: decoding, parsing and walking it.
pub open spec fn buffer_visits(buffer: Seq<u8>) -> Result<Seq<VisitModel>, ClinvarXMLTabError> {
    if !vstd::utf8::valid_utf8(buffer) {
        Err(ClinvarXMLTabError::Utf8Error)
    } else {
        match parsed_nodes(vstd::utf8::decode_utf8(buffer)) {
            None => Err(ClinvarXMLTabError::RoxmlError),
            Some(nodes) => walk(nodes, 0, Seq::empty()),
        }
    }
}

/// The record extracted from one record buffer for the build `g`.
pub open spec fn extracted(buffer: Seq<u8>, g: Genome) -> Result<RecordModel, ClinvarXMLTabError> {
    match buffer_visits(buffer) {
        Ok(vs) => Ok(apply_rules(empty_record(), vs, g)),
        Err(e) => Err(e),
    }
}

/// Extracts the fields of one record buffer.
pub fn extract_record(buffer: Vec<u8>, genome: Genome) -> (r: Result<
    ClinVarRecord,
    ClinvarXMLTabError,
>)
    ensures
        match extracted(buffer@, genome) {
            Ok(m) => r is Ok && r->Ok_0@ == m,
            Err(e) => r == Err::<ClinVarRecord, ClinvarXMLTabError>(e),
        },
{
    let vs = match record_visits(buffer) {
        Ok(vs) => vs,
        Err(e) => {
            return Err(e);
        },
    };
    let mut h = RecordHandler::new(genome);
    h.handle_all(&vs);
    Ok(h.take_record())
}

/// The output encoding of a run, chosen once at startup.
pub enum Sink {
    Tabular(CSVRecordHandler),
    Variant(VCFRecordHandler),
}

/// What a sink hands out for a finished record: the tabular encoding always
/// emits its row; the variant encoding as `variant_outcome` says.
pub open spec fn sink_outcome(sink: Sink, m: RecordModel) -> Result<
    Option<Seq<u8>>,
    ClinvarXMLTabError,
> {
    match sink {
        Sink::Tabular(_) => Ok(Some(csv_line(tabular_fields(m)))),
        Sink::Variant(_) => variant_outcome(m),
    }
}

/// The sink `after` is `before` having taken the finished record `m` (none
/// where extraction failed): same encoding, genome, state and accumulator;
/// the variant counters grow by that record's drops and writes.
pub open spec fn sink_after(before: Sink, after: Sink, m: Option<RecordModel>) -> bool {
    match (before, after) {
        (Sink::Tabular(a), Sink::Tabular(b)) => b.record_model() == a.record_model()
            && b.genome_model() == a.genome_model() && b.state_model() == a.state_model(),
        (Sink::Variant(a), Sink::Variant(b)) => {
            &&& b.record_model() == a.record_model()
            &&& b.genome_model() == a.genome_model()
            &&& b.state_model() == a.state_model()
            &&& b.dropped_model() == a.dropped_model() + match m {
                Some(m) => drops_of(m),
                None => 0,
            }
            &&& b.written_model() == a.written_model() + match m {
                Some(m) => writes_of(m),
                None => 0,
            }
        },
        _ => false,
    }
}

impl Sink {
    /// Whether the sink has written its header and can take records.
    pub open spec fn ready(&self) -> bool {
        match self {
            Sink::Tabular(h) => h.state_model() == SinkState::HeaderWritten,
            Sink::Variant(h) => h.state_model() == SinkState::HeaderWritten && h.written_model()
                < u64::MAX && h.dropped_model() < u64::MAX,
        }
    }

    /// The genome build of the sink.
    pub open spec fn genome_spec(&self) -> Genome {
        match self {
            Sink::Tabular(h) => h.genome_model(),
            Sink::Variant(h) => h.genome_model(),
        }
    }

    /// Whether the header is still to be written.
    pub open spec fn awaiting_header(&self) -> bool {
        match self {
            Sink::Tabular(h) => h.state_model() == SinkState::AwaitingHeader,
            Sink::Variant(h) => h.state_model() == SinkState::AwaitingHeader,
        }
    }

    /// Whether the sink can take one more record.
    pub fn is_ready(&self) -> (r: bool)
        ensures
            r == self.ready(),
    {
        match self {
            Sink::Tabular(h) => h.state() == SinkState::HeaderWritten,
            Sink::Variant(h) => h.state() == SinkState::HeaderWritten && h.written() < u64::MAX
                && h.dropped() < u64::MAX,
        }
    }

    /// Writes the header of the chosen encoding.
    pub fn write_header(&mut self) -> (r: Result<Vec<u8>, ClinvarXMLTabError>)
        requires
            old(self).awaiting_header(),
        ensures
            match (*old(self), *final(self)) {
                (Sink::Tabular(a), Sink::Tabular(b)) => r is Ok && r->Ok_0@ == csv_line(
                    tabular_header(),
                ) && b.state_model() == SinkState::HeaderWritten && b.genome_model()
                    == a.genome_model() && b.record_model() == a.record_model(),
                (Sink::Variant(a), Sink::Variant(b)) => b.genome_model() == a.genome_model()
                    && b.record_model() == a.record_model() && b.written_model()
                    == a.written_model() && b.dropped_model() == a.dropped_model() && match r {
                    Ok(_) => b.state_model() == SinkState::HeaderWritten,
                    Err(e) => e == ClinvarXMLTabError::VCFError && b.state_model()
                        == SinkState::AwaitingHeader,
                },
                _ => false,
            },
    {
        match self {
            Sink::Tabular(h) => h.write_header(),
            Sink::Variant(h) => h.write_header(),
        }
    }

    /// Converts one record buffer: `Ok(Some(bytes))` for an emitted row,
    /// `Ok(None)` for a record the variant encoding drops.
    pub fn process_record(&mut self, buffer: Vec<u8>) -> (r: Result<
        Option<Vec<u8>>,
        ClinvarXMLTabError,
    >)
        requires
            old(self).ready(),
        ensures
            match extracted(buffer@, old(self).genome_spec()) {
                Err(e) => r == Err::<Option<Vec<u8>>, ClinvarXMLTabError>(e) && sink_after(
                    *old(self),
                    *final(self),
                    None,
                ),
                Ok(m) => outcome_view(r) == sink_outcome(*old(self), m) && sink_after(
                    *old(self),
                    *final(self),
                    Some(m),
                ),
            },
    {
        let genome = match self {
            Sink::Tabular(h) => h.genome(),
            Sink::Variant(h) => h.genome(),
        };
        let rec = match extract_record(buffer, genome) {
            Ok(rec) => rec,
            Err(e) => {
                return Err(e);
            },
        };
        match self {
            Sink::Tabular(h) => match h.accept(&rec) {
                Ok(b) => Ok(Some(b)),
                Err(e) => Err(e),
            },
            Sink::Variant(h) => h.accept(&rec),
        }
    }
}

} // verus!
