use vstd::prelude::*;

use crate::error::ClinvarXMLTabError;
use crate::text::{copy_string, copy_strings, trim, trimmed_of, utf8_string};
use crate::xml::handler::{opt_view, pairs_view, strings_view, NodeVisit, VisitModel};
use vstd::slice::slice_to_vec;

verus! {

/// Kind of a low-level XML event, as delivered by a pull parser.
#[derive(Clone, Copy, Debug, PartialEq, Eq, Structural)]
pub enum XmlEventKind {
    /// An opening tag `<name ...>`.
    Start,
    /// A closing tag `</name>`.
    End,
    /// A self-closing tag `<name .../>`.
    Empty,
    /// Character data, comments, declarations and everything else.
    Other,
    /// End of the input stream.
    Eof,
}

/// One event of the input stream: its kind, the element name for tags, and
/// the event serialized back to bytes.
pub struct XmlEvent {
    pub kind: XmlEventKind,
    pub name: Vec<u8>,
    pub raw: Vec<u8>,
}

pub open spec fn opens(e: XmlEvent, tag: Seq<u8>) -> bool {
    e.kind == XmlEventKind::Start && e.name@ == tag
}

pub open spec fn closes(e: XmlEvent, tag: Seq<u8>) -> bool {
    e.kind == XmlEventKind::End && e.name@ == tag
}

/// Abstract state of the record scanner.
pub enum ScanModel {
    /// Between records, looking for the next boundary element.
    Idle,
    /// Inside a record: nested boundary elements still open, bytes so far.
    Busy { depth: nat, buffer: Seq<u8> },
    /// The end of the stream was seen between records.
    Done,
}

/// What the scanner reports for one event.
#[derive(Clone, Copy, Debug, PartialEq, Eq, Structural)]
pub enum ScanAction {
    /// Nothing to hand on yet.
    Continue,
    /// A record was completed and can be taken with `take_record`.
    Record,
    /// The stream is over; no further records will come.
    Finished,
}

/// Outcome of one scanner step in the model.
pub enum StepOutcome {
    Continue,
    Emit(Seq<u8>),
    Finished,
    Fail(ClinvarXMLTabError),
}

/// One step of the scanner: the state after `e` and what it reports.
pub open spec fn scan_step(st: ScanModel, e: XmlEvent, tag: Seq<u8>) -> (ScanModel, StepOutcome) {
    match st {
        ScanModel::Idle => {
            if e.kind == XmlEventKind::Eof {
                (ScanModel::Done, StepOutcome::Finished)
            } else if opens(e, tag) {
                (ScanModel::Busy { depth: 0, buffer: e.raw@ }, StepOutcome::Continue)
            } else {
                (ScanModel::Idle, StepOutcome::Continue)
            }
        },
        ScanModel::Busy { depth, buffer } => {
            let buffer2 = buffer + e.raw@;
            if e.kind == XmlEventKind::Eof {
                (st, StepOutcome::Fail(ClinvarXMLTabError::TruncatedInput))
            } else if opens(e, tag) {
                if depth >= u64::MAX {
                    (st, StepOutcome::Fail(ClinvarXMLTabError::NestingTooDeep))
                } else {
                    (ScanModel::Busy { depth: depth + 1, buffer: buffer2 }, StepOutcome::Continue)
                }
            } else if closes(e, tag) {
                if depth == 0 {
                    (ScanModel::Idle, StepOutcome::Emit(buffer2))
                } else {
                    (
                        ScanModel::Busy { depth: (depth - 1) as nat, buffer: buffer2 },
                        StepOutcome::Continue,
                    )
                }
            } else {
                (ScanModel::Busy { depth, buffer: buffer2 }, StepOutcome::Continue)
            }
        },
        ScanModel::Done => (ScanModel::Done, StepOutcome::Finished),
    }
}

/// The records that scanning `evs[i..]` from state `st` yields. Running out of
/// events inside a record is a truncated input.
pub open spec fn scan_run(st: ScanModel, evs: Seq<XmlEvent>, tag: Seq<u8>, i: int) -> Result<
    Seq<Seq<u8>>,
    ClinvarXMLTabError,
>
    decreases evs.len() - i,
{
    if i < 0 || i >= evs.len() {
        match st {
            ScanModel::Busy { .. } => Err(ClinvarXMLTabError::TruncatedInput),
            _ => Ok(Seq::empty()),
        }
    } else {
        let (st2, out) = scan_step(st, evs[i], tag);
        match out {
            StepOutcome::Continue => scan_run(st2, evs, tag, i + 1),
            StepOutcome::Emit(b) => match scan_run(st2, evs, tag, i + 1) {
                Ok(rest) => Ok(seq![b] + rest),
                Err(x) => Err(x),
            },
            StepOutcome::Finished => Ok(Seq::empty()),
            StepOutcome::Fail(x) => Err(x),
        }
    }
}

/// Pulls whole records out of an event stream, one boundary element at a
/// time. Only the record being assembled is held in memory.
pub struct RecordScanner {
    tag: Vec<u8>,
    busy: bool,
    done: bool,
    depth: u64,
    buffer: Vec<u8>,
    ready: Option<Vec<u8>>,
}

impl RecordScanner {
    pub closed spec fn model(&self) -> ScanModel {
        if self.done {
            ScanModel::Done
        } else if self.busy {
            ScanModel::Busy { depth: self.depth as nat, buffer: self.buffer@ }
        } else {
            ScanModel::Idle
        }
    }

    pub closed spec fn tag(&self) -> Seq<u8> {
        self.tag@
    }

    /// The record completed by the last step, if it has not been taken.
    pub closed spec fn pending(&self) -> Option<Seq<u8>> {
        match self.ready {
            Some(b) => Some(b@),
            None => None,
        }
    }

    /// A scanner for records delimited by the element named `tag`.
    pub fn new(tag: &[u8]) -> (r: RecordScanner)
        ensures
            r.model() is Idle,
            r.tag() == tag@,
            r.pending() is None,
    {
        RecordScanner {
            tag: slice_to_vec(tag),
            busy: false,
            done: false,
            depth: 0,
            buffer: Vec::new(),
            ready: None,
        }
    }

    /// Feeds one event. On `Record` the completed record is pending until
    /// `take_record`; an error is final.
    pub fn step(&mut self, e: &XmlEvent) -> (r: Result<ScanAction, ClinvarXMLTabError>)
        ensures
            final(self).tag() == old(self).tag(),
            ({
                let (st2, out) = scan_step(old(self).model(), *e, old(self).tag());
                match out {
                    StepOutcome::Continue => r == Ok::<ScanAction, ClinvarXMLTabError>(
                        ScanAction::Continue,
                    ) && final(self).model() == st2 && final(self).pending() is None,
                    StepOutcome::Emit(b) => r == Ok::<ScanAction, ClinvarXMLTabError>(
                        ScanAction::Record,
                    ) && final(self).model() == st2 && final(self).pending() == Some(b),
                    StepOutcome::Finished => r == Ok::<ScanAction, ClinvarXMLTabError>(
                        ScanAction::Finished,
                    ) && final(self).model() == st2 && final(self).pending() is None,
                    StepOutcome::Fail(x) => r == Err::<ScanAction, ClinvarXMLTabError>(x),
                }
            }),
    {
        self.ready = None;
        if self.done {
            return Ok(ScanAction::Finished);
        }
        if !self.busy {
            if e.kind == XmlEventKind::Eof {
                self.done = true;
                return Ok(ScanAction::Finished);
            }
            if e.kind == XmlEventKind::Start && bytes_eq(&e.name, &self.tag) {
                self.busy = true;
                self.depth = 0;
                self.buffer = slice_to_vec(e.raw.as_slice());
            }
            return Ok(ScanAction::Continue);
        }
        if e.kind == XmlEventKind::Eof {
            return Err(ClinvarXMLTabError::TruncatedInput);
        }
        if e.kind == XmlEventKind::Start && bytes_eq(&e.name, &self.tag) {
            if self.depth == u64::MAX {
                return Err(ClinvarXMLTabError::NestingTooDeep);
            }
            self.depth = self.depth + 1;
            append_bytes(&mut self.buffer, &e.raw);
            return Ok(ScanAction::Continue);
        }
        append_bytes(&mut self.buffer, &e.raw);
        if e.kind == XmlEventKind::End && bytes_eq(&e.name, &self.tag) {
            if self.depth == 0 {
                self.busy = false;
                let mut b: Vec<u8> = Vec::new();
                std::mem::swap(&mut b, &mut self.buffer);
                self.ready = Some(b);
                return Ok(ScanAction::Record);
            }
            self.depth = self.depth - 1;
        }
        Ok(ScanAction::Continue)
    }

    /// Hands out the record completed by the last step.
    pub fn take_record(&mut self) -> (r: Option<Vec<u8>>)
        ensures
            final(self).model() == old(self).model(),
            final(self).tag() == old(self).tag(),
            final(self).pending() is None,
            match old(self).pending() {
                Some(b) => r is Some && r->0@ == b,
                None => r is None,
            },
    {
        self.ready.take()
    }

    /// Whether the stream ended in the middle of a record.
    pub fn in_record(&self) -> (r: bool)
        ensures
            r == self.model() is Busy,
    {
        self.busy && !self.done
    }
}

/// Byte-wise equality.
pub fn bytes_eq(a: &Vec<u8>, b: &Vec<u8>) -> (r: bool)
    ensures
        r == (a@ == b@),
{
    if a.len() != b.len() {
        return false;
    }
    let mut i: usize = 0;
    while i < a.len()
        invariant
            a@.len() == b@.len(),
            i <= a@.len(),
            forall|k: int| 0 <= k < i ==> a@[k] == b@[k],
        decreases a.len() - i,
    {
        if a[i] != b[i] {
            return false;
        }
        i = i + 1;
    }
    assert(a@ =~= b@);
    true
}

fn append_bytes(dst: &mut Vec<u8>, src: &Vec<u8>)
    ensures
        final(dst)@ == old(dst)@ + src@,
{
    let mut i: usize = 0;
    while i < src.len()
        invariant
            i <= src@.len(),
            dst@ == old(dst)@ + src@.subrange(0, i as int),
        decreases src.len() - i,
    {
        dst.push(src[i]);
        i = i + 1;
        assert(dst@ =~= old(dst)@ + src@.subrange(0, i as int));
    }
    assert(src@.subrange(0, src@.len() as int) =~= src@);
}

/// Splits a whole event sequence into record buffers, one per top-level
/// element named `tag`.
pub fn split_records(events: &Vec<XmlEvent>, tag: &[u8]) -> (r: Result<
    Vec<Vec<u8>>,
    ClinvarXMLTabError,
>)
    ensures
        match scan_run(ScanModel::Idle, events@, tag@, 0) {
            Ok(bufs) => r is Ok && r->Ok_0@.map_values(|b: Vec<u8>| b@) == bufs,
            Err(x) => r == Err::<Vec<Vec<u8>>, ClinvarXMLTabError>(x),
        },
{
    let mut sc = RecordScanner::new(tag);
    let mut out: Vec<Vec<u8>> = Vec::new();
    let mut i: usize = 0;
    while i < events.len()
        invariant
            i <= events@.len(),
            sc.tag() == tag@,
            sc.pending() is None,
            scan_run(ScanModel::Idle, events@, tag@, 0) == prepend(
                out@.map_values(|b: Vec<u8>| b@),
                scan_run(sc.model(), events@, tag@, i as int),
            ),
        decreases events.len() - i,
    {
        let ghost before = out@.map_values(|b: Vec<u8>| b@);
        let ghost m0 = sc.model();
        let a = sc.step(&events[i]);
        proof {
            let (m1, o) = scan_step(m0, events@[i as int], tag@);
            assert(scan_run(m0, events@, tag@, i as int) == match o {
                StepOutcome::Continue => scan_run(m1, events@, tag@, i + 1),
                StepOutcome::Emit(b) => match scan_run(m1, events@, tag@, i + 1) {
                    Ok(rest) => Ok(seq![b] + rest),
                    Err(x) => Err(x),
                },
                StepOutcome::Finished => Ok(Seq::empty()),
                StepOutcome::Fail(x) => Err(x),
            });
            if let StepOutcome::Emit(b) = o {
                if let Ok(rest) = scan_run(m1, events@, tag@, i + 1) {
                    assert(before + (seq![b] + rest) =~= (before + seq![b]) + rest);
                }
            }
            if let StepOutcome::Finished = o {
                assert(before + Seq::<Seq<u8>>::empty() =~= before);
            }
        }
        match a {
            Err(x) => {
                return Err(x);
            },
            Ok(ScanAction::Finished) => {
                return Ok(out);
            },
            Ok(ScanAction::Continue) => {},
            Ok(ScanAction::Record) => {
                let b = sc.take_record();
                match b {
                    Some(b) => {
                        out.push(b);
                        assert(out@.map_values(|b: Vec<u8>| b@) =~= before + seq![b@]);
                    },
                    None => {},
                }
            },
        }
        i = i + 1;
    }
    if sc.in_record() {
        return Err(ClinvarXMLTabError::TruncatedInput);
    }
    assert(out@.map_values(|b: Vec<u8>| b@) + Seq::<Seq<u8>>::empty() =~= out@.map_values(
        |b: Vec<u8>| b@,
    ));
    Ok(out)
}

/// `done` followed by the records of `rest`, or the error of `rest`.
pub open spec fn prepend(
    done: Seq<Seq<u8>>,
    rest: Result<Seq<Seq<u8>>, ClinvarXMLTabError>,
) -> Result<Seq<Seq<u8>>, ClinvarXMLTabError> {
    match rest {
        Ok(s) => Ok(done + s),
        Err(x) => Err(x),
    }
}

/// One node of a parsed record, in document order: whether it is an element,
/// how many nodes enclose it (itself and the document node included), its
/// local name, its attributes and its first text child.
pub struct RawNode {
    pub element: bool,
    pub ancestors: usize,
    pub name: String,
    pub attributes: Vec<(String, String)>,
    pub text: Option<String>,
}

#[verifier::external_type_specification]
#[verifier::external_body]
pub struct ExRoxmlError(roxmltree::Error);

/// The nodes that roxmltree lists for a document, or `None` where it rejects
/// the text.
pub uninterp spec fn parsed_nodes(text: Seq<char>) -> Option<Seq<RawNode>>;

/// Relies on `roxmltree::Document::parse` and `Node::descendants`: a
/// well-formed document yields all of its nodes in document order.
#[verifier::external_body]
fn parse_document(text: &str) -> (r: Result<Vec<RawNode>, roxmltree::Error>)
    ensures
        r is Ok <==> parsed_nodes(text@) is Some,
        r is Ok ==> parsed_nodes(text@) == Some(r->Ok_0@),
{
    let doc = roxmltree::Document::parse(text)?;
    Ok(doc.descendants().map(|n| RawNode {
        element: n.is_element(),
        ancestors: n.ancestors().count(),
        name: n.tag_name().name().to_string(),
        attributes: n.attributes().map(|a| (a.name().to_string(), a.value().to_string())).collect(),
        text: n.text().map(|t| t.to_string()),
    }).collect())
}

/// Number of elements enclosing an element node, itself included.
pub open spec fn level(n: RawNode) -> int {
    n.ancestors - 1
}

/// The visits of an explicit-stack walk over `nodes[k..]`, where `path` is the
/// ancestry on entry. Each element is pushed under its ancestors; a node that
/// claims more ancestors than are open is malformed.
pub open spec fn walk(nodes: Seq<RawNode>, k: int, path: Seq<Seq<char>>) -> Result<
    Seq<VisitModel>,
    ClinvarXMLTabError,
>
    decreases nodes.len() - k,
{
    if k < 0 || k >= nodes.len() {
        Ok(Seq::empty())
    } else {
        let n = nodes[k];
        if !n.element {
            walk(nodes, k + 1, path)
        } else if n.ancestors < 2 || level(n) > path.len() + 1 {
            Err(ClinvarXMLTabError::MalformedTree)
        } else {
            let pushed = path.subrange(0, level(n) - 1).push(n.name@);
            let v = VisitModel {
                path: pushed,
                depth: level(n),
                attributes: pairs_view(n.attributes@),
                text: match n.text {
                    Some(t) => Some(trimmed_of(t@)),
                    None => None,
                },
            };
            match walk(nodes, k + 1, pushed) {
                Ok(rest) => Ok(seq![v] + rest),
                Err(x) => Err(x),
            }
        }
    }
}

/// `done` followed by the visits of `rest`, or the error of `rest`.
pub open spec fn prepend_visits(
    done: Seq<VisitModel>,
    rest: Result<Seq<VisitModel>, ClinvarXMLTabError>,
) -> Result<Seq<VisitModel>, ClinvarXMLTabError> {
    match rest {
        Ok(s) => Ok(done + s),
        Err(x) => Err(x),
    }
}

pub open spec fn visits_view(v: Seq<NodeVisit>) -> Seq<VisitModel> {
    v.map_values(|x: NodeVisit| x@)
}

fn copy_pairs(v: &Vec<(String, String)>) -> (r: Vec<(String, String)>)
    ensures
        pairs_view(r@) == pairs_view(v@),
{
    let mut r: Vec<(String, String)> = Vec::new();
    let mut i: usize = 0;
    while i < v.len()
        invariant
            i <= v@.len(),
            r@.len() == i,
            forall|k: int| 0 <= k < i ==> r@[k].0@ == v@[k].0@ && r@[k].1@ == v@[k].1@,
        decreases v.len() - i,
    {
        r.push((copy_string(&v[i].0), copy_string(&v[i].1)));
        i = i + 1;
    }
    assert(pairs_view(r@) =~= pairs_view(v@));
    r
}

/// Depth-first, pre-order walk over the nodes of one record with an explicit
/// ancestry stack. Only elements yield a visit.
pub fn walk_nodes(nodes: &Vec<RawNode>) -> (r: Result<Vec<NodeVisit>, ClinvarXMLTabError>)
    ensures
        match walk(nodes@, 0, Seq::empty()) {
            Ok(vs) => r is Ok && visits_view(r->Ok_0@) == vs,
            Err(x) => r == Err::<Vec<NodeVisit>, ClinvarXMLTabError>(x),
        },
{
    let mut path: Vec<String> = Vec::new();
    let mut out: Vec<NodeVisit> = Vec::new();
    let mut k: usize = 0;
    proof {
        assert(strings_view(path@) =~= Seq::<Seq<char>>::empty());
        assert(visits_view(out@) =~= Seq::<VisitModel>::empty());
        match walk(nodes@, 0, Seq::empty()) {
            Ok(vs) => assert(Seq::<VisitModel>::empty() + vs =~= vs),
            Err(_) => {},
        }
    }
    while k < nodes.len()
        invariant
            k <= nodes@.len(),
            walk(nodes@, 0, Seq::empty()) == prepend_visits(
                visits_view(out@),
                walk(nodes@, k as int, strings_view(path@)),
            ),
        decreases nodes.len() - k,
    {
        let n = &nodes[k];
        let ghost before = visits_view(out@);
        let ghost entry_path = strings_view(path@);
        if n.element {
            if n.ancestors < 2 || n.ancestors - 2 > path.len() {
                return Err(ClinvarXMLTabError::MalformedTree);
            }
            let lvl = n.ancestors - 1;
            path.truncate(lvl - 1);
            path.push(copy_string(&n.name));
            let text = match &n.text {
                Some(t) => Some(trim(t.as_str())),
                None => None,
            };
            let v = NodeVisit {
                path: copy_strings(&path),
                depth: lvl,
                attributes: copy_pairs(&n.attributes),
                text,
            };
            proof {
                assert(strings_view(path@) =~= entry_path.subrange(0, lvl - 1).push(n.name@));
                assert(v@.path == strings_view(path@));
            }
            out.push(v);
            proof {
                let pushed = strings_view(path@);
                assert(visits_view(out@) =~= before + seq![v@]);
                match walk(nodes@, k + 1, pushed) {
                    Ok(rest) => {
                        assert(before + (seq![v@] + rest) =~= (before + seq![v@]) + rest);
                    },
                    Err(_) => {},
                }
            }
        }
        k = k + 1;
    }
    assert(visits_view(out@) + Seq::<VisitModel>::empty() =~= visits_view(out@));
    Ok(out)
}

/// Parses one record buffer and walks its tree.
pub fn record_visits(buffer: Vec<u8>) -> (r: Result<Vec<NodeVisit>, ClinvarXMLTabError>)
    ensures
        !vstd::utf8::valid_utf8(buffer@) ==> r == Err::<Vec<NodeVisit>, ClinvarXMLTabError>(
            ClinvarXMLTabError::Utf8Error,
        ),
        vstd::utf8::valid_utf8(buffer@) ==> match parsed_nodes(vstd::utf8::decode_utf8(buffer@)) {
            None => r == Err::<Vec<NodeVisit>, ClinvarXMLTabError>(
                ClinvarXMLTabError::RoxmlError,
            ),
            Some(nodes) => match walk(nodes, 0, Seq::empty()) {
                Ok(vs) => r is Ok && visits_view(r->Ok_0@) == vs,
                Err(x) => r == Err::<Vec<NodeVisit>, ClinvarXMLTabError>(x),
            },
        },
{
    let text = match utf8_string(buffer) {
        Some(t) => t,
        None => {
            return Err(ClinvarXMLTabError::Utf8Error);
        },
    };
    match parse_document(text.as_str()) {
        Ok(nodes) => walk_nodes(&nodes),
        Err(_) => Err(ClinvarXMLTabError::RoxmlError),
    }
}

/// Index of the nearest visit before position `t` that has depth `d`, or -1.
pub open spec fn nearest_at_depth(vs: Seq<VisitModel>, t: int, d: int) -> int
    decreases t,
{
    if t <= 0 {
        -1
    } else if vs[t - 1].depth == d {
        t - 1
    } else {
        nearest_at_depth(vs, t - 1, d)
    }
}

/// The visit at `t` has a path as long as its depth, and below the top level
/// its parent is the nearest earlier visit one level up, with nothing
/// shallower in between: its path is the parent's path plus its own name.
pub open spec fn ancestry_ok(vs: Seq<VisitModel>, t: int) -> bool {
    let v = vs[t];
    &&& v.depth >= 1
    &&& v.path.len() == v.depth
    &&& v.depth > 1 ==> {
        let p = nearest_at_depth(vs, t, v.depth - 1);
        &&& 0 <= p < t
        &&& vs[p].path == v.path.drop_last()
        &&& forall|q: int| p < q < t ==> #[trigger] vs[q].depth >= v.depth
    }
}

/// The ancestry stack `path` is what the visits in `done` left open: for each
/// level, the nearest visit at that level holds the stack up to it, and every
/// later visit is deeper.
pub open spec fn stack_matches(done: Seq<VisitModel>, path: Seq<Seq<char>>) -> bool {
    forall|j: int|
        1 <= j <= path.len() ==> {
            let p = #[trigger] nearest_at_depth(done, done.len() as int, j);
            &&& 0 <= p < done.len()
            &&& done[p].path == path.subrange(0, j)
            &&& forall|q: int| p < q < done.len() ==> #[trigger] done[q].depth > j
        }
}

proof fn lemma_nearest_prefix(a: Seq<VisitModel>, b: Seq<VisitModel>, t: int, d: int)
    requires
        0 <= t <= a.len(),
    ensures
        nearest_at_depth(a + b, t, d) == nearest_at_depth(a, t, d),
        nearest_at_depth(a, t, d) < t,
    decreases t,
{
    if t > 0 {
        assert((a + b)[t - 1] == a[t - 1]);
        lemma_nearest_prefix(a, b, t - 1, d);
    }
}

proof fn lemma_ancestry_prefix(a: Seq<VisitModel>, b: Seq<VisitModel>, t: int)
    requires
        0 <= t < a.len(),
        ancestry_ok(a, t),
    ensures
        ancestry_ok(a + b, t),
{
    let v = a[t];
    assert((a + b)[t] == v);
    if v.depth > 1 {
        lemma_nearest_prefix(a, b, t, v.depth - 1);
        let p = nearest_at_depth(a, t, v.depth - 1);
        assert((a + b)[p] == a[p]);
        assert forall|q: int| p < q < t implies #[trigger] (a + b)[q].depth >= v.depth by {
            assert((a + b)[q] == a[q]);
        }
    }
}

proof fn lemma_walk_ancestry_from(
    nodes: Seq<RawNode>,
    k: int,
    path: Seq<Seq<char>>,
    done: Seq<VisitModel>,
)
    requires
        0 <= k,
        stack_matches(done, path),
        forall|t: int| 0 <= t < done.len() ==> ancestry_ok(done, t),
    ensures
        prepend_visits(done, walk(nodes, k, path)) is Ok ==> {
            let all = prepend_visits(done, walk(nodes, k, path))->Ok_0;
            forall|t: int| 0 <= t < all.len() ==> ancestry_ok(all, t)
        },
    decreases nodes.len() - k,
{
    if k >= nodes.len() {
        assert(done + Seq::<VisitModel>::empty() =~= done);
        return;
    }
    let n = nodes[k];
    if !n.element {
        lemma_walk_ancestry_from(nodes, k + 1, path, done);
        return;
    }
    if n.ancestors < 2 || level(n) > path.len() + 1 {
        return;
    }
    let l = level(n);
    let pushed = path.subrange(0, l - 1).push(n.name@);
    let v = VisitModel {
        path: pushed,
        depth: l,
        attributes: pairs_view(n.attributes@),
        text: match n.text {
            Some(t) => Some(trimmed_of(t@)),
            None => None,
        },
    };
    let done2 = done.push(v);
    let len = done.len() as int;
    assert(done2 == done + seq![v]);
    // The new visit's ancestry.
    assert forall|t: int| 0 <= t < done2.len() implies ancestry_ok(done2, t) by {
        if t < len {
            lemma_ancestry_prefix(done, seq![v], t);
        } else {
            assert(done2[t] == v);
            assert(v.path.drop_last() =~= path.subrange(0, l - 1));
            if l > 1 {
                let j = l - 1;
                assert(1 <= j <= path.len());
                let p = nearest_at_depth(done, len, j);
                lemma_nearest_prefix(done, seq![v], len, j);
                assert(path.subrange(0, j) =~= path.subrange(0, l - 1));
                assert(done2[p] == done[p]);
                assert forall|q: int| p < q < t implies #[trigger] done2[q].depth >= v.depth by {
                    assert(done2[q] == done[q]);
                    assert(done[q].depth > j);
                }
            }
        }
    }
    // The stack after pushing the new visit.
    assert forall|j: int| 1 <= j <= pushed.len() implies {
        let p = #[trigger] nearest_at_depth(done2, done2.len() as int, j);
        &&& 0 <= p < done2.len()
        &&& done2[p].path == pushed.subrange(0, j)
        &&& forall|q: int| p < q < done2.len() ==> #[trigger] done2[q].depth > j
    } by {
        if j == l {
            assert(pushed.subrange(0, j) =~= pushed);
        } else {
            assert(nearest_at_depth(done2, len + 1, j) == nearest_at_depth(done2, len, j));
            lemma_nearest_prefix(done, seq![v], len, j);
            let p = nearest_at_depth(done, len, j);
            assert(done2[p] == done[p]);
            assert(pushed.subrange(0, j) =~= path.subrange(0, j));
            assert forall|q: int| p < q < done2.len() implies #[trigger] done2[q].depth > j by {
                if q < len {
                    assert(done2[q] == done[q]);
                }
            }
        }
    }
    lemma_walk_ancestry_from(nodes, k + 1, pushed, done2);
    match walk(nodes, k + 1, pushed) {
        Ok(rest) => {
            assert(done + (seq![v] + rest) =~= done2 + rest);
        },
        Err(_) => {},
    }
}

/// Every visit of a record walk has a path as long as its depth, and that path
/// is the exact chain of ancestor names: its parent's path (the nearest earlier
/// visit one level up, with nothing shallower between them) plus its own name.
pub proof fn lemma_walk_ancestry(nodes: Seq<RawNode>)
    ensures
        walk(nodes, 0, Seq::empty()) is Ok ==> {
            let vs = walk(nodes, 0, Seq::empty())->Ok_0;
            forall|t: int| 0 <= t < vs.len() ==> ancestry_ok(vs, t)
        },
{
    lemma_walk_ancestry_from(nodes, 0, Seq::empty(), Seq::empty());
    match walk(nodes, 0, Seq::empty()) {
        Ok(vs) => {
            assert(Seq::<VisitModel>::empty() + vs =~= vs);
        },
        Err(_) => {},
    }
}

/// The serialized bytes of `evs[i..j]`.
pub open spec fn raw_concat(evs: Seq<XmlEvent>, i: int, j: int) -> Seq<u8>
    decreases j - i,
{
    if j <= i {
        Seq::empty()
    } else {
        raw_concat(evs, i, j - 1) + evs[j - 1].raw@
    }
}

/// Boundary elements opened minus those closed in `evs[i..j]`.
pub open spec fn nesting(evs: Seq<XmlEvent>, tag: Seq<u8>, i: int, j: int) -> int
    decreases j - i,
{
    if j <= i {
        0
    } else {
        nesting(evs, tag, i, j - 1) + if opens(evs[j - 1], tag) {
            1int
        } else if closes(evs[j - 1], tag) {
            -1int
        } else {
            0int
        }
    }
}

/// `evs[s..=e]` is one complete boundary element: it opens at `s`, stays open
/// until `e`, closes exactly there, and the stream does not end inside it.
pub open spec fn record_span(evs: Seq<XmlEvent>, tag: Seq<u8>, s: int, e: int) -> bool {
    &&& 0 <= s < e < evs.len()
    &&& opens(evs[s], tag)
    &&& closes(evs[e], tag)
    &&& nesting(evs, tag, s, e + 1) == 0
    &&& forall|m: int| s < m <= e ==> #[trigger] nesting(evs, tag, s, m) > 0
    &&& forall|m: int| s < m < e ==> #[trigger] evs[m].kind != XmlEventKind::Eof
}

/// The scanner is inside the element opened at `s0`, at position `i`.
pub open spec fn busy_from(
    evs: Seq<XmlEvent>,
    tag: Seq<u8>,
    s0: int,
    i: int,
    depth: nat,
    buffer: Seq<u8>,
) -> bool {
    &&& 0 <= s0 < i <= evs.len()
    &&& opens(evs[s0], tag)
    &&& buffer == raw_concat(evs, s0, i)
    &&& nesting(evs, tag, s0, i) == depth + 1
    &&& forall|m: int| s0 < m <= i ==> #[trigger] nesting(evs, tag, s0, m) > 0
    &&& forall|m: int| s0 < m < i ==> #[trigger] evs[m].kind != XmlEventKind::Eof
}

/// The stream ends at most once, as its last event.
pub open spec fn eof_last(evs: Seq<XmlEvent>) -> bool {
    forall|m: int| 0 <= m < evs.len() - 1 ==> #[trigger] evs[m].kind != XmlEventKind::Eof
}

pub open spec fn spans_valid(
    evs: Seq<XmlEvent>,
    tag: Seq<u8>,
    bufs: Seq<Seq<u8>>,
    spans: Seq<(int, int)>,
) -> bool {
    &&& spans.len() == bufs.len()
    &&& forall|k: int|
        0 <= k < spans.len() ==> record_span(evs, tag, #[trigger] spans[k].0, spans[k].1)
            && bufs[k] == raw_concat(evs, spans[k].0, spans[k].1 + 1)
    &&& forall|k: int| 0 <= k < spans.len() - 1 ==> #[trigger] spans[k].1 < spans[k + 1].0
}

pub open spec fn covered(spans: Seq<(int, int)>, m: int) -> bool {
    exists|k: int| 0 <= k < spans.len() && #[trigger] spans[k].0 <= m <= spans[k].1
}

proof fn lemma_open_from_idle(evs: Seq<XmlEvent>, tag: Seq<u8>, i: int, rest: Seq<(int, int)>)
    requires
        0 <= i < evs.len(),
        opens(evs[i], tag),
        rest.len() > 0 && rest[0].0 == i && rest[0].1 >= i + 1,
        forall|k: int| 0 <= k < rest.len() - 1 ==> #[trigger] rest[k].1 < rest[k + 1].0,
        forall|j: int| 0 <= j < rest.len() ==> #[trigger] rest[j].0 < rest[j].1,
        forall|m: int| i + 1 <= m < evs.len() && opens(evs[m], tag) ==> covered(rest, m),
    ensures
        forall|k: int| 0 <= k < rest.len() ==> #[trigger] rest[k].0 >= i,
        forall|m: int| i <= m < evs.len() && opens(evs[m], tag) ==> covered(rest, m),
{
    assert forall|m: int| i <= m < evs.len() && opens(evs[m], tag) implies covered(rest, m) by {
        if m == i {
            assert(rest[0].0 <= m <= rest[0].1);
        }
    }
    assert forall|k: int| 0 <= k < rest.len() implies #[trigger] rest[k].0 >= i by {
        lemma_spans_after(rest, k);
    }
}

proof fn lemma_spans_after(rest: Seq<(int, int)>, k: int)
    requires
        0 <= k < rest.len(),
        forall|j: int| 0 <= j < rest.len() - 1 ==> #[trigger] rest[j].1 < rest[j + 1].0,
        forall|j: int| 0 <= j < rest.len() ==> #[trigger] rest[j].0 < rest[j].1,
    ensures
        rest[k].0 >= rest[0].0,
    decreases k,
{
    if k > 0 {
        lemma_spans_after(rest, k - 1);
        assert(rest[k - 1].1 < rest[k].0);
    }
}

proof fn lemma_close_span(
    evs: Seq<XmlEvent>,
    tag: Seq<u8>,
    s0: int,
    i: int,
    b: Seq<u8>,
    rest_bufs: Seq<Seq<u8>>,
    rest: Seq<(int, int)>,
)
    requires
        record_span(evs, tag, s0, i),
        b == raw_concat(evs, s0, i + 1),
        spans_valid(evs, tag, rest_bufs, rest),
        forall|k: int| 0 <= k < rest.len() ==> #[trigger] rest[k].0 >= i + 1,
        forall|m: int| i + 1 <= m < evs.len() && opens(evs[m], tag) ==> covered(rest, m),
        !opens(evs[i], tag),
    ensures
        spans_valid(evs, tag, seq![b] + rest_bufs, seq![(s0, i)] + rest),
        forall|m: int| i <= m < evs.len() && opens(evs[m], tag) ==> covered(seq![(s0, i)] + rest, m),
{
    let spans = seq![(s0, i)] + rest;
    let bufs = seq![b] + rest_bufs;
    assert forall|k: int| 0 <= k < spans.len() - 1 implies #[trigger] spans[k].1 < spans[k + 1].0 by {
        if k > 0 {
            assert(spans[k] == rest[k - 1]);
            assert(spans[k + 1] == rest[k]);
        } else {
            assert(spans[1] == rest[0]);
        }
    }
    assert forall|k: int| 0 <= k < spans.len() implies record_span(
        evs,
        tag,
        #[trigger] spans[k].0,
        spans[k].1,
    ) && bufs[k] == raw_concat(evs, spans[k].0, spans[k].1 + 1) by {
        if k > 0 {
            assert(spans[k] == rest[k - 1]);
            assert(bufs[k] == rest_bufs[k - 1]);
        }
    }
    assert forall|m: int| i <= m < evs.len() && opens(evs[m], tag) implies covered(spans, m) by {
        assert(m > i);
        assert(covered(rest, m));
        let k = choose|k: int| 0 <= k < rest.len() && #[trigger] rest[k].0 <= m <= rest[k].1;
        assert(spans[k + 1] == rest[k]);
    }
}

#[verifier::spinoff_prover]
proof fn lemma_scan_from(
    st: ScanModel,
    evs: Seq<XmlEvent>,
    tag: Seq<u8>,
    i: int,
    s0: int,
) -> (spans: Seq<(int, int)>)
    requires
        0 <= i <= evs.len(),
        eof_last(evs),
        !(st is Done),
        scan_run(st, evs, tag, i) is Ok,
        st is Busy ==> busy_from(evs, tag, s0, i, st->depth, st->buffer),
    ensures
        spans_valid(evs, tag, scan_run(st, evs, tag, i)->Ok_0, spans),
        st is Idle ==> forall|k: int| 0 <= k < spans.len() ==> #[trigger] spans[k].0 >= i,
        st is Busy ==> spans.len() > 0 && spans[0].0 == s0 && spans[0].1 >= i,
        forall|m: int| i <= m < evs.len() && opens(evs[m], tag) ==> covered(spans, m),
    decreases evs.len() - i,
{
    if i >= evs.len() {
        return Seq::empty();
    }
    let e = evs[i];
    let (st2, out) = scan_step(st, e, tag);
    let rest_run = scan_run(st2, evs, tag, i + 1);
    if st is Busy {
        assert(raw_concat(evs, s0, i + 1) == raw_concat(evs, s0, i) + e.raw@);
        assert(nesting(evs, tag, s0, i + 1) == nesting(evs, tag, s0, i) + if opens(e, tag) {
            1int
        } else if closes(e, tag) {
            -1int
        } else {
            0int
        });
    }
    match st {
        ScanModel::Idle => {
            if e.kind == XmlEventKind::Eof {
                return Seq::empty();
            } else if opens(e, tag) {
                assert(raw_concat(evs, i, i) =~= Seq::<u8>::empty());
                assert(raw_concat(evs, i, i + 1) =~= e.raw@);
                assert(nesting(evs, tag, i, i) == 0);
                assert(nesting(evs, tag, i, i + 1) == 1);
                let rest = lemma_scan_from(st2, evs, tag, i + 1, i);
                assert forall|j: int| 0 <= j < rest.len() implies #[trigger] rest[j].0 < rest[j].1 by {
                    assert(record_span(evs, tag, rest[j].0, rest[j].1));
                }
                lemma_open_from_idle(evs, tag, i, rest);
                return rest;
            } else {
                let rest = lemma_scan_from(st2, evs, tag, i + 1, s0);
                return rest;
            }
        },
        ScanModel::Busy { depth, buffer } => {
            if closes(e, tag) && depth == 0 {
                let b = buffer + e.raw@;
                let rest = lemma_scan_from(st2, evs, tag, i + 1, s0);
                let spans = seq![(s0, i)] + rest;
                assert(scan_run(st, evs, tag, i)->Ok_0 == seq![b] + rest_run->Ok_0);
                assert(record_span(evs, tag, s0, i));
                lemma_close_span(evs, tag, s0, i, b, rest_run->Ok_0, rest);
                return spans;
            } else {
                let rest = lemma_scan_from(st2, evs, tag, i + 1, s0);
                assert forall|m: int| i <= m < evs.len() && opens(evs[m], tag) implies covered(
                    rest,
                    m,
                ) by {
                    if m == i {
                        assert(rest[0].0 <= m <= rest[0].1);
                    }
                }
                return rest;
            }
        },
        ScanModel::Done => {
            return Seq::empty();
        },
    }
}

/// Splitting a stream whose end, if marked, comes last yields one buffer per
/// top-level boundary element, in order: each buffer is, byte for byte, the
/// serialized events from the element's opening tag to its matching closing
/// tag, and every opening boundary tag of the stream lies within one of them.
pub proof fn lemma_records_are_subtrees(evs: Seq<XmlEvent>, tag: Seq<u8>) -> (spans: Seq<
    (int, int),
>)
    requires
        eof_last(evs),
        scan_run(ScanModel::Idle, evs, tag, 0) is Ok,
    ensures
        spans_valid(evs, tag, scan_run(ScanModel::Idle, evs, tag, 0)->Ok_0, spans),
        forall|m: int| 0 <= m < evs.len() && opens(evs[m], tag) ==> covered(spans, m),
{
    lemma_scan_from(ScanModel::Idle, evs, tag, 0, 0)
}

} // verus!
