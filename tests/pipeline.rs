use clinvar_xml_tab::cli::Genome;
use noodles_vcf::header::record::value::map::Contig;
use clinvar_xml_tab::clinvar::record::{CSVRecordHandler, ClinVarRecord, SinkState, VCFRecordHandler};
use clinvar_xml_tab::clinvar::record_handler::{extract_record, Sink};
use clinvar_xml_tab::error::ClinvarXMLTabError;
use clinvar_xml_tab::reader::{record_visits, split_records, RecordScanner, ScanAction, XmlEvent, XmlEventKind};

fn ev(kind: XmlEventKind, name: &str, raw: &str) -> XmlEvent {
    XmlEvent { kind, name: name.as_bytes().to_vec(), raw: raw.as_bytes().to_vec() }
}

fn record_xml(status: &str, locations: &str) -> String {
    format!(
        "<ClinVarSet ID=\"1\">\
<RecordStatus>{status}</RecordStatus>\
<Title>NM_004333.6(BRAF):c.1799T&gt;A</Title>\
<ReferenceClinVarAssertion DateLastUpdated=\"2024-01-01\" ID=\"2\">\
<ClinVarAccession Acc=\"RCV000000001\" Type=\"RCV\"/>\
<Classifications><GermlineClassification><Description>Pathogenic</Description></GermlineClassification></Classifications>\
<MeasureSet Acc=\"VCV000013961\" Type=\"Variant\"><Measure Type=\"single nucleotide variant\">{locations}</Measure></MeasureSet>\
</ReferenceClinVarAssertion>\
<ClinVarAssertion ID=\"3\"><ClinVarAccession Acc=\"SCV000000009\" Type=\"SCV\"/></ClinVarAssertion>\
</ClinVarSet>"
    )
}

fn location(assembly: &str, chr: &str, pos: &str, r: &str, a: &str) -> String {
    format!(
        "<SequenceLocation Assembly=\"{assembly}\" Chr=\"{chr}\" positionVCF=\"{pos}\" referenceAlleleVCF=\"{r}\" alternateAlleleVCF=\"{a}\"/>"
    )
}

fn two_builds() -> String {
    let l38 = location("GRCh38", "7", "140753336", "A", "T");
    let l37 = location("GRCh37", "7", "140453136", "G", "C");
    record_xml("current", &format!("{l38}{l37}"))
}

fn vcf_header() -> noodles_vcf::Header {
    noodles_vcf::Header::builder().add_contig("chr7", noodles_vcf::header::record::value::Map::<Contig>::new()).build()
}

fn csv_sink(genome: Genome) -> CSVRecordHandler {
    let mut h = CSVRecordHandler::new(genome);
    let header = h.write_header().unwrap();
    assert_eq!(
        String::from_utf8(header).unwrap(),
        "STATUS,REPLACES,RCV,VCV,CLNSIG,DESCRIPTION,DATE_LAST_UPDATED,CHROMOSOME,POSITION,REFERENCE,ALTERNATE\n"
    );
    h
}

fn vcf_sink(genome: Genome) -> VCFRecordHandler {
    let mut h = VCFRecordHandler::new_from_header(vcf_header(), genome);
    let header = String::from_utf8(h.write_header().unwrap()).unwrap();
    assert!(header.starts_with("##fileformat=VCF"));
    assert!(header.contains("#CHROM\tPOS\tID\tREF\tALT\tQUAL\tFILTER\tINFO"));
    h
}

#[test]
fn segmenter_yields_one_buffer_per_record() {
    let events = vec![
        ev(XmlEventKind::Other, "", "<?xml version=\"1.0\"?>"),
        ev(XmlEventKind::Start, "ReleaseSet", "<ReleaseSet>"),
        ev(XmlEventKind::Start, "ClinVarSet", "<ClinVarSet>"),
        ev(XmlEventKind::Start, "ClinVarSet", "<ClinVarSet>"),
        ev(XmlEventKind::Other, "", "x"),
        ev(XmlEventKind::End, "ClinVarSet", "</ClinVarSet>"),
        ev(XmlEventKind::Empty, "Title", "<Title/>"),
        ev(XmlEventKind::End, "ClinVarSet", "</ClinVarSet>"),
        ev(XmlEventKind::Other, "", "\n"),
        ev(XmlEventKind::Start, "ClinVarSet", "<ClinVarSet ID=\"2\">"),
        ev(XmlEventKind::End, "ClinVarSet", "</ClinVarSet>"),
        ev(XmlEventKind::End, "ReleaseSet", "</ReleaseSet>"),
        ev(XmlEventKind::Eof, "", ""),
    ];
    let bufs = split_records(&events, b"ClinVarSet").unwrap();
    assert_eq!(bufs.len(), 2);
    assert_eq!(
        String::from_utf8(bufs[0].clone()).unwrap(),
        "<ClinVarSet><ClinVarSet>x</ClinVarSet><Title/></ClinVarSet>"
    );
    assert_eq!(String::from_utf8(bufs[1].clone()).unwrap(), "<ClinVarSet ID=\"2\"></ClinVarSet>");
    for b in bufs {
        assert!(record_visits(b).is_ok());
    }
}

#[test]
fn segmenter_reports_truncated_record() {
    let events = vec![
        ev(XmlEventKind::Start, "ClinVarSet", "<ClinVarSet>"),
        ev(XmlEventKind::Other, "", "x"),
        ev(XmlEventKind::Eof, "", ""),
    ];
    assert_eq!(split_records(&events, b"ClinVarSet").err(), Some(ClinvarXMLTabError::TruncatedInput));
    let short = vec![ev(XmlEventKind::Start, "ClinVarSet", "<ClinVarSet>")];
    assert_eq!(split_records(&short, b"ClinVarSet").err(), Some(ClinvarXMLTabError::TruncatedInput));
}

#[test]
fn segmenter_on_empty_stream() {
    let bufs = split_records(&vec![], b"ClinVarSet").unwrap();
    assert!(bufs.is_empty());
}

#[test]
fn scanner_steps_hand_out_records() {
    let mut sc = RecordScanner::new(b"R");
    assert_eq!(sc.step(&ev(XmlEventKind::Start, "R", "<R>")), Ok(ScanAction::Continue));
    assert!(sc.in_record());
    assert_eq!(sc.step(&ev(XmlEventKind::End, "R", "</R>")), Ok(ScanAction::Record));
    assert_eq!(sc.take_record(), Some(b"<R></R>".to_vec()));
    assert_eq!(sc.take_record(), None);
    assert_eq!(sc.step(&ev(XmlEventKind::Eof, "", "")), Ok(ScanAction::Finished));
}

#[test]
fn visits_carry_their_ancestry() {
    let xml = "<A x=\"1\"><B> hello </B><C><D y=\"2\" z=\"3\"/></C>tail<B/></A>";
    let visits = record_visits(xml.as_bytes().to_vec()).unwrap();
    let paths: Vec<Vec<String>> = visits.iter().map(|v| v.path.clone()).collect();
    assert_eq!(
        paths,
        vec![
            vec!["A".to_string()],
            vec!["A".to_string(), "B".to_string()],
            vec!["A".to_string(), "C".to_string()],
            vec!["A".to_string(), "C".to_string(), "D".to_string()],
            vec!["A".to_string(), "B".to_string()],
        ]
    );
    for v in &visits {
        assert_eq!(v.path.len(), v.depth);
    }
    assert_eq!(visits[1].text, Some("hello".to_string()));
    assert_eq!(visits[3].attributes, vec![("y".to_string(), "2".to_string()), ("z".to_string(), "3".to_string())]);
    assert_eq!(visits[0].attribute("x"), Some("1".to_string()));
    assert_eq!(visits[0].attribute("q"), None);
}

#[test]
fn malformed_buffers_are_rejected() {
    assert_eq!(record_visits(vec![0xff, 0xfe]).err(), Some(ClinvarXMLTabError::Utf8Error));
    assert_eq!(record_visits(b"<A><B></A>".to_vec()).err(), Some(ClinvarXMLTabError::RoxmlError));
}

#[test]
fn dispatch_twice_gives_same_fields() {
    let xml = two_builds();
    let a = extract_record(xml.as_bytes().to_vec(), Genome::Hg38).unwrap();
    let b = extract_record(xml.as_bytes().to_vec(), Genome::Hg38).unwrap();
    assert_eq!(format!("{a:?}"), format!("{b:?}"));
    let mut csv = csv_sink(Genome::Hg38);
    for v in record_visits(xml.as_bytes().to_vec()).unwrap() {
        csv.handle(&v);
    }
    let once = format!("{:?}", csv.record());
    for v in record_visits(xml.as_bytes().to_vec()).unwrap() {
        csv.handle(&v);
    }
    assert_eq!(format!("{:?}", csv.record()), once);
    assert_eq!(once, format!("{a:?}"));
}

#[test]
fn build_selection_is_exclusive() {
    let xml = two_builds();
    let r37 = extract_record(xml.as_bytes().to_vec(), Genome::Hg19).unwrap();
    let r38 = extract_record(xml.as_bytes().to_vec(), Genome::Hg38).unwrap();
    assert_eq!(r37.chromosome.as_deref(), Some("7"));
    assert_eq!(r37.position, Some(140453136));
    assert_eq!(r37.reference.as_deref(), Some("G"));
    assert_eq!(r37.alternate.as_deref(), Some("C"));
    assert_eq!(r38.chromosome.as_deref(), Some("7"));
    assert_eq!(r38.position, Some(140753336));
    assert_eq!(r38.reference.as_deref(), Some("A"));
    assert_eq!(r38.alternate.as_deref(), Some("T"));
}

#[test]
fn mitochondrial_contig_labels() {
    let xml = record_xml("current", &location("GRCh38", "MT", "3243", "A", "G"));
    let rec = extract_record(xml.as_bytes().to_vec(), Genome::Hg38).unwrap();
    let mut vcf = vcf_sink(Genome::Hg38);
    let line = String::from_utf8(vcf.accept(&rec).unwrap().unwrap()).unwrap();
    assert!(line.starts_with("chrM\t3243\t.\tA\tG\t"), "{line}");
    let csv = csv_sink(Genome::Hg38);
    let row = String::from_utf8(csv.accept(&rec).unwrap()).unwrap();
    assert!(row.contains(",chrMT,3243,A,G"), "{row}");
}

#[test]
fn missing_locus_field_is_dropped_not_blanked() {
    let partial = "<SequenceLocation Assembly=\"GRCh38\" Chr=\"7\" positionVCF=\"140753336\" referenceAlleleVCF=\"A\"/>";
    let xml = record_xml("current", partial);
    let rec = extract_record(xml.as_bytes().to_vec(), Genome::Hg38).unwrap();
    assert!(rec.alternate.is_none());
    let mut vcf = vcf_sink(Genome::Hg38);
    assert_eq!(vcf.dropped(), 0);
    assert_eq!(vcf.accept(&rec), Ok(None));
    assert_eq!(vcf.dropped(), 1);
    assert_eq!(vcf.written(), 0);
    let csv = csv_sink(Genome::Hg38);
    let row = String::from_utf8(csv.accept(&rec).unwrap()).unwrap();
    assert_eq!(
        row,
        "current,RCV000000001,VCV000013961,pathogenic,NM_004333.6(BRAF):c.1799T>A,2024-01-01,chr7,140753336,A,\n"
    );
}

#[test]
fn end_to_end_build38_record() {
    let xml = record_xml("current", &location("GRCh38", "7", "140453136", "A", "T"));
    let mut tab = Sink::Tabular(csv_sink(Genome::Hg38));
    let row = String::from_utf8(tab.process_record(xml.as_bytes().to_vec()).unwrap().unwrap()).unwrap();
    let fields: Vec<&str> = row.trim_end().split(',').collect();
    assert_eq!(fields[0], "current");
    assert_eq!(fields[1], "RCV000000001");
    assert_eq!(fields[3], "pathogenic");
    assert_eq!(fields[6], "chr7");
    assert_eq!(fields[7], "140453136");
    assert_eq!(fields[8], "A");
    assert_eq!(fields[9], "T");
    let mut var = Sink::Variant(vcf_sink(Genome::Hg38));
    let line = String::from_utf8(var.process_record(xml.as_bytes().to_vec()).unwrap().unwrap()).unwrap();
    let cols: Vec<&str> = line.trim_end().split('\t').collect();
    assert_eq!(cols.len(), 8);
    assert_eq!(&cols[..5], &["chr7", "140453136", ".", "A", "T"]);
    assert_eq!(cols[6], "PASS");
    assert!(cols[7].contains("RCV000000001"));
    assert!(cols[7].contains("pathogenic"));
}

#[test]
fn superseded_accession_only_when_present() {
    let with = record_xml("current", "").replace("<Title>", "<Replaces>RCV000000002</Replaces><Title>");
    let rec = extract_record(with.as_bytes().to_vec(), Genome::Hg38).unwrap();
    assert_eq!(rec.replaces.as_deref(), Some("RCV000000002"));
    let csv = csv_sink(Genome::Hg38);
    let row = String::from_utf8(csv.accept(&rec).unwrap()).unwrap();
    assert!(row.starts_with("current,RCV000000002,RCV000000001,"), "{row}");
    assert_eq!(row.trim_end().split(',').count(), 11);
}

#[test]
fn submitter_accessions_are_ignored() {
    let xml = record_xml("current", "");
    let rec = extract_record(xml.as_bytes().to_vec(), Genome::Hg38).unwrap();
    assert_eq!(rec.rcv.as_deref(), Some("RCV000000001"));
    assert_eq!(rec.vcv.as_deref(), Some("VCV000013961"));
    assert_eq!(rec.description.as_deref(), Some("NM_004333.6(BRAF):c.1799T>A"));
    assert_eq!(rec.date_last_updated.as_deref(), Some("2024-01-01"));
    assert!(rec.chromosome.is_none());
}

#[test]
fn empty_record_is_all_unset() {
    let r = ClinVarRecord::new();
    assert!(r.status.is_none() && r.rcv.is_none() && r.position.is_none());
}

#[test]
fn sink_lifecycle() {
    let mut h = CSVRecordHandler::new(Genome::Hg19);
    assert_eq!(h.state(), SinkState::AwaitingHeader);
    h.write_header().unwrap();
    assert_eq!(h.state(), SinkState::HeaderWritten);
    let row = String::from_utf8(h.end_record().unwrap()).unwrap();
    assert_eq!(row, ",,,,,,,,,\n");
    h.close();
    assert_eq!(h.state(), SinkState::Closed);
}

#[test]
fn variant_line_is_exact() {
    let xml = record_xml("current", &location("GRCh38", "7", "140453136", "A", "T"));
    let mut vcf = vcf_sink(Genome::Hg38);
    for v in record_visits(xml.as_bytes().to_vec()).unwrap() {
        vcf.handle(&v);
    }
    let line = String::from_utf8(vcf.end_record().unwrap().unwrap()).unwrap();
    assert_eq!(line, "chr7\t140453136\t.\tA\tT\t.\tPASS\tCLNACC=RCV000000001;CLNSIG=pathogenic\n");
    assert_eq!(vcf.written(), 1);
    assert_eq!(vcf.dropped(), 0);
    assert!(vcf.record().status.is_none());
}

#[test]
fn visit_text_trims_unicode_white_space() {
    let xml = "<A>\u{a0}\u{3000} x y\u{2028}\t</A>";
    let visits = record_visits(xml.as_bytes().to_vec()).unwrap();
    assert_eq!(visits[0].text, Some("x y".to_string()));
    let zw = "<A>\u{200b}x</A>";
    let visits = record_visits(zw.as_bytes().to_vec()).unwrap();
    assert_eq!(visits[0].text, Some("\u{200b}x".to_string()));
}
