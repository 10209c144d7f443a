use clinvar_xml_tab::cli::Genome;
use clinvar_xml_tab::clinvar::record::{contig_name, tabular_header_row};
use clinvar_xml_tab::clinvar_record::RecordBuilder;
use clinvar_xml_tab::clinvar_set_serde::{
    Classifications, ClinVarAccession, ClinVarSet, GermlineClassification,
    GermlineClassificationDescription, Measure, MeasureSet, ReferenceClinVarAssertion,
    SequenceLocation,
};
use clinvar_xml_tab::handler::{BasicNodeWriter, NodeVisit};
use clinvar_xml_tab::text::{normalize_classification, parse_usize, usize_text};
use clinvar_xml_tab::utils::{is_bzipped, is_gzipped, is_xz};

#[test]
fn genome_from_flags() {
    assert_eq!(Genome::from_flags(true, false), Genome::Hg19);
    assert_eq!(Genome::from_flags(false, true), Genome::Hg38);
    assert_eq!(Genome::from_flags(false, false), Genome::Hg38);
    assert_eq!(Genome::from_flags(true, true), Genome::Hg38);
    assert_eq!(Genome::Hg19.assembly(), "GRCh37");
    assert_eq!(Genome::Hg38.assembly(), "GRCh38");
}

#[test]
fn compression_detection() {
    assert!(is_gzipped(&[0x1f, 0x8b, 0x08, 0, 0, 0], None));
    assert!(!is_gzipped(&[0x1f, 0x8b], None));
    assert!(is_gzipped(b"<?xml ", Some("gz")));
    assert!(!is_gzipped(b"<?xml ", Some("xml")));
    assert!(is_bzipped(b"BZh91A", None));
    assert!(is_bzipped(b"", Some("bz2")));
    assert!(is_xz(&[0xfd, 0x37, 0x7a, 0x58, 0x5a, 0x00], None));
    assert!(!is_xz(&[0xfd, 0x37, 0x7a, 0x58, 0x5a, 0x01], None));
    assert!(is_xz(b"", Some("xz")));
}

#[test]
fn classification_normalization() {
    assert_eq!(normalize_classification("Likely pathogenic"), "likely_pathogenic");
    assert_eq!(normalize_classification("Conflicting classifications of pathogenicity"), "conflicting_classifications_of_pathogenicity");
    assert_eq!(normalize_classification(""), "");
}

#[test]
fn position_parsing() {
    assert_eq!(parse_usize("140453136"), Some(140453136));
    assert_eq!(parse_usize("+12"), Some(12));
    assert_eq!(parse_usize("0"), Some(0));
    assert_eq!(parse_usize(""), None);
    assert_eq!(parse_usize("+"), None);
    assert_eq!(parse_usize("12a"), None);
    assert_eq!(parse_usize("-1"), None);
    assert_eq!(parse_usize("18446744073709551615"), Some(usize::MAX));
    assert_eq!(parse_usize("18446744073709551616"), None);
}

#[test]
fn contig_names() {
    assert_eq!(contig_name("MT"), "chrM");
    assert_eq!(contig_name("7"), "chr7");
    assert_eq!(contig_name("X"), "chrX");
    assert_eq!(tabular_header_row().len(), 11);
}

#[test]
fn debug_line_of_a_visit() {
    let w = BasicNodeWriter::new();
    let v = NodeVisit {
        path: vec!["A".to_string(), "B".to_string(), "C".to_string()],
        depth: 3,
        attributes: vec![("k".to_string(), "v".to_string()), ("x".to_string(), "y".to_string())],
        text: Some("t".to_string()),
    };
    assert_eq!(w.handle(&v), "\t\tA.B.C - t - k=v x=y\n");
    let bare = NodeVisit { path: vec!["A".to_string()], depth: 1, attributes: vec![], text: None };
    assert_eq!(w.handle(&bare), "A - No text - No attributes\n");
}

fn loc(assembly: &str, chr: &str, pos: &str) -> SequenceLocation {
    SequenceLocation {
        assembly: assembly.to_string(),
        chr: chr.to_string(),
        accession: "NC_000007.14".to_string(),
        position_vcf: pos.to_string(),
        reference_allele_vcf: "A".to_string(),
        alternate_allele_vcf: "T".to_string(),
    }
}

fn set(locations: Vec<Option<SequenceLocation>>) -> ClinVarSet {
    ClinVarSet {
        title: "title".to_string(),
        reference_clinvar_assertion: ReferenceClinVarAssertion {
            id: "1".to_string(),
            date_last_updated: "2024-01-01".to_string(),
            date_created: "2020-01-01".to_string(),
            clinvar_accession: ClinVarAccession { rcv: "RCV000000001".to_string() },
            classifications: Classifications {
                germline: vec![GermlineClassification {
                    description: GermlineClassificationDescription {
                        description: "Pathogenic".to_string(),
                        date_last_evaluated: "2023-05-05".to_string(),
                    },
                }],
            },
            measure_set: MeasureSet {
                acc: "VCV000013961".to_string(),
                measure: vec![Measure {
                    measure_type: "single nucleotide variant".to_string(),
                    id: "2".to_string(),
                    sequence_location: locations,
                }],
            },
        },
    }
}

#[test]
fn clinvar_set_accessors() {
    let s = set(vec![Some(loc("GRCh37", "7", "100")), None, Some(loc("GRCh38", "7", "200")), Some(loc("GRCh38", "8", "300"))]);
    assert_eq!(s.get_chrom(&Genome::Hg19), Some("7"));
    assert_eq!(s.get_pos(&Genome::Hg19), Some("100"));
    assert_eq!(s.get_chrom(&Genome::Hg38), Some("8"));
    assert_eq!(s.get_pos(&Genome::Hg38), Some("300"));
    assert_eq!(s.get_ref(&Genome::Hg38), Some("A"));
    assert_eq!(s.get_alt(&Genome::Hg38), Some("T"));
    assert_eq!(s.get_rcv(), "RCV000000001");
    assert_eq!(s.get_date_last_evaluated(), "2023-05-05");
    assert_eq!(s.get_description(), "Pathogenic");
    assert_eq!(s.get_repr(&Genome::Hg19), Some("chr7\t100\tA\tT\tRCV000000001\tPathogenic\n".to_string()));
}

#[test]
fn clinvar_set_repr_mitochondrial_and_missing() {
    let s = set(vec![Some(loc("GRCh38", "MT", "3243"))]);
    assert_eq!(s.get_repr(&Genome::Hg38), Some("chrM\t3243\tA\tT\tRCV000000001\tPathogenic\n".to_string()));
    assert_eq!(s.get_repr(&Genome::Hg19), None);
    assert_eq!(s.get_chrom(&Genome::Hg19), None);
}

#[test]
fn record_builder_starts_empty() {
    let _b = RecordBuilder::new();
}

#[test]
fn decimal_rendering() {
    assert_eq!(usize_text(0), "0");
    assert_eq!(usize_text(9), "9");
    assert_eq!(usize_text(10), "10");
    assert_eq!(usize_text(140453136), "140453136");
    assert_eq!(usize_text(usize::MAX), usize::MAX.to_string());
}
