//! Streaming conversion of ClinVar XML releases into flat tabular or VCF output.
//!
//! The pipeline is: event stream -> record segmenter -> tree walk -> rule
//! dispatcher -> record sink. Every stage below is verified; the byte-level I/O
//! around it lives in the application.
pub mod cli;
pub mod clinvar;
pub mod clinvar_record;
pub mod clinvar_set_serde;
pub mod clinvar_set_serde_auto;
pub mod clinvar_set_serde_auto_new;
pub mod error;
pub mod text;
pub mod utils;
pub mod xml;

pub use xml::{handler, reader};
