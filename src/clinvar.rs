//! ClinVar-specific stages: field extraction and output encodings.
pub mod record;
pub mod record_handler;
