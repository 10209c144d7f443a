use vstd::prelude::*;

verus! {

/// Everything that stops the conversion of a record stream.
#[derive(Clone, Copy, Debug, PartialEq, Eq, Structural)]
pub enum ClinvarXMLTabError {
    /// The stream ended before the current record was closed.
    TruncatedInput,
    /// Boundary elements are nested deeper than the scanner can count.
    NestingTooDeep,
    /// A record buffer is not valid UTF-8.
    Utf8Error,
    /// A record buffer is not a well-formed XML document.
    RoxmlError,
    /// The parsed tree does not list its nodes in document order.
    MalformedTree,
    /// The tabular encoder refused a row.
    CSVError,
    /// The VCF encoder refused the header or a record.
    VCFError,
}

} // verus!
