use vstd::prelude::*;

verus! {

/// Why a conversion stopped. The payload names the offending attribute or value.
#[derive(Debug, Clone)]
pub enum ConvertError {
    /// No input document is a pyramid level.
    InputClassification,
    /// A required attribute or sequence item is absent.
    MissingAttribute(String),
    /// An attribute has the wrong cardinality or structure.
    MalformedAttribute(String),
    /// A photometric label, compression or tiling layout that cannot be written.
    UnsupportedFormat(String),
    /// An error of the underlying stream or sink.
    Io(String),
}

impl ConvertError {
    pub open spec fn is_unsupported_format(&self) -> bool {
        self is UnsupportedFormat
    }

    pub open spec fn is_malformed_attribute(&self) -> bool {
        self is MalformedAttribute
    }
}

} // verus!
