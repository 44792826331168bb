use vstd::prelude::*;

verus! {

/// The ways in which building a batch can fail. No partial batch is ever
/// returned beside one of these.
#[derive(Debug, Clone, Copy, PartialEq, Eq, Structural)]
pub enum BatchError {
    /// A setting is unusable: a tokenizer without a padding token, a
    /// normalization range whose bounds are equal, an unknown split name.
    ConfigurationError,
    /// The record at `index` holds a label or category that is not known.
    DataError { index: usize },
    /// A feature vector has the wrong length, or two lists that must be
    /// aligned have different lengths.
    ShapeError,
    /// The tokenizer could not encode the text of the record at `index`.
    EncodingError { index: usize },
}

} // verus!
