use vstd::prelude::*;

verus! {

/// The ways an operation on the record store can fail.
#[derive(Debug, Clone, Copy, PartialEq, Eq, Structural)]
pub enum StoreError {
    /// A collection directory or record file could not be read or written.
    Io,
    /// No record file exists under the requested name.
    NotFound,
    /// A record file does not hold a well-formed record.
    Deserialization,
    /// A record could not be encoded.
    Serialization,
    /// User input was rejected: an age that is not an integer in 0..=255,
    /// or an empty name or owner.
    InvalidArgument,
}

} // verus!
