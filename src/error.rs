//! Errors surfaced on the library's boundary.

use vstd::prelude::*;

verus! {

#[verifier::external_type_specification]
#[verifier::external_body]
pub struct ExIoError(std::io::Error);

/// Every error that the library can surface.
#[derive(Debug)]
pub enum ErrorKind {
    /// Compressed data could not be decoded.
    CompressionError(String),
    /// A value could not be (de)serialized.
    SerializationError(String),
    /// The transport failed.
    IoError(std::io::Error),
}

impl From<std::io::Error> for ErrorKind {
    fn from(error: std::io::Error) -> (r: ErrorKind) {
        ErrorKind::IoError(error)
    }
}

impl vstd::std_specs::convert::FromSpecImpl<std::io::Error> for ErrorKind {
    open spec fn obeys_from_spec() -> bool {
        true
    }

    open spec fn from_spec(error: std::io::Error) -> ErrorKind {
        ErrorKind::IoError(error)
    }
}

} // verus!
