//! The error type surfaced by the library's fallible operations.

use vstd::prelude::*;

verus! {

/// Errors produced while building or converting documents and their metadata.
///
/// `UnknownLang` is the validation error for a string that is not a
/// well-formed language tag; `Serde` wraps a structural failure of the
/// durable textual form; `Io` and `MetadataConversion` carry failures of the
/// surrounding pipeline through unchanged. Failures that arise outside the
/// library are carried as their rendered message.
#[derive(Debug)]
pub enum Error {
    Io(String),
    UnknownLang(String),
    MetadataConversion(String),
    Custom(String),
    Serde(String),
}

impl From<String> for Error {
    fn from(s: String) -> (r: Error)
        ensures
            r == Error::Custom(s),
    {
        Error::Custom(s)
    }
}

impl vstd::std_specs::convert::FromSpecImpl<String> for Error {
    open spec fn obeys_from_spec() -> bool {
        true
    }

    open spec fn from_spec(s: String) -> Error {
        Error::Custom(s)
    }
}

} // verus!
