//! Decoders for the XML feeds of the Indonesian weather and geophysics agency:
//! nested weather forecasts and flat earthquake records.

use vstd::prelude::*;

pub mod text;
pub mod xml;
pub mod cuaca;
pub mod gempa;
pub mod grouper;
pub mod json;

verus! {

/// Host under which every feed is published.
pub const BMKG_BASE_URL: &'static str = "https://data.bmkg.go.id";

/// Why a document or a field was rejected.
#[derive(Debug)]
pub enum Error {
    /// The tokenizer met input that is not well-formed XML.
    MalformedInput {
        /// Byte offset in the input at which the tokenizer gave up.
        position: usize,
        /// The tokenizer's own description of the fault.
        detail: String,
    },
    /// A strict field setter was handed a name outside its closed set of fields.
    UnrecognizedField {
        /// The name as it was looked up.
        name: String,
    },
}

/// What an [`Error`] is, without its payload.
#[derive(Debug, Clone, Copy, PartialEq, Eq, Structural)]
pub enum ErrorKind {
    MalformedInput,
    UnrecognizedField,
}

impl Error {
    /// The kind of this error.
    pub open spec fn spec_kind(&self) -> ErrorKind {
        match self {
            Error::MalformedInput { .. } => ErrorKind::MalformedInput,
            Error::UnrecognizedField { .. } => ErrorKind::UnrecognizedField,
        }
    }

    /// The kind of this error.
    #[verifier::when_used_as_spec(spec_kind)]
    pub fn kind(&self) -> (kind: ErrorKind)
        ensures
            kind == self.spec_kind(),
    {
        match self {
            Error::MalformedInput { .. } => ErrorKind::MalformedInput,
            Error::UnrecognizedField { .. } => ErrorKind::UnrecognizedField,
        }
    }

    /// What the error says, as a reader would want it printed.
    pub open spec fn message(&self) -> Seq<char> {
        match self {
            Error::MalformedInput { detail, .. } => detail@,
            Error::UnrecognizedField { name } => "unknown field "@ + name@,
        }
    }

    /// What the error says, as a reader would want it printed.
    pub fn describe(&self) -> (text: String)
        ensures
            text@ == self.message(),
    {
        match self {
            Error::MalformedInput { detail, .. } => detail.clone(),
            Error::UnrecognizedField { name } => "unknown field ".to_owned().concat(name.as_str()),
        }
    }
}

} // verus!
