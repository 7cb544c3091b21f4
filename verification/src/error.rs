//! The kinds of failure a request can end in, and how each is reported.

use vstd::prelude::*;

verus! {

/// Why a request could not be answered.
///
/// A label that is not found on a page is no failure: the field is left out
/// of the record. These are the failures of a whole request.
#[derive(Debug, Clone, Copy, PartialEq, Eq, Structural)]
pub enum ErrorKind {
    /// The request body is not valid JSON, or lacks a required field.
    MalformedRequest,
    /// The publisher's name is not a key of the registry.
    PublisherNotFound,
    /// The page could not be fetched.
    NetworkError,
    /// A listing row lacks what every row must have: a link target, or a name.
    DocumentStructureMissing,
    /// A selector or a pattern that the extractor is built on is itself invalid.
    InternalExtractionError,
}

impl ErrorKind {
    /// The HTTP status that reports this kind of failure.
    pub open spec fn spec_http_status(self) -> int {
        match self {
            ErrorKind::MalformedRequest => 400,
            ErrorKind::PublisherNotFound => 400,
            ErrorKind::NetworkError => 502,
            ErrorKind::DocumentStructureMissing => 502,
            ErrorKind::InternalExtractionError => 500,
        }
    }

    /// The name under which this kind appears in an error body.
    pub open spec fn spec_name(self) -> Seq<char> {
        match self {
            ErrorKind::MalformedRequest => "MalformedRequest"@,
            ErrorKind::PublisherNotFound => "PublisherNotFound"@,
            ErrorKind::NetworkError => "NetworkError"@,
            ErrorKind::DocumentStructureMissing => "DocumentStructureMissing"@,
            ErrorKind::InternalExtractionError => "InternalExtractionError"@,
        }
    }

    /// The HTTP status that reports this kind of failure: 400 for a fault of
    /// the request, 502 for a fault of the remote site, 500 for a fault of the
    /// extractor's own definitions.
    pub fn http_status(&self) -> (status: u16)
        ensures
            status == self.spec_http_status(),
    {
        match self {
            ErrorKind::MalformedRequest => 400,
            ErrorKind::PublisherNotFound => 400,
            ErrorKind::NetworkError => 502,
            ErrorKind::DocumentStructureMissing => 502,
            ErrorKind::InternalExtractionError => 500,
        }
    }

    /// The name under which this kind appears in an error body.
    pub fn name(&self) -> (name: &'static str)
        ensures
            name@ == self.spec_name(),
    {
        match self {
            ErrorKind::MalformedRequest => "MalformedRequest",
            ErrorKind::PublisherNotFound => "PublisherNotFound",
            ErrorKind::NetworkError => "NetworkError",
            ErrorKind::DocumentStructureMissing => "DocumentStructureMissing",
            ErrorKind::InternalExtractionError => "InternalExtractionError",
        }
    }
}

} // verus!
