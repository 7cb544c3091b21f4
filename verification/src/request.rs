//! The payloads of the requests that the extractors answer.

use vstd::prelude::*;

verus! {

/// A request for what one page holds: an issue's details, or the issues of
/// a series.
#[derive(Debug, Clone, PartialEq, Eq)]
pub struct RequestBody {
    /// The address of the page.
    pub url: String,
}

/// A request for the series of one publisher.
#[derive(Debug, Clone, PartialEq, Eq)]
pub struct ComicsRequestBody {
    /// The publisher's key in the registry.
    pub name: String,
}

} // verus!
