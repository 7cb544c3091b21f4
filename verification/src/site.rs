//! What is known of the site: its origin, where on its pages each thing
//! stands, under which label, and in which pattern.
//!
//! Every structural path, label and pattern that the extractors rely on is a
//! constant of this file, so that a change of the site's layout is met in one
//! place.

use crate::document::{query, selector_parses};
use crate::error::ErrorKind;
use crate::pattern::{capture, pattern_compiles};
use vstd::prelude::*;

verus! {

/// The site's origin, to which the link targets of its pages are relative.
pub const CORE_URL: &'static str = "https://comicbookroundup.com";

/// Where the link to an issue's series stands.
pub const SERIES_BUTTON_PATH: &'static str = "div.series-buttons a.series";

/// Where an issue's display name stands.
pub const ISSUE_HEADER_PATH: &'static str = ".issue div.container div.right h1 span";

/// Where the labelled fields of an issue stand: writer, artist, publisher,
/// release date, cover price.
pub const INFO_BLOCK_PATH: &'static str = ".issue div.container div.right div.left span";

/// Where the tabs stand that carry the numbers of reviews.
pub const TAB_BAR_PATH: &'static str = ".divider div.container ul.tabs li";

/// Where the blocks stand that carry the ratings.
pub const SCORE_BLOCK_PATH: &'static str = ".issue div.container div.right div.right div";

/// Where the links to a series' issues stand.
pub const ISSUE_LINK_PATH: &'static str = "div.section > table > tbody > tr > td.issue > a";

/// Where the links to a publisher's series stand.
pub const SERIES_LINK_PATH: &'static str = "div.section > table > tbody > tr > td.series > a";

/// The label of the field that lists an issue's writers.
pub const WRITER_LABEL: &'static str = "Writer";

/// The label of the field that lists an issue's artists.
pub const ARTIST_LABEL: &'static str = "Artist";

/// The label of the field that names an issue's publisher.
pub const PUBLISHER_LABEL: &'static str = "Publisher";

/// The label of the field that gives an issue's release date.
pub const RELEASE_DATE_LABEL: &'static str = "Release Date";

/// The label of the field that gives an issue's cover price.
pub const COVER_PRICE_LABEL: &'static str = "Cover Price";

/// The label of the tab that counts the critics' reviews.
pub const CRITIC_REVIEWS_LABEL: &'static str = "Critic Reviews";

/// The label of the tab that counts the users' reviews.
pub const USER_REVIEWS_LABEL: &'static str = "User Reviews";

/// The label of the block that gives the critics' rating.
pub const CRITIC_RATING_LABEL: &'static str = "Critic Rating";

/// The label of the block that gives the users' rating.
pub const USER_RATING_LABEL: &'static str = "User Rating";

/// A run of decimal digits.
pub const COUNT_PATTERN: &'static str = r"(?x)(?P<count>\d+)";

/// The group of `COUNT_PATTERN` that holds the count.
pub const COUNT_GROUP: &'static str = "count";

/// A number with one decimal place, or a whole number.
pub const SCORE_PATTERN: &'static str = r"(?x)(?P<score>\d+\.\d|\d+)";

/// The group of `SCORE_PATTERN` that holds the score.
pub const SCORE_GROUP: &'static str = "score";

/// The score of a rating block that names no number.
pub const DEFAULT_SCORE: &'static str = "0";

/// What stands between two names in a list of writers or artists.
pub const NAME_SEPARATOR: &'static str = ", ";

/// What parts the segments of a link target.
pub const PATH_SEPARATOR: &'static str = "/";

/// Every structural path of this file is a selector.
pub open spec fn paths_valid() -> bool {
    &&& selector_parses(SERIES_BUTTON_PATH@)
    &&& selector_parses(ISSUE_HEADER_PATH@)
    &&& selector_parses(INFO_BLOCK_PATH@)
    &&& selector_parses(TAB_BAR_PATH@)
    &&& selector_parses(SCORE_BLOCK_PATH@)
    &&& selector_parses(ISSUE_LINK_PATH@)
    &&& selector_parses(SERIES_LINK_PATH@)
}

/// Every pattern of this file is a regular expression.
pub open spec fn patterns_valid() -> bool {
    &&& pattern_compiles(COUNT_PATTERN@)
    &&& pattern_compiles(SCORE_PATTERN@)
}

/// Every structural path and every pattern of this file is well formed.
pub open spec fn definitions_valid() -> bool {
    paths_valid() && patterns_valid()
}

/// Whether `path` is a selector.
fn path_valid(path: &str) -> (valid: bool)
    ensures
        valid == selector_parses(path@),
{
    query("", path).is_ok()
}

/// Whether `pattern` is a regular expression.
fn pattern_valid(pattern: &str, group: &str) -> (valid: bool)
    ensures
        valid == pattern_compiles(pattern@),
{
    capture(pattern, group, "").is_ok()
}

/// Tries every structural path and every pattern of this file, and reports
/// the first that is not well formed.
///
/// An invalid definition is a defect of this library, not of a request. A
/// program calls this once, before it serves anything: later no request can
/// fail on a definition.
pub fn check_definitions() -> (checked: Result<(), ErrorKind>)
    ensures
        checked is Ok <==> definitions_valid(),
        checked matches Err(kind) ==> kind == ErrorKind::InternalExtractionError,
{
    if path_valid(SERIES_BUTTON_PATH) && path_valid(ISSUE_HEADER_PATH) && path_valid(
        INFO_BLOCK_PATH,
    ) && path_valid(TAB_BAR_PATH) && path_valid(SCORE_BLOCK_PATH) && path_valid(ISSUE_LINK_PATH)
        && path_valid(SERIES_LINK_PATH) && pattern_valid(COUNT_PATTERN, COUNT_GROUP)
        && pattern_valid(SCORE_PATTERN, SCORE_GROUP) {
        Ok(())
    } else {
        Err(ErrorKind::InternalExtractionError)
    }
}

} // verus!
