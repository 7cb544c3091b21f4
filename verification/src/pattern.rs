//! Numeric pattern matching: the first number that a text holds, as the
//! `regex` crate finds it.

use crate::error::ErrorKind;
use vstd::prelude::*;

verus! {

/// `regex`'s report of a pattern that does not compile. Nothing is read from
/// it.
#[verifier::external_type_specification]
#[verifier::external_body]
pub struct ExPatternError(regex::Error);

/// Whether `regex` takes `pattern` for a regular expression: whether
/// `Regex::new` accepts it.
pub uninterp spec fn pattern_compiles(pattern: Seq<char>) -> bool;

/// What the group named `group` holds in the first match of `pattern` in
/// `text`, as `Regex::captures` finds it; `None` where `pattern` matches
/// nowhere in `text`, or matches without that group.
pub uninterp spec fn named_capture(
    pattern: Seq<char>,
    group: Seq<char>,
    text: Seq<char>,
) -> Option<Seq<char>>;

/// Compiles `pattern` with `regex::Regex::new`, searches `text` with
/// `Regex::captures` and reads the group with `Captures::name`.
///
/// The contract claims that the call fails exactly where the pattern does not
/// compile, and that on success the result is the text that `named_capture`
/// names. Neither is proved.
#[verifier::external_body]
fn capture_named(
    pattern: &str,
    group: &str,
    text: &str,
) -> (found: Result<Option<String>, regex::Error>)
    ensures
        found is Ok <==> pattern_compiles(pattern@),
        found matches Ok(value) ==> value.deep_view() == named_capture(pattern@, group@, text@),
{
    let compiled = regex::Regex::new(pattern)?;
    Ok(compiled.captures(text).and_then(|groups| groups.name(group)).map(|m| m.as_str().to_owned()))
}

/// What a search for `pattern` in `text` gives: what the group `group` holds
/// in the first match, or the failure of a pattern that is no regular
/// expression.
pub open spec fn capture_result(
    pattern: Seq<char>,
    group: Seq<char>,
    text: Seq<char>,
) -> Result<Option<Seq<char>>, ErrorKind> {
    if pattern_compiles(pattern) {
        Ok(named_capture(pattern, group, text))
    } else {
        Err(ErrorKind::InternalExtractionError)
    }
}

/// What the group named `group` holds in the first match of `pattern` in
/// `text`, if there is a match.
///
/// A pattern that is no regular expression is a fault of the caller's
/// definitions, and is reported as one.
pub fn capture(pattern: &str, group: &str, text: &str) -> (found: Result<Option<String>, ErrorKind>)
    ensures
        (match found {
            Ok(value) => capture_result(pattern@, group@, text@) == Ok::<
                Option<Seq<char>>,
                ErrorKind,
            >(value.deep_view()),
            Err(kind) => capture_result(pattern@, group@, text@) == Err::<
                Option<Seq<char>>,
                ErrorKind,
            >(kind),
        }),
{
    match capture_named(pattern, group, text) {
        Ok(value) => Ok(value),
        Err(_) => Err(ErrorKind::InternalExtractionError),
    }
}

} // verus!
