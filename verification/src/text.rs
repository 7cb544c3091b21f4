//! Searching and cutting text: where a label stands in a text, and how a text
//! falls apart at a separator.
//!
//! Texts are modelled as sequences of characters. The executable functions
//! read a `&str` into a `Vec<char>` once and search that.

use vstd::prelude::*;
use vstd::string::*;

verus! {

/// `pattern` stands in `text` at position `at`.
pub open spec fn occurs_at(text: Seq<char>, pattern: Seq<char>, at: int) -> bool {
    &&& 0 <= at
    &&& at + pattern.len() <= text.len()
    &&& text.subrange(at, at + pattern.len()) == pattern
}

/// `pattern` stands somewhere in `text`.
pub open spec fn contains(text: Seq<char>, pattern: Seq<char>) -> bool {
    exists|at: int| occurs_at(text, pattern, at)
}

/// The first position at or after `from` at which `pattern` stands in `text`.
pub open spec fn first_occurrence(text: Seq<char>, pattern: Seq<char>, from: int) -> Option<int>
    decreases text.len() + 1 - from,
{
    if from < 0 || from + pattern.len() > text.len() {
        None
    } else if occurs_at(text, pattern, from) {
        Some(from)
    } else {
        first_occurrence(text, pattern, from + 1)
    }
}

/// The pieces into which `text` falls from position `from` on, when every
/// occurrence of `separator` is cut out, the occurrences taken from the left
/// and without overlap. With an empty separator nothing is cut.
pub open spec fn split_from(text: Seq<char>, separator: Seq<char>, from: int) -> Seq<Seq<char>>
    decreases text.len() - from,
{
    match first_occurrence(text, separator, from) {
        Some(at) if separator.len() > 0 => {
            proof {
                lemma_first_occurrence_is_occurrence(text, separator, from);
            }
            seq![text.subrange(from, at)] + split_from(text, separator, at + separator.len())
        },
        _ => seq![text.subrange(from, text.len() as int)],
    }
}

/// The pieces into which `text` falls when every occurrence of `separator` is
/// cut out.
pub open spec fn split(text: Seq<char>, separator: Seq<char>) -> Seq<Seq<char>> {
    split_from(text, separator, 0)
}

/// The pieces of `parts` written one after another with `separator` between
/// each two.
pub open spec fn join(parts: Seq<Seq<char>>, separator: Seq<char>) -> Seq<char>
    decreases parts.len(),
{
    if parts.len() == 0 {
        Seq::empty()
    } else if parts.len() == 1 {
        parts[0]
    } else {
        parts[0] + separator + join(parts.drop_first(), separator)
    }
}

/// `text` begins with `prefix`.
pub open spec fn starts_with(text: Seq<char>, prefix: Seq<char>) -> bool {
    prefix.len() <= text.len() && text.subrange(0, prefix.len() as int) == prefix
}

/// What `first_occurrence` finds is an occurrence, at or after `from`.
pub proof fn lemma_first_occurrence_is_occurrence(text: Seq<char>, pattern: Seq<char>, from: int)
    ensures
        first_occurrence(text, pattern, from) matches Some(at) ==> from <= at && occurs_at(
            text,
            pattern,
            at,
        ),
    decreases text.len() + 1 - from,
{
    if from < 0 || from + pattern.len() > text.len() {
    } else if occurs_at(text, pattern, from) {
    } else {
        lemma_first_occurrence_is_occurrence(text, pattern, from + 1);
    }
}

/// `first_occurrence` passes over no occurrence: none stands between `from`
/// and what it finds, and none at or after `from` where it finds nothing.
pub proof fn lemma_first_occurrence_is_first(text: Seq<char>, pattern: Seq<char>, from: int)
    requires
        0 <= from,
    ensures
        (match first_occurrence(text, pattern, from) {
            Some(at) => forall|k: int| from <= k < at ==> !occurs_at(text, pattern, k),
            None => forall|k: int| from <= k ==> !occurs_at(text, pattern, k),
        }),
    decreases text.len() + 1 - from,
{
    if from + pattern.len() > text.len() {
    } else if occurs_at(text, pattern, from) {
    } else {
        lemma_first_occurrence_is_first(text, pattern, from + 1);
    }
}

/// A text contains a pattern exactly when a first occurrence can be found
/// from its start.
pub proof fn lemma_contains_iff_found(text: Seq<char>, pattern: Seq<char>)
    ensures
        contains(text, pattern) <==> first_occurrence(text, pattern, 0) is Some,
{
    lemma_first_occurrence_is_occurrence(text, pattern, 0);
    lemma_first_occurrence_is_first(text, pattern, 0);
}

/// A text that contains a pattern is at least as long as the pattern.
pub proof fn lemma_contains_length(text: Seq<char>, pattern: Seq<char>)
    requires
        contains(text, pattern),
    ensures
        pattern.len() <= text.len(),
{
    let at = choose|at: int| occurs_at(text, pattern, at);
    assert(occurs_at(text, pattern, at));
}

/// A text in which the separator does not stand is a single piece: itself.
pub proof fn lemma_split_without_separator(text: Seq<char>, separator: Seq<char>)
    requires
        !contains(text, separator),
    ensures
        split(text, separator) == seq![text],
{
    lemma_contains_iff_found(text, separator);
    assert(text.subrange(0, text.len() as int) == text);
}

/// Splitting gives at least one piece.
pub proof fn lemma_split_nonempty(text: Seq<char>, separator: Seq<char>, from: int)
    ensures
        split_from(text, separator, from).len() >= 1,
{
}

/// Cutting a text at a separator loses nothing: its pieces, joined with the
/// separator again, are the text.
pub proof fn lemma_join_split(text: Seq<char>, separator: Seq<char>)
    ensures
        join(split(text, separator), separator) == text,
{
    lemma_join_split_from(text, separator, 0);
    assert(text.subrange(0, text.len() as int) == text);
}

/// The pieces from `from` on, joined with the separator again, are the text
/// from `from` on.
pub proof fn lemma_join_split_from(text: Seq<char>, separator: Seq<char>, from: int)
    requires
        0 <= from <= text.len(),
    ensures
        join(split_from(text, separator, from), separator) == text.subrange(
            from,
            text.len() as int,
        ),
    decreases text.len() - from,
{
    let end = text.len() as int;
    match first_occurrence(text, separator, from) {
        Some(at) if separator.len() > 0 => {
            lemma_first_occurrence_is_occurrence(text, separator, from);
            let next = at + separator.len();
            let head = text.subrange(from, at);
            let rest = split_from(text, separator, next);
            lemma_join_split_from(text, separator, next);
            lemma_split_nonempty(text, separator, next);
            let pieces = seq![head] + rest;
            assert(pieces.drop_first() == rest);
            assert(pieces[0] == head);
            assert(join(pieces, separator) == head + separator + join(rest, separator));
            assert(head + separator + text.subrange(next, end) == text.subrange(from, end)) by {
                assert(text.subrange(at, next) == separator);
                assert(head + text.subrange(at, next) + text.subrange(next, end)
                    =~= text.subrange(from, end));
            }
        },
        _ => {},
    }
}

/// No piece holds the separator.
pub proof fn lemma_split_pieces_lack_separator(
    text: Seq<char>,
    separator: Seq<char>,
    from: int,
    i: int,
)
    requires
        0 <= from <= text.len(),
        separator.len() > 0,
        0 <= i < split_from(text, separator, from).len(),
    ensures
        !contains(split_from(text, separator, from)[i], separator),
    decreases text.len() - from,
{
    let end = text.len() as int;
    lemma_first_occurrence_is_occurrence(text, separator, from);
    lemma_first_occurrence_is_first(text, separator, from);
    match first_occurrence(text, separator, from) {
        Some(at) => {
            let next = at + separator.len();
            let head = text.subrange(from, at);
            let rest = split_from(text, separator, next);
            if i == 0 {
                assert forall|k: int| !occurs_at(head, separator, k) by {
                    if occurs_at(head, separator, k) {
                        assert(text.subrange(from + k, from + k + separator.len())
                            =~= head.subrange(k, k + separator.len()));
                        assert(occurs_at(text, separator, from + k));
                    }
                }
            } else {
                assert((seq![head] + rest)[i] == rest[i - 1]);
                lemma_split_pieces_lack_separator(text, separator, next, i - 1);
            }
        },
        None => {
            let tail = text.subrange(from, end);
            assert forall|k: int| !occurs_at(tail, separator, k) by {
                if occurs_at(tail, separator, k) {
                    assert(text.subrange(from + k, from + k + separator.len())
                        =~= tail.subrange(k, k + separator.len()));
                    assert(occurs_at(text, separator, from + k));
                }
            }
        },
    }
}

/// The last piece is the end of the text: it begins where the pieces begin,
/// or right after an occurrence of the separator.
pub proof fn lemma_split_last(text: Seq<char>, separator: Seq<char>, from: int)
    requires
        0 <= from <= text.len(),
        separator.len() > 0,
    ensures
        (exists|k: int|
            {
                &&& from <= k <= text.len()
                &&& split_from(text, separator, from).last() == #[trigger] text.subrange(
                    k,
                    text.len() as int,
                )
                &&& k == from || occurs_at(text, separator, k - separator.len())
            }),
    decreases text.len() - from,
{
    let end = text.len() as int;
    lemma_first_occurrence_is_occurrence(text, separator, from);
    match first_occurrence(text, separator, from) {
        Some(at) => {
            let next = at + separator.len();
            let rest = split_from(text, separator, next);
            lemma_split_last(text, separator, next);
            lemma_split_nonempty(text, separator, next);
            assert((seq![text.subrange(from, at)] + rest).last() == rest.last());
            let k = choose|k: int|
                {
                    &&& next <= k <= text.len()
                    &&& rest.last() == #[trigger] text.subrange(k, end)
                    &&& k == next || occurs_at(text, separator, k - separator.len())
                };
            assert(split_from(text, separator, from).last() == text.subrange(k, end));
        },
        None => {
            assert(split_from(text, separator, from).last() == text.subrange(from, end));
        },
    }
}

/// The characters of a text, one by one.
pub fn chars_of(text: &str) -> (chars: Vec<char>)
    ensures
        chars@ == text@,
{
    broadcast use vstd::string::group_string_axioms;

    let mut chars: Vec<char> = Vec::new();
    for c in it: text.chars()
        invariant
            it.seq() == text@,
            chars@ == text@.take(it.index()),
    {
        chars.push(c);
    }
    chars
}

/// Whether `pattern` stands in `text` at position `at`.
pub fn matches_at(text: &Vec<char>, pattern: &Vec<char>, at: usize) -> (found: bool)
    ensures
        found == occurs_at(text@, pattern@, at as int),
{
    if pattern.len() > text.len() || at > text.len() - pattern.len() {
        return false;
    }
    let mut i: usize = 0;
    while i < pattern.len()
        invariant
            i <= pattern.len(),
            at + pattern.len() <= text.len(),
            forall|k: int| 0 <= k < i ==> text@[at + k] == pattern@[k],
        decreases pattern.len() - i,
    {
        if text[at + i] != pattern[i] {
            assert(text@.subrange(at as int, at + pattern.len())[i as int] != pattern@[i as int]);
            return false;
        }
        i += 1;
    }
    assert(text@.subrange(at as int, at + pattern.len()) =~= pattern@);
    true
}

/// The first position at or after `from` at which `pattern` stands in `text`.
pub fn find_from(text: &Vec<char>, pattern: &Vec<char>, from: usize) -> (found: Option<usize>)
    ensures
        (match found {
            Some(at) => {
                &&& from <= at
                &&& occurs_at(text@, pattern@, at as int)
                &&& forall|k: int| from <= k < at ==> !occurs_at(text@, pattern@, k)
                &&& first_occurrence(text@, pattern@, from as int) == Some(at as int)
            },
            None => {
                &&& forall|k: int| from <= k ==> !occurs_at(text@, pattern@, k)
                &&& first_occurrence(text@, pattern@, from as int) is None
            },
        }),
{
    proof {
        lemma_first_occurrence_is_occurrence(text@, pattern@, from as int);
        lemma_first_occurrence_is_first(text@, pattern@, from as int);
    }
    if pattern.len() > text.len() || from > text.len() - pattern.len() {
        return None;
    }
    let last: usize = text.len() - pattern.len();
    let mut at: usize = from;
    loop
        invariant
            from <= at <= last,
            last == text.len() - pattern.len(),
            first_occurrence(text@, pattern@, from as int) == first_occurrence(
                text@,
                pattern@,
                at as int,
            ),
        decreases last - at,
    {
        proof {
            lemma_first_occurrence_is_occurrence(text@, pattern@, from as int);
            lemma_first_occurrence_is_first(text@, pattern@, from as int);
        }
        if matches_at(text, pattern, at) {
            return Some(at);
        }
        if at == last {
            assert(first_occurrence(text@, pattern@, at + 1) is None);
            return None;
        }
        at += 1;
    }
}

/// Whether `pattern` stands somewhere in `text`.
pub fn text_contains(text: &str, pattern: &str) -> (found: bool)
    ensures
        found == contains(text@, pattern@),
{
    let text_chars = chars_of(text);
    let pattern_chars = chars_of(pattern);
    proof {
        lemma_contains_iff_found(text@, pattern@);
    }
    find_from(&text_chars, &pattern_chars, 0).is_some()
}

/// The pieces into which `text` falls when every occurrence of `separator` is
/// cut out, the occurrences taken from the left and without overlap.
///
/// There is always at least one piece: a text without the separator is its
/// own single piece, and so is every text where the separator is empty.
pub fn split_on(text: &str, separator: &str) -> (pieces: Vec<String>)
    ensures
        pieces.deep_view() == split(text@, separator@),
{
    let chars = chars_of(text);
    let cut = chars_of(separator);
    let mut pieces: Vec<String> = Vec::new();
    let mut from: usize = 0;
    loop
        invariant_except_break
            chars@ == text@,
            cut@ == separator@,
            from <= chars.len(),
            pieces.deep_view() + split_from(text@, separator@, from as int) == split(
                text@,
                separator@,
            ),
        ensures
            pieces.deep_view() == split(text@, separator@),
        decreases chars.len() - from,
    {
        let ghost before = pieces.deep_view();
        proof {
            lemma_first_occurrence_is_occurrence(text@, separator@, from as int);
        }
        let found = if cut.len() > 0 {
            find_from(&chars, &cut, from)
        } else {
            None
        };
        match found {
            Some(at) => {
                let piece = text.substring_char(from, at).to_owned();
                pieces.push(piece);
                assert(pieces.deep_view() =~= before + seq![text@.subrange(from as int, at as int)]);
                from = at + cut.len();
                assert(pieces.deep_view() + split_from(text@, separator@, from as int)
                    =~= split(text@, separator@));
            },
            None => {
                let piece = text.substring_char(from, chars.len()).to_owned();
                pieces.push(piece);
                assert(pieces.deep_view() =~= before + seq![
                    text@.subrange(from as int, text@.len() as int),
                ]);
                break ;
            },
        }
    }
    pieces
}

/// `first` followed by `second`.
pub fn chain(first: &str, second: &str) -> (joined: String)
    ensures
        joined@ == first@ + second@,
{
    let mut joined = first.to_owned();
    joined.append(second);
    joined
}

} // verus!
