//! The pattern extractors: from the elements at a known place of a page, find
//! the first whose text holds a label, and derive a value from it.
//!
//! There are three shapes. A raw field is the labelled element's last text
//! node. A count is the first run of digits in that node. A score is the
//! first number in the element's whole text, and "0" where it holds none.

use crate::document::{query, query_result, Element, ElementView};
use crate::error::ErrorKind;
use crate::pattern::{capture, capture_result, named_capture, pattern_compiles};
use crate::site::{
    COUNT_GROUP, COUNT_PATTERN, DEFAULT_SCORE, INFO_BLOCK_PATH, ISSUE_HEADER_PATH, PATH_SEPARATOR,
    SCORE_BLOCK_PATH, SCORE_GROUP, SCORE_PATTERN, SERIES_BUTTON_PATH, TAB_BAR_PATH,
};
use crate::text::{
    contains, lemma_contains_length, lemma_split_last, lemma_split_nonempty,
    lemma_split_pieces_lack_separator, occurs_at, split, split_on, text_contains,
};
use vstd::prelude::*;
use vstd::string::*;

verus! {

/// An element mentions a label when its text contains it.
pub open spec fn mentions(element: ElementView, label: Seq<char>) -> bool {
    contains(element.text(), label)
}

/// Some element of `elements` mentions `label`.
pub open spec fn some_mentions(elements: Seq<ElementView>, label: Seq<char>) -> bool {
    exists|k: int| 0 <= k < elements.len() && mentions(#[trigger] elements[k], label)
}

/// The position of the first element at or after `from` that mentions `label`.
pub open spec fn first_labelled(
    elements: Seq<ElementView>,
    label: Seq<char>,
    from: int,
) -> Option<int>
    decreases elements.len() - from,
{
    if from < 0 || from >= elements.len() {
        None
    } else if mentions(elements[from], label) {
        Some(from)
    } else {
        first_labelled(elements, label, from + 1)
    }
}

/// The first element that mentions `label`.
pub open spec fn labelled(elements: Seq<ElementView>, label: Seq<char>) -> Option<ElementView> {
    match first_labelled(elements, label, 0) {
        Some(at) => Some(elements[at]),
        None => None,
    }
}

/// The raw field under `label`: the last text node of the first element that
/// mentions the label.
pub open spec fn field_value(elements: Seq<ElementView>, label: Seq<char>) -> Option<Seq<char>> {
    match labelled(elements, label) {
        Some(element) => element.last_text(),
        None => None,
    }
}

/// The count under `label`: what the count pattern finds in the raw field.
pub open spec fn count_value(
    tabs: Seq<ElementView>,
    label: Seq<char>,
) -> Result<Option<Seq<char>>, ErrorKind> {
    match field_value(tabs, label) {
        Some(node) => capture_result(COUNT_PATTERN@, COUNT_GROUP@, node),
        None => Ok(None),
    }
}

/// The tabs hold a count under `label`: a tab mentions the label, and the
/// count pattern finds digits in the last text node of the first such tab.
pub open spec fn counted(tabs: Seq<ElementView>, label: Seq<char>) -> bool {
    match field_value(tabs, label) {
        Some(node) => named_capture(COUNT_PATTERN@, COUNT_GROUP@, node) is Some,
        None => false,
    }
}

/// The score that a rating block states, given what the score pattern found
/// in it.
pub open spec fn stated_score(found: Option<Seq<char>>) -> Seq<char> {
    match found {
        Some(number) => number,
        None => DEFAULT_SCORE@,
    }
}

/// The score under `label`: what the score pattern finds in the text of the
/// first block that mentions the label, and "0" where it finds nothing there.
pub open spec fn score_value(
    blocks: Seq<ElementView>,
    label: Seq<char>,
) -> Result<Option<Seq<char>>, ErrorKind> {
    match labelled(blocks, label) {
        Some(block) => match capture_result(SCORE_PATTERN@, SCORE_GROUP@, block.text()) {
            Ok(found) => Ok(Some(stated_score(found))),
            Err(kind) => Err(kind),
        },
        None => Ok(None),
    }
}

/// The last segment of a link target: what follows its last separator, and
/// the whole of it where it holds none.
pub open spec fn trailing_segment(target: Seq<char>) -> Seq<char> {
    split(target, PATH_SEPARATOR@).last()
}

/// An issue's identifier: the last segment of the target of the first link
/// to its series.
pub open spec fn id_value(buttons: Seq<ElementView>) -> Option<Seq<char>> {
    if buttons.len() > 0 {
        match buttons[0].link {
            Some(target) => Some(trailing_segment(target)),
            None => None,
        }
    } else {
        None
    }
}

/// An issue's display name: the text of the first header.
pub open spec fn name_value(headers: Seq<ElementView>) -> Option<Seq<char>> {
    if headers.len() > 0 {
        Some(headers[0].text())
    } else {
        None
    }
}

/// An issue's identifier and display name, each as far as its page holds it.
#[derive(Debug, Clone, PartialEq, Eq)]
pub struct IdName {
    pub id: Option<String>,
    pub name: Option<String>,
}

/// What an `IdName` stands for in contracts.
pub struct IdNameView {
    pub id: Option<Seq<char>>,
    pub name: Option<Seq<char>>,
}

impl View for IdName {
    type V = IdNameView;

    open spec fn view(&self) -> IdNameView {
        IdNameView { id: self.id.deep_view(), name: self.name.deep_view() }
    }
}

/// The identifier and the display name that the issue page `html` holds.
pub open spec fn page_names(html: Seq<char>) -> Result<IdNameView, ErrorKind> {
    match query_result(html, SERIES_BUTTON_PATH@) {
        Ok(buttons) => match query_result(html, ISSUE_HEADER_PATH@) {
            Ok(headers) => Ok(IdNameView { id: id_value(buttons), name: name_value(headers) }),
            Err(kind) => Err(kind),
        },
        Err(kind) => Err(kind),
    }
}

/// The raw field that the issue page `html` holds under `label`.
pub open spec fn page_field(
    html: Seq<char>,
    label: Seq<char>,
) -> Result<Option<Seq<char>>, ErrorKind> {
    match query_result(html, INFO_BLOCK_PATH@) {
        Ok(spans) => Ok(field_value(spans, label)),
        Err(kind) => Err(kind),
    }
}

/// The count that the issue page `html` holds under `label`.
pub open spec fn page_count(
    html: Seq<char>,
    label: Seq<char>,
) -> Result<Option<Seq<char>>, ErrorKind> {
    match query_result(html, TAB_BAR_PATH@) {
        Ok(tabs) => count_value(tabs, label),
        Err(kind) => Err(kind),
    }
}

/// The score that the issue page `html` holds under `label`.
pub open spec fn page_score(
    html: Seq<char>,
    label: Seq<char>,
) -> Result<Option<Seq<char>>, ErrorKind> {
    match query_result(html, SCORE_BLOCK_PATH@) {
        Ok(blocks) => score_value(blocks, label),
        Err(kind) => Err(kind),
    }
}

/// What an optional text stands for in contracts, where finding it may fail.
pub open spec fn field_view(
    found: Result<Option<String>, ErrorKind>,
) -> Result<Option<Seq<char>>, ErrorKind> {
    match found {
        Ok(value) => Ok(value.deep_view()),
        Err(kind) => Err(kind),
    }
}

/// What `first_labelled` finds mentions the label, and nothing before it does.
pub proof fn lemma_first_labelled(elements: Seq<ElementView>, label: Seq<char>, from: int)
    requires
        0 <= from,
    ensures
        (match first_labelled(elements, label, from) {
            Some(at) => {
                &&& from <= at < elements.len()
                &&& mentions(elements[at], label)
                &&& forall|k: int| from <= k < at ==> !mentions(elements[k], label)
            },
            None => forall|k: int| from <= k < elements.len() ==> !mentions(elements[k], label),
        }),
    decreases elements.len() - from,
{
    if from >= elements.len() {
    } else if mentions(elements[from], label) {
    } else {
        lemma_first_labelled(elements, label, from + 1);
    }
}

/// An element whose text holds a label that is not empty has a text node.
pub proof fn lemma_mention_has_text(element: ElementView, label: Seq<char>)
    requires
        label.len() > 0,
        mentions(element, label),
    ensures
        element.texts.len() > 0,
{
    lemma_contains_length(element.text(), label);
}

/// A raw field is found exactly where some element mentions its label.
pub proof fn lemma_field_present(elements: Seq<ElementView>, label: Seq<char>)
    requires
        label.len() > 0,
    ensures
        field_value(elements, label) is Some <==> some_mentions(elements, label),
{
    lemma_first_labelled(elements, label, 0);
    match first_labelled(elements, label, 0) {
        Some(at) => {
            lemma_mention_has_text(elements[at], label);
        },
        None => {},
    }
}

/// A score is found exactly where some block mentions its label, whatever the
/// block holds besides.
pub proof fn lemma_score_present(blocks: Seq<ElementView>, label: Seq<char>)
    requires
        pattern_compiles(SCORE_PATTERN@),
    ensures
        score_value(blocks, label) matches Ok(score) && (score is Some <==> some_mentions(
            blocks,
            label,
        )),
{
    lemma_first_labelled(blocks, label, 0);
}

/// A count is found exactly where the tabs hold one: a tab that mentions the
/// label without digits gives no count.
pub proof fn lemma_count_present(tabs: Seq<ElementView>, label: Seq<char>)
    requires
        pattern_compiles(COUNT_PATTERN@),
    ensures
        count_value(tabs, label) matches Ok(count) && (count is Some <==> counted(tabs, label)),
{
}

/// A block that mentions the label without a number gives the score "0", not
/// no score.
pub proof fn lemma_score_defaults(blocks: Seq<ElementView>, label: Seq<char>)
    requires
        pattern_compiles(SCORE_PATTERN@),
        labelled(blocks, label) matches Some(block) && named_capture(
            SCORE_PATTERN@,
            SCORE_GROUP@,
            block.text(),
        ) is None,
    ensures
        score_value(blocks, label) == Ok::<Option<Seq<char>>, ErrorKind>(Some(DEFAULT_SCORE@)),
{
}

/// The last segment of a link target holds no `/`, and it is the end of the
/// target: the whole of it, or what follows a `/`.
pub proof fn lemma_trailing_segment(target: Seq<char>)
    ensures
        !contains(trailing_segment(target), PATH_SEPARATOR@),
        (exists|k: int|
            {
                &&& 0 <= k <= target.len()
                &&& trailing_segment(target) == #[trigger] target.subrange(k, target.len() as int)
                &&& k == 0 || target[k - 1] == '/'
            }),
{
    reveal_strlit("/");
    let pieces = split(target, PATH_SEPARATOR@);
    lemma_split_nonempty(target, PATH_SEPARATOR@, 0);
    lemma_split_pieces_lack_separator(target, PATH_SEPARATOR@, 0, pieces.len() - 1);
    lemma_split_last(target, PATH_SEPARATOR@, 0);
    let k = choose|k: int|
        {
            &&& 0 <= k <= target.len()
            &&& pieces.last() == #[trigger] target.subrange(k, target.len() as int)
            &&& k == 0 || occurs_at(target, PATH_SEPARATOR@, k - PATH_SEPARATOR@.len())
        };
    if k != 0 {
        assert(target.subrange(k - 1, k)[0] == '/');
    }
}

/// Whether the element mentions `label`: whether its text contains it.
pub fn element_mentions(element: &Element, label: &str) -> (found: bool)
    ensures
        found == mentions(element@, label@),
{
    let text = element.text();
    text_contains(text.as_str(), label)
}

/// The position of the first element that mentions `label`.
pub fn find_labelled(elements: &Vec<Element>, label: &str) -> (found: Option<usize>)
    ensures
        (match found {
            Some(at) => {
                &&& at < elements.len()
                &&& mentions(elements.deep_view()[at as int], label@)
                &&& forall|k: int| 0 <= k < at ==> !mentions(elements.deep_view()[k], label@)
                &&& first_labelled(elements.deep_view(), label@, 0) == Some(at as int)
            },
            None => {
                &&& !some_mentions(elements.deep_view(), label@)
                &&& first_labelled(elements.deep_view(), label@, 0) is None
            },
        }),
{
    let mut at: usize = 0;
    while at < elements.len()
        invariant
            at <= elements.len(),
            first_labelled(elements.deep_view(), label@, 0) == first_labelled(
                elements.deep_view(),
                label@,
                at as int,
            ),
        decreases elements.len() - at,
    {
        if element_mentions(&elements[at], label) {
            proof {
                lemma_first_labelled(elements.deep_view(), label@, 0);
            }
            return Some(at);
        }
        at += 1;
    }
    proof {
        lemma_first_labelled(elements.deep_view(), label@, 0);
    }
    None
}

/// The raw field under `label`: the last text node of the first element that
/// mentions the label. There is none where no element mentions the label.
pub fn raw_field(elements: &Vec<Element>, label: &str) -> (value: Option<String>)
    ensures
        value.deep_view() == field_value(elements.deep_view(), label@),
{
    match find_labelled(elements, label) {
        Some(at) => elements[at].last_text(),
        None => None,
    }
}

/// The count under `label`: the first run of digits in the last text node of
/// the first tab that mentions the label. There is none where no tab mentions
/// the label, and none where that node holds no digit.
pub fn review_count(tabs: &Vec<Element>, label: &str) -> (count: Result<Option<String>, ErrorKind>)
    ensures
        field_view(count) == count_value(tabs.deep_view(), label@),
{
    match raw_field(tabs, label) {
        Some(node) => capture(COUNT_PATTERN, COUNT_GROUP, node.as_str()),
        None => Ok(None),
    }
}

/// The score that a rating block states, given what the score pattern found
/// in it: the number found, and "0" where none was found.
pub fn score_or_default(found: Option<String>) -> (score: String)
    ensures
        score@ == stated_score(found.deep_view()),
{
    match found {
        Some(number) => number,
        None => DEFAULT_SCORE.to_owned(),
    }
}

/// The score under `label`: the first number in the text of the first block
/// that mentions the label, and "0" where that text holds no number. There is
/// none where no block mentions the label.
pub fn review_score(
    blocks: &Vec<Element>,
    label: &str,
) -> (score: Result<Option<String>, ErrorKind>)
    ensures
        field_view(score) == score_value(blocks.deep_view(), label@),
{
    match find_labelled(blocks, label) {
        Some(at) => {
            let text = blocks[at].text();
            match capture(SCORE_PATTERN, SCORE_GROUP, text.as_str()) {
                Ok(found) => Ok(Some(score_or_default(found))),
                Err(kind) => Err(kind),
            }
        },
        None => Ok(None),
    }
}

/// The last segment of a link target: what follows its last `/`, and the
/// whole of it where it holds none.
pub fn last_segment(target: &str) -> (segment: String)
    ensures
        segment@ == trailing_segment(target@),
{
    proof {
        lemma_split_nonempty(target@, PATH_SEPARATOR@, 0);
    }
    let mut segments = split_on(target, PATH_SEPARATOR);
    let last = segments.pop();
    match last {
        Some(segment) => segment,
        None => String::new(),
    }
}

/// An issue's identifier: the last segment of the target of the first link
/// to its series. There is none where the page has no such link, and none
/// where the link has no target.
pub fn issue_id(buttons: &Vec<Element>) -> (id: Option<String>)
    ensures
        id.deep_view() == id_value(buttons.deep_view()),
{
    if buttons.len() > 0 {
        match &buttons[0].link {
            Some(target) => Some(last_segment(target.as_str())),
            None => None,
        }
    } else {
        None
    }
}

/// An issue's display name: the text of the first header. There is none
/// where the page has no header.
pub fn issue_name(headers: &Vec<Element>) -> (name: Option<String>)
    ensures
        name.deep_view() == name_value(headers.deep_view()),
{
    if headers.len() > 0 {
        Some(headers[0].text())
    } else {
        None
    }
}

/// The identifier and the display name of the issue whose page is `response`.
///
/// Each is left out where the page does not hold it. The call fails only
/// where a structural path is no selector.
pub fn parse_name(response: &str) -> (names: Result<IdName, ErrorKind>)
    ensures
        (match names {
            Ok(found) => page_names(response@) == Ok::<IdNameView, ErrorKind>(found@),
            Err(kind) => page_names(response@) == Err::<IdNameView, ErrorKind>(kind),
        }),
{
    let buttons = query(response, SERIES_BUTTON_PATH)?;
    let headers = query(response, ISSUE_HEADER_PATH)?;
    Ok(IdName { id: issue_id(&buttons), name: issue_name(&headers) })
}

/// The raw field that the issue page `response` holds under the label
/// `field`: the last text node of the first element of the info block whose
/// text contains the label.
///
/// The field is left out where no element mentions the label. The call fails
/// only where the structural path is no selector.
pub fn parse_comic_info_field(
    response: &str,
    field: &str,
) -> (value: Result<Option<String>, ErrorKind>)
    ensures
        field_view(value) == page_field(response@, field@),
{
    let spans = query(response, INFO_BLOCK_PATH)?;
    Ok(raw_field(&spans, field))
}

/// The count that the issue page `response` holds under the label `field`:
/// the first run of digits in the last text node of the first tab whose text
/// contains the label.
///
/// The count is left out where no tab mentions the label, and where that
/// node holds no digit. The call fails only where the structural path is no
/// selector or the count pattern no regular expression.
pub fn parse_review_count(response: &str, field: &str) -> (count: Result<Option<String>, ErrorKind>)
    ensures
        field_view(count) == page_count(response@, field@),
{
    let tabs = query(response, TAB_BAR_PATH)?;
    review_count(&tabs, field)
}

/// The score that the issue page `response` holds under the label `field`:
/// the first number in the text of the first rating block whose text
/// contains the label, and "0" where that text holds no number.
///
/// The score is left out where no block mentions the label. The call fails
/// only where the structural path is no selector or the score pattern no
/// regular expression.
pub fn parse_review_score(response: &str, field: &str) -> (score: Result<Option<String>, ErrorKind>)
    ensures
        field_view(score) == page_score(response@, field@),
{
    let blocks = query(response, SCORE_BLOCK_PATH)?;
    review_score(&blocks, field)
}

} // verus!
