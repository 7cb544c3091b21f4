//! The issue detail assembler: one record of an issue's metadata, from the
//! places of its page.
//!
//! Each field is extracted on its own. A field that the page does not hold
//! is left out of the record; it never keeps another field from being found.

use crate::document::{query, query_result, Element, ElementView};
use crate::error::ErrorKind;
use crate::extract::{
    count_value, counted, field_value, id_value, issue_id, issue_name, lemma_field_present,
    lemma_first_labelled, name_value, raw_field, review_count, review_score, score_value,
    some_mentions,
};
use crate::site::{
    definitions_valid, patterns_valid, ARTIST_LABEL, COVER_PRICE_LABEL, CRITIC_RATING_LABEL,
    CRITIC_REVIEWS_LABEL, INFO_BLOCK_PATH, ISSUE_HEADER_PATH, NAME_SEPARATOR, PUBLISHER_LABEL,
    RELEASE_DATE_LABEL, SCORE_BLOCK_PATH, SERIES_BUTTON_PATH, TAB_BAR_PATH, USER_RATING_LABEL,
    USER_REVIEWS_LABEL, WRITER_LABEL,
};
use crate::text::{
    contains, join, lemma_join_split, lemma_split_without_separator, split, split_on,
};
use vstd::prelude::*;

verus! {

/// The metadata of one issue. A field that its page does not hold is `None`.
#[derive(Debug, Clone, PartialEq, Eq)]
pub struct ComicInfo {
    /// The last segment of the link to the issue's series.
    pub id: Option<String>,
    /// The display name.
    pub name: Option<String>,
    /// The writers, in the order in which the page lists them.
    pub writers: Option<Vec<String>>,
    /// The artists, in the order in which the page lists them.
    pub artists: Option<Vec<String>>,
    /// The publisher's name.
    pub publisher: Option<String>,
    /// The release date, as the page writes it.
    pub release_date: Option<String>,
    /// The cover price, as the page writes it.
    pub cover_price: Option<String>,
    /// The number of critics' reviews, in decimal digits.
    pub critic_review_count: Option<String>,
    /// The number of users' reviews, in decimal digits.
    pub user_review_count: Option<String>,
    /// The critics' rating, a whole number or one with a decimal place.
    pub critic_review_score: Option<String>,
    /// The users' rating, a whole number or one with a decimal place.
    pub user_review_score: Option<String>,
}

/// What a `ComicInfo` stands for in contracts.
pub struct ComicInfoView {
    pub id: Option<Seq<char>>,
    pub name: Option<Seq<char>>,
    pub writers: Option<Seq<Seq<char>>>,
    pub artists: Option<Seq<Seq<char>>>,
    pub publisher: Option<Seq<char>>,
    pub release_date: Option<Seq<char>>,
    pub cover_price: Option<Seq<char>>,
    pub critic_review_count: Option<Seq<char>>,
    pub user_review_count: Option<Seq<char>>,
    pub critic_review_score: Option<Seq<char>>,
    pub user_review_score: Option<Seq<char>>,
}

impl View for ComicInfo {
    type V = ComicInfoView;

    open spec fn view(&self) -> ComicInfoView {
        ComicInfoView {
            id: self.id.deep_view(),
            name: self.name.deep_view(),
            writers: self.writers.deep_view(),
            artists: self.artists.deep_view(),
            publisher: self.publisher.deep_view(),
            release_date: self.release_date.deep_view(),
            cover_price: self.cover_price.deep_view(),
            critic_review_count: self.critic_review_count.deep_view(),
            user_review_count: self.user_review_count.deep_view(),
            critic_review_score: self.critic_review_score.deep_view(),
            user_review_score: self.user_review_score.deep_view(),
        }
    }
}

/// The places of an issue page from which its record is assembled.
#[derive(Debug, Clone, PartialEq, Eq)]
pub struct IssuePage {
    /// The links to the issue's series.
    pub buttons: Vec<Element>,
    /// The headers that hold the display name.
    pub headers: Vec<Element>,
    /// The elements of the info block.
    pub info: Vec<Element>,
    /// The tabs of the tab bar.
    pub tabs: Vec<Element>,
    /// The rating blocks.
    pub scores: Vec<Element>,
}

/// What an `IssuePage` stands for in contracts.
pub struct IssuePageView {
    pub buttons: Seq<ElementView>,
    pub headers: Seq<ElementView>,
    pub info: Seq<ElementView>,
    pub tabs: Seq<ElementView>,
    pub scores: Seq<ElementView>,
}

impl View for IssuePage {
    type V = IssuePageView;

    open spec fn view(&self) -> IssuePageView {
        IssuePageView {
            buttons: self.buttons.deep_view(),
            headers: self.headers.deep_view(),
            info: self.info.deep_view(),
            tabs: self.tabs.deep_view(),
            scores: self.scores.deep_view(),
        }
    }
}

/// The names that a raw field lists: its pieces between the separators. A
/// field without a separator is one name.
pub open spec fn names_in(raw: Seq<char>) -> Seq<Seq<char>> {
    split(raw, NAME_SEPARATOR@)
}

/// The names listed under `label`.
pub open spec fn names_value(info: Seq<ElementView>, label: Seq<char>) -> Option<Seq<Seq<char>>> {
    match field_value(info, label) {
        Some(raw) => Some(names_in(raw)),
        None => None,
    }
}

/// The places of the issue page `html`.
pub open spec fn issue_page(html: Seq<char>) -> Result<IssuePageView, ErrorKind> {
    match (
        query_result(html, SERIES_BUTTON_PATH@),
        query_result(html, ISSUE_HEADER_PATH@),
        query_result(html, INFO_BLOCK_PATH@),
        query_result(html, TAB_BAR_PATH@),
        query_result(html, SCORE_BLOCK_PATH@),
    ) {
        (Ok(buttons), Ok(headers), Ok(info), Ok(tabs), Ok(scores)) => Ok(
            IssuePageView { buttons, headers, info, tabs, scores },
        ),
        _ => Err(ErrorKind::InternalExtractionError),
    }
}

/// The record of the issue whose page has the places `page`.
pub open spec fn issue_details(page: IssuePageView) -> Result<ComicInfoView, ErrorKind> {
    match (
        count_value(page.tabs, CRITIC_REVIEWS_LABEL@),
        count_value(page.tabs, USER_REVIEWS_LABEL@),
        score_value(page.scores, CRITIC_RATING_LABEL@),
        score_value(page.scores, USER_RATING_LABEL@),
    ) {
        (
            Ok(critic_review_count),
            Ok(user_review_count),
            Ok(critic_review_score),
            Ok(user_review_score),
        ) => Ok(
            ComicInfoView {
                id: id_value(page.buttons),
                name: name_value(page.headers),
                writers: names_value(page.info, WRITER_LABEL@),
                artists: names_value(page.info, ARTIST_LABEL@),
                publisher: field_value(page.info, PUBLISHER_LABEL@),
                release_date: field_value(page.info, RELEASE_DATE_LABEL@),
                cover_price: field_value(page.info, COVER_PRICE_LABEL@),
                critic_review_count,
                user_review_count,
                critic_review_score,
                user_review_score,
            },
        ),
        _ => Err(ErrorKind::InternalExtractionError),
    }
}

/// The record that the issue page `html` holds.
pub open spec fn page_details(html: Seq<char>) -> Result<ComicInfoView, ErrorKind> {
    match issue_page(html) {
        Ok(page) => issue_details(page),
        Err(kind) => Err(kind),
    }
}

/// What a record stands for in contracts, where assembling it may fail.
pub open spec fn details_view(
    details: Result<ComicInfo, ErrorKind>,
) -> Result<ComicInfoView, ErrorKind> {
    match details {
        Ok(info) => Ok(info@),
        Err(kind) => Err(kind),
    }
}

/// A raw field in which no separator stands lists one name: itself.
pub proof fn lemma_single_name(raw: Seq<char>)
    requires
        !contains(raw, NAME_SEPARATOR@),
    ensures
        names_in(raw) == seq![raw],
{
    lemma_split_without_separator(raw, NAME_SEPARATOR@);
}

/// The names of a raw field, written with the separator between them again,
/// are the raw field.
pub proof fn lemma_names_keep_the_field(raw: Seq<char>)
    ensures
        join(names_in(raw), NAME_SEPARATOR@) == raw,
{
    lemma_join_split(raw, NAME_SEPARATOR@);
}

/// No page makes the assembler fail: with well-formed patterns it gives a
/// record for every page, whatever the page lacks.
pub proof fn lemma_issue_details_total(page: IssuePageView)
    requires
        patterns_valid(),
    ensures
        issue_details(page) is Ok,
{
}

/// With well-formed definitions every page gives a record, whatever it
/// lacks.
pub proof fn lemma_page_details_total(html: Seq<char>)
    requires
        definitions_valid(),
    ensures
        page_details(html) is Ok,
{
}

/// What goes wrong in assembling a record is never a fault of the page.
pub proof fn lemma_issue_details_failure(page: IssuePageView)
    ensures
        issue_details(page) matches Err(kind) ==> kind == ErrorKind::InternalExtractionError,
{
}

/// A field is in the record exactly where the page holds its place and its
/// label.
///
/// The identifier is there where the page has a link to the series and that
/// link has a target; the name, where the page has a header. A raw field and
/// a score are there where some element of their place mentions the label. A
/// count is there where the first tab that mentions its label ends in a text
/// node in which the count pattern finds digits.
pub proof fn lemma_issue_fields_present(page: IssuePageView)
    requires
        issue_details(page) is Ok,
    ensures
        ({
            let info = issue_details(page)->Ok_0;
            &&& info.id is Some <==> page.buttons.len() > 0 && page.buttons[0].link is Some
            &&& info.name is Some <==> page.headers.len() > 0
            &&& info.writers is Some <==> some_mentions(page.info, WRITER_LABEL@)
            &&& info.artists is Some <==> some_mentions(page.info, ARTIST_LABEL@)
            &&& info.publisher is Some <==> some_mentions(page.info, PUBLISHER_LABEL@)
            &&& info.release_date is Some <==> some_mentions(page.info, RELEASE_DATE_LABEL@)
            &&& info.cover_price is Some <==> some_mentions(page.info, COVER_PRICE_LABEL@)
            &&& info.critic_review_score is Some <==> some_mentions(
                page.scores,
                CRITIC_RATING_LABEL@,
            )
            &&& info.user_review_score is Some <==> some_mentions(page.scores, USER_RATING_LABEL@)
            &&& info.critic_review_count is Some <==> counted(page.tabs, CRITIC_REVIEWS_LABEL@)
            &&& info.user_review_count is Some <==> counted(page.tabs, USER_REVIEWS_LABEL@)
        }),
{
    reveal_strlit("Writer");
    reveal_strlit("Artist");
    reveal_strlit("Publisher");
    reveal_strlit("Release Date");
    reveal_strlit("Cover Price");
    lemma_field_present(page.info, WRITER_LABEL@);
    lemma_field_present(page.info, ARTIST_LABEL@);
    lemma_field_present(page.info, PUBLISHER_LABEL@);
    lemma_field_present(page.info, RELEASE_DATE_LABEL@);
    lemma_field_present(page.info, COVER_PRICE_LABEL@);
    lemma_first_labelled(page.scores, CRITIC_RATING_LABEL@, 0);
    lemma_first_labelled(page.scores, USER_RATING_LABEL@, 0);
}

/// The names that a raw field lists: its pieces between the separators
/// `", "`, in their order. A field without a separator is one name.
pub fn split_names(raw: &str) -> (names: Vec<String>)
    ensures
        names.deep_view() == names_in(raw@),
{
    split_on(raw, NAME_SEPARATOR)
}

/// The names listed under `label`. There are none where no element mentions
/// the label.
pub fn listed_names(info: &Vec<Element>, label: &str) -> (names: Option<Vec<String>>)
    ensures
        names.deep_view() == names_value(info.deep_view(), label@),
{
    match raw_field(info, label) {
        Some(raw) => Some(split_names(raw.as_str())),
        None => None,
    }
}

/// Reads from the issue page `html` the places from which its record is
/// assembled.
///
/// The call fails only where a structural path is no selector.
pub fn read_issue_page(html: &str) -> (page: Result<IssuePage, ErrorKind>)
    ensures
        (match page {
            Ok(places) => issue_page(html@) == Ok::<IssuePageView, ErrorKind>(places@),
            Err(kind) => issue_page(html@) == Err::<IssuePageView, ErrorKind>(kind),
        }),
{
    let buttons = query(html, SERIES_BUTTON_PATH)?;
    let headers = query(html, ISSUE_HEADER_PATH)?;
    let info = query(html, INFO_BLOCK_PATH)?;
    let tabs = query(html, TAB_BAR_PATH)?;
    let scores = query(html, SCORE_BLOCK_PATH)?;
    Ok(IssuePage { buttons, headers, info, tabs, scores })
}

/// Assembles the record of an issue from the places of its page.
///
/// The identifier and the name come from the first link to the series and
/// the first header. Writers and artists are the names listed under their
/// labels; publisher, release date and cover price are the raw fields under
/// theirs. The counts come from the tabs, the scores from the rating blocks.
/// Whatever the page does not hold is left out. The call fails only where a
/// pattern is no regular expression.
pub fn assemble_issue(page: &IssuePage) -> (details: Result<ComicInfo, ErrorKind>)
    ensures
        details_view(details) == issue_details(page@),
{
    let critic_review_count = review_count(&page.tabs, CRITIC_REVIEWS_LABEL)?;
    let user_review_count = review_count(&page.tabs, USER_REVIEWS_LABEL)?;
    let critic_review_score = review_score(&page.scores, CRITIC_RATING_LABEL)?;
    let user_review_score = review_score(&page.scores, USER_RATING_LABEL)?;
    Ok(
        ComicInfo {
            id: issue_id(&page.buttons),
            name: issue_name(&page.headers),
            writers: listed_names(&page.info, WRITER_LABEL),
            artists: listed_names(&page.info, ARTIST_LABEL),
            publisher: raw_field(&page.info, PUBLISHER_LABEL),
            release_date: raw_field(&page.info, RELEASE_DATE_LABEL),
            cover_price: raw_field(&page.info, COVER_PRICE_LABEL),
            critic_review_count,
            user_review_count,
            critic_review_score,
            user_review_score,
        },
    )
}

/// The record of the issue whose page is `response`.
///
/// Every field that the page holds is in the record, and none that it does
/// not hold. The call fails only where a structural path is no selector or a
/// pattern no regular expression; no page makes it fail.
pub fn get_comic_issue_json_response(response: &str) -> (details: Result<ComicInfo, ErrorKind>)
    ensures
        details_view(details) == page_details(response@),
{
    let page = read_issue_page(response)?;
    assemble_issue(&page)
}

} // verus!
