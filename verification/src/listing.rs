//! The listing extractors: the series of a publisher, and the issues of a
//! series, each as the links of a table, in the order of the page.

use crate::document::{query, query_result, Element, ElementView};
use crate::error::ErrorKind;
use crate::site::{CORE_URL, ISSUE_LINK_PATH, SERIES_LINK_PATH};
use crate::text::{chain, starts_with};
use vstd::prelude::*;

verus! {

/// One series of a publisher's listing.
#[derive(Debug, Clone, PartialEq, Eq)]
pub struct Comic {
    /// The display name.
    pub name: String,
    /// The address of the series' page.
    pub url: String,
}

/// What a `Comic` stands for in contracts.
pub struct ComicView {
    pub name: Seq<char>,
    pub url: Seq<char>,
}

impl ComicView {
    /// The address is absolute: it begins with the site's origin.
    pub open spec fn well_formed(self) -> bool {
        starts_with(self.url, CORE_URL@)
    }
}

impl View for Comic {
    type V = ComicView;

    open spec fn view(&self) -> ComicView {
        ComicView { name: self.name@, url: self.url@ }
    }
}

impl DeepView for Comic {
    type V = ComicView;

    open spec fn deep_view(&self) -> ComicView {
        self@
    }
}

/// The series of one publisher, in the order of its listing.
#[derive(Debug, Clone, PartialEq, Eq)]
pub struct PublisherComics {
    pub comics: Vec<Comic>,
}

impl View for PublisherComics {
    type V = Seq<ComicView>;

    open spec fn view(&self) -> Seq<ComicView> {
        self.comics.deep_view()
    }
}

impl PublisherComics {
    /// Every address of the listing is absolute.
    pub open spec fn well_formed(&self) -> bool {
        forall|k: int| 0 <= k < self@.len() ==> (#[trigger] self@[k]).well_formed()
    }
}

/// The addresses of the issues of one series, in the order of its listing.
#[derive(Debug, Clone, PartialEq, Eq)]
pub struct ComicIssues {
    pub urls: Vec<String>,
}

impl View for ComicIssues {
    type V = Seq<Seq<char>>;

    open spec fn view(&self) -> Seq<Seq<char>> {
        self.urls.deep_view()
    }
}

impl ComicIssues {
    /// Every address of the listing is absolute.
    pub open spec fn well_formed(&self) -> bool {
        forall|k: int| 0 <= k < self@.len() ==> starts_with(#[trigger] self@[k], CORE_URL@)
    }
}

/// The absolute address of a link target: the site's origin, then the target.
pub open spec fn absolute(target: Seq<char>) -> Seq<char> {
    CORE_URL@ + target
}

/// An anchor can stand for an issue: it has a target.
pub open spec fn links(anchor: ElementView) -> bool {
    anchor.link is Some
}

/// An anchor can stand for a series: it has a target and a text node.
pub open spec fn names_series(anchor: ElementView) -> bool {
    anchor.link is Some && anchor.texts.len() > 0
}

/// The series that an anchor stands for: named by the anchor's first text
/// node, at the absolute address of its target.
pub open spec fn series_of(anchor: ElementView) -> ComicView {
    ComicView { name: anchor.texts.first(), url: absolute(anchor.link->0) }
}

/// The addresses of the issues that `anchors` link to: one for each anchor,
/// in their order. There are none where an anchor lacks its target.
pub open spec fn issue_urls(anchors: Seq<ElementView>) -> Result<Seq<Seq<char>>, ErrorKind> {
    if forall|k: int| 0 <= k < anchors.len() ==> links(#[trigger] anchors[k]) {
        Ok(Seq::new(anchors.len(), |k: int| absolute(anchors[k].link->0)))
    } else {
        Err(ErrorKind::DocumentStructureMissing)
    }
}

/// The series that `anchors` stand for: one for each anchor, in their order.
/// There are none where an anchor lacks its target or its text.
pub open spec fn series_list(anchors: Seq<ElementView>) -> Result<Seq<ComicView>, ErrorKind> {
    if forall|k: int| 0 <= k < anchors.len() ==> names_series(#[trigger] anchors[k]) {
        Ok(Seq::new(anchors.len(), |k: int| series_of(anchors[k])))
    } else {
        Err(ErrorKind::DocumentStructureMissing)
    }
}

/// The issue listing that the series page `html` holds.
pub open spec fn page_issue_urls(html: Seq<char>) -> Result<Seq<Seq<char>>, ErrorKind> {
    match query_result(html, ISSUE_LINK_PATH@) {
        Ok(anchors) => issue_urls(anchors),
        Err(kind) => Err(kind),
    }
}

/// The series listing that the publisher page `html` holds.
pub open spec fn page_series_list(html: Seq<char>) -> Result<Seq<ComicView>, ErrorKind> {
    match query_result(html, SERIES_LINK_PATH@) {
        Ok(anchors) => series_list(anchors),
        Err(kind) => Err(kind),
    }
}

/// What an issue listing stands for in contracts, where reading it may fail.
pub open spec fn issues_view(
    issues: Result<ComicIssues, ErrorKind>,
) -> Result<Seq<Seq<char>>, ErrorKind> {
    match issues {
        Ok(listing) => Ok(listing@),
        Err(kind) => Err(kind),
    }
}

/// What a series listing stands for in contracts, where reading it may fail.
pub open spec fn comics_view(
    comics: Result<PublisherComics, ErrorKind>,
) -> Result<Seq<ComicView>, ErrorKind> {
    match comics {
        Ok(listing) => Ok(listing@),
        Err(kind) => Err(kind),
    }
}

/// An absolute address begins with the site's origin and ends in the target.
pub proof fn lemma_absolute(target: Seq<char>)
    ensures
        starts_with(absolute(target), CORE_URL@),
        absolute(target).len() == CORE_URL@.len() + target.len(),
        absolute(target).subrange(CORE_URL@.len() as int, absolute(target).len() as int) == target,
{
    assert(absolute(target).subrange(0, CORE_URL@.len() as int) =~= CORE_URL@);
    assert(absolute(target).subrange(CORE_URL@.len() as int, absolute(target).len() as int)
        =~= target);
}

/// A series listing has one entry for each anchor, in the order of the
/// anchors, and each entry's address is absolute.
pub proof fn lemma_series_list(anchors: Seq<ElementView>)
    requires
        series_list(anchors) is Ok,
    ensures
        series_list(anchors)->Ok_0.len() == anchors.len(),
        (forall|k: int|
            0 <= k < anchors.len() ==> {
                let entry = #[trigger] series_list(anchors)->Ok_0[k];
                &&& anchors[k].link is Some
                &&& anchors[k].texts.len() > 0
                &&& entry.name == anchors[k].texts.first()
                &&& entry.url == CORE_URL@ + anchors[k].link->0
                &&& entry.well_formed()
            }),
{
    assert forall|k: int| 0 <= k < anchors.len() implies {
        let entry = #[trigger] series_list(anchors)->Ok_0[k];
        &&& anchors[k].link is Some
        &&& anchors[k].texts.len() > 0
        &&& entry.name == anchors[k].texts.first()
        &&& entry.url == CORE_URL@ + anchors[k].link->0
        &&& entry.well_formed()
    } by {
        assert(names_series(anchors[k]));
        lemma_absolute(anchors[k].link->0);
    }
}

/// An issue listing has one address for each anchor, in the order of the
/// anchors, and each address is absolute.
pub proof fn lemma_issue_urls(anchors: Seq<ElementView>)
    requires
        issue_urls(anchors) is Ok,
    ensures
        issue_urls(anchors)->Ok_0.len() == anchors.len(),
        (forall|k: int|
            0 <= k < anchors.len() ==> {
                let url = #[trigger] issue_urls(anchors)->Ok_0[k];
                &&& anchors[k].link is Some
                &&& url == CORE_URL@ + anchors[k].link->0
                &&& starts_with(url, CORE_URL@)
            }),
{
    assert forall|k: int| 0 <= k < anchors.len() implies {
        let url = #[trigger] issue_urls(anchors)->Ok_0[k];
        &&& anchors[k].link is Some
        &&& url == CORE_URL@ + anchors[k].link->0
        &&& starts_with(url, CORE_URL@)
    } by {
        assert(links(anchors[k]));
        lemma_absolute(anchors[k].link->0);
    }
}

/// The absolute address of a link target: the site's origin, then the target.
pub fn absolute_url(target: &str) -> (url: String)
    ensures
        url@ == absolute(target@),
{
    chain(CORE_URL, target)
}

/// The addresses of the issues that `anchors` link to: for each anchor, in
/// their order, the absolute address of its target.
///
/// An anchor without a target makes the listing fail.
pub fn comic_issue_urls(anchors: &Vec<Element>) -> (issues: Result<ComicIssues, ErrorKind>)
    ensures
        issues_view(issues) == issue_urls(anchors.deep_view()),
        issues matches Ok(listing) ==> listing.well_formed(),
{
    let mut urls: Vec<String> = Vec::new();
    let mut at: usize = 0;
    while at < anchors.len()
        invariant
            at <= anchors.len(),
            urls.len() == at,
            forall|k: int| 0 <= k < at ==> links(#[trigger] anchors.deep_view()[k]),
            forall|k: int|
                0 <= k < at ==> (#[trigger] urls[k])@ == absolute(anchors.deep_view()[k].link->0),
        decreases anchors.len() - at,
    {
        match &anchors[at].link {
            Some(target) => {
                urls.push(absolute_url(target.as_str()));
            },
            None => {
                assert(!links(anchors.deep_view()[at as int]));
                return Err(ErrorKind::DocumentStructureMissing);
            },
        }
        at += 1;
    }
    let issues = ComicIssues { urls };
    proof {
        assert(issues@ =~= issue_urls(anchors.deep_view())->Ok_0);
        lemma_issue_urls(anchors.deep_view());
    }
    Ok(issues)
}

/// The series that `anchors` stand for: for each anchor, in their order, its
/// first text node as the name and the absolute address of its target.
///
/// An anchor without a target, or without a text node, makes the listing
/// fail.
pub fn publisher_comics(anchors: &Vec<Element>) -> (comics: Result<PublisherComics, ErrorKind>)
    ensures
        comics_view(comics) == series_list(anchors.deep_view()),
        comics matches Ok(listing) ==> listing.well_formed(),
{
    let mut comics: Vec<Comic> = Vec::new();
    let mut at: usize = 0;
    while at < anchors.len()
        invariant
            at <= anchors.len(),
            comics.len() == at,
            forall|k: int| 0 <= k < at ==> names_series(#[trigger] anchors.deep_view()[k]),
            forall|k: int|
                0 <= k < at ==> (#[trigger] comics[k])@ == series_of(anchors.deep_view()[k]),
        decreases anchors.len() - at,
    {
        let anchor = &anchors[at];
        match (anchor.first_text(), &anchor.link) {
            (Some(name), Some(target)) => {
                comics.push(Comic { name, url: absolute_url(target.as_str()) });
            },
            _ => {
                assert(!names_series(anchors.deep_view()[at as int]));
                return Err(ErrorKind::DocumentStructureMissing);
            },
        }
        at += 1;
    }
    let listing = PublisherComics { comics };
    proof {
        assert(listing@ =~= series_list(anchors.deep_view())->Ok_0);
        lemma_series_list(anchors.deep_view());
    }
    Ok(listing)
}

/// The addresses of the issues of the series whose page is `response`, in
/// the order of the page, each the site's origin followed by the target of
/// the issue's link.
///
/// The call fails with `DocumentStructureMissing` where a link has no
/// target, and with `InternalExtractionError` where the structural path is
/// no selector.
pub fn parse_comic_issue_urls(response: &str) -> (issues: Result<ComicIssues, ErrorKind>)
    ensures
        issues_view(issues) == page_issue_urls(response@),
        issues matches Ok(listing) ==> listing.well_formed(),
{
    let anchors = query(response, ISSUE_LINK_PATH)?;
    comic_issue_urls(&anchors)
}

/// The series of the publisher whose listing page is `response`, in the
/// order of the page, each with the first text node of its link as the name
/// and the site's origin followed by the link's target as the address.
///
/// The call fails with `DocumentStructureMissing` where a link has no target
/// or no text, and with `InternalExtractionError` where the structural path
/// is no selector.
pub fn parse_comic_urls(response: &str) -> (comics: Result<PublisherComics, ErrorKind>)
    ensures
        comics_view(comics) == page_series_list(response@),
        comics matches Ok(listing) ==> listing.well_formed(),
{
    let anchors = query(response, SERIES_LINK_PATH)?;
    publisher_comics(&anchors)
}

} // verus!
