//! The document query layer: which elements of a page stand at a structural
//! path, and what each of them holds.
//!
//! A page is parsed and queried by the `scraper` crate. What comes back is
//! handed on as plain values: for each element its text nodes and the value
//! of one attribute. Everything the extractors decide, they decide on those.

use crate::error::ErrorKind;
use vstd::prelude::*;
use vstd::string::*;

verus! {

/// The attribute that holds a link's target.
pub const LINK_ATTRIBUTE: &'static str = "href";

/// An element of a page, as far as the extractors read it.
#[derive(Debug, Clone, PartialEq, Eq)]
pub struct Element {
    /// The text nodes below the element, in the order of the document.
    pub texts: Vec<String>,
    /// The target of the element's link: the value of its link attribute, if
    /// it has one.
    pub link: Option<String>,
}

/// What an `Element` stands for in contracts.
pub struct ElementView {
    pub texts: Seq<Seq<char>>,
    pub link: Option<Seq<char>>,
}

impl ElementView {
    /// The element's text: its text nodes, one after another.
    pub open spec fn text(self) -> Seq<char> {
        self.texts.flatten()
    }

    /// The element's first text node.
    pub open spec fn first_text(self) -> Option<Seq<char>> {
        if self.texts.len() > 0 {
            Some(self.texts.first())
        } else {
            None
        }
    }

    /// The element's last text node.
    pub open spec fn last_text(self) -> Option<Seq<char>> {
        if self.texts.len() > 0 {
            Some(self.texts.last())
        } else {
            None
        }
    }
}

impl View for Element {
    type V = ElementView;

    open spec fn view(&self) -> ElementView {
        ElementView { texts: self.texts.deep_view(), link: self.link.deep_view() }
    }
}

impl DeepView for Element {
    type V = ElementView;

    open spec fn deep_view(&self) -> ElementView {
        self@
    }
}

impl Element {
    /// The element's text: its text nodes, one after another.
    pub fn text(&self) -> (text: String)
        ensures
            text@ == self@.text(),
    {
        let mut text = String::new();
        let mut i: usize = 0;
        while i < self.texts.len()
            invariant
                i <= self.texts.len(),
                text@ == self@.texts.take(i as int).flatten(),
            decreases self.texts.len() - i,
        {
            proof {
                let done = self@.texts.take(i as int);
                done.lemma_flatten_push(self@.texts[i as int]);
                assert(self@.texts.take(i + 1) == done.push(self@.texts[i as int]));
            }
            text.append(self.texts[i].as_str());
            i += 1;
        }
        assert(self@.texts.take(self.texts.len() as int) == self@.texts);
        text
    }

    /// The element's first text node.
    pub fn first_text(&self) -> (node: Option<String>)
        ensures
            node.deep_view() == self@.first_text(),
    {
        if self.texts.len() > 0 {
            Some(self.texts[0].clone())
        } else {
            None
        }
    }

    /// The element's last text node.
    pub fn last_text(&self) -> (node: Option<String>)
        ensures
            node.deep_view() == self@.last_text(),
    {
        if self.texts.len() > 0 {
            Some(self.texts[self.texts.len() - 1].clone())
        } else {
            None
        }
    }
}

/// `scraper`'s report of a selector that does not parse. Nothing is read
/// from it.
#[verifier::external_type_specification]
#[verifier::external_body]
pub struct ExSelectorErrorKind(scraper::error::SelectorErrorKind);

/// Whether `scraper` takes `path` for a selector: whether `Selector::parse`
/// accepts it.
pub uninterp spec fn selector_parses(path: Seq<char>) -> bool;

/// The elements that `scraper` finds at the selector `path` in the page
/// `html`, in the order in which `Html::select` hands them out, each with its
/// text nodes and the value of its attribute `attribute`.
pub uninterp spec fn selected(
    html: Seq<char>,
    path: Seq<char>,
    attribute: Seq<char>,
) -> Seq<ElementView>;

/// Parses `html` with `scraper::Html::parse_document` and `path` with
/// `scraper::Selector::parse`, and walks `Html::select`.
///
/// The contract claims that the call fails exactly where the selector does
/// not parse, and that on success the elements are those that `selected`
/// names: for each element that `select` yields, in its order, the text nodes
/// that `ElementRef::text` yields and the attribute that `Element::attr`
/// finds. Neither is proved.
#[verifier::external_body]
fn select_elements(
    html: &str,
    path: &str,
    attribute: &str,
) -> (found: Result<Vec<Element>, scraper::error::SelectorErrorKind>)
    ensures
        found is Ok <==> selector_parses(path@),
        found matches Ok(elements) ==> elements.deep_view() == selected(
            html@,
            path@,
            attribute@,
        ),
{
    let selector = scraper::Selector::parse(path)?;
    let document = scraper::Html::parse_document(html);
    Ok(
        document.select(&selector).map(
            |e|
                Element {
                    texts: e.text().map(|node| node.to_owned()).collect(),
                    link: e.value().attr(attribute).map(|value| value.to_owned()),
                },
        ).collect(),
    )
}

/// What a query for `path` in the page `html` gives: the elements found, or
/// the failure of a path that is no selector.
pub open spec fn query_result(
    html: Seq<char>,
    path: Seq<char>,
) -> Result<Seq<ElementView>, ErrorKind> {
    if selector_parses(path) {
        Ok(selected(html, path, LINK_ATTRIBUTE@))
    } else {
        Err(ErrorKind::InternalExtractionError)
    }
}

/// The elements of the page `html` that stand at the structural path `path`,
/// each with its text nodes and its link target.
///
/// A path that matches nothing gives an empty list. A path that is no
/// selector is a fault of the caller's definitions, and is reported as one.
pub fn query(html: &str, path: &str) -> (found: Result<Vec<Element>, ErrorKind>)
    ensures
        (match found {
            Ok(elements) => query_result(html@, path@) == Ok::<Seq<ElementView>, ErrorKind>(
                elements.deep_view(),
            ),
            Err(kind) => query_result(html@, path@) == Err::<Seq<ElementView>, ErrorKind>(kind),
        }),
{
    match select_elements(html, path, LINK_ATTRIBUTE) {
        Ok(elements) => Ok(elements),
        Err(_) => Err(ErrorKind::InternalExtractionError),
    }
}

} // verus!
