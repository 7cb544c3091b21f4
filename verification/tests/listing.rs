use comic_roundup::document::Element;
use comic_roundup::listing::{absolute_url, comic_issue_urls, publisher_comics};
use comic_roundup::{
    parse_comic_issue_urls, parse_comic_urls, Comic, ComicIssues, ErrorKind, PublisherComics,
    PublisherRegistry,
};

fn anchor(texts: &[&str], target: Option<&str>) -> Element {
    Element {
        texts: texts.iter().map(|part| part.to_string()).collect(),
        link: target.map(|link| link.to_string()),
    }
}

fn comic(name: &str, url: &str) -> Comic {
    Comic { name: name.to_string(), url: url.to_string() }
}

fn series_page(rows: &str) -> String {
    format!(
        "<html><body><div class=\"section\"><table><tbody>{}</tbody></table></div></body></html>",
        rows
    )
}

#[test]
fn absolute_url_puts_the_origin_first() {
    assert_eq!(absolute_url("/x"), "https://comicbookroundup.com/x");
    assert_eq!(absolute_url(""), "https://comicbookroundup.com");
}

#[test]
fn three_anchors_give_three_comics_in_order() {
    let page = series_page(
        "<tr><td class=\"series\"><a href=\"/comic-books/reviews/vault-comics/barbaric\">Barbaric</a></td></tr>\
         <tr><td class=\"series\"><a href=\"/comic-books/reviews/vault-comics/the-plot\">The Plot</a></td></tr>\
         <tr><td class=\"series\"><a href=\"/comic-books/reviews/vault-comics/vagrant-queen\">Vagrant Queen</a></td></tr>",
    );
    assert_eq!(
        parse_comic_urls(&page),
        Ok(PublisherComics {
            comics: vec![
                comic(
                    "Barbaric",
                    "https://comicbookroundup.com/comic-books/reviews/vault-comics/barbaric"
                ),
                comic(
                    "The Plot",
                    "https://comicbookroundup.com/comic-books/reviews/vault-comics/the-plot"
                ),
                comic(
                    "Vagrant Queen",
                    "https://comicbookroundup.com/comic-books/reviews/vault-comics/vagrant-queen"
                ),
            ]
        })
    );
}

#[test]
fn a_listing_of_two_rows_for_vault() {
    let registry = PublisherRegistry::known();
    assert_eq!(
        registry.lookup("vault"),
        Ok("https://comicbookroundup.com/comic-books/reviews/vault-comics/all-series".to_string())
    );
    let fetched = series_page(
        "<tr><td class=\"series\"><a href=\"/x\">A</a></td></tr>\
         <tr><td class=\"series\"><a href=\"/y\">B</a></td></tr>",
    );
    assert_eq!(
        parse_comic_urls(&fetched),
        Ok(PublisherComics {
            comics: vec![
                comic("A", "https://comicbookroundup.com/x"),
                comic("B", "https://comicbookroundup.com/y"),
            ]
        })
    );
}

#[test]
fn a_page_without_rows_gives_an_empty_listing() {
    assert_eq!(parse_comic_urls(&series_page("")), Ok(PublisherComics { comics: vec![] }));
    assert_eq!(parse_comic_issue_urls("<p>x</p>"), Ok(ComicIssues { urls: vec![] }));
}

#[test]
fn only_anchors_of_the_series_column_count() {
    let page = series_page(
        "<tr><td class=\"series\"><a href=\"/x\">A</a></td><td class=\"issue\"><a href=\"/x/1\">1</a></td></tr>\
         <tr><td class=\"other\"><a href=\"/z\">Z</a></td></tr>",
    );
    assert_eq!(
        parse_comic_urls(&page),
        Ok(PublisherComics { comics: vec![comic("A", "https://comicbookroundup.com/x")] })
    );
    assert_eq!(
        parse_comic_issue_urls(&page),
        Ok(ComicIssues { urls: vec!["https://comicbookroundup.com/x/1".to_string()] })
    );
}

#[test]
fn a_series_name_is_the_first_text_node() {
    let page = series_page("<tr><td class=\"series\"><a href=\"/x\">Saga<i> (2012)</i></a></td></tr>");
    assert_eq!(
        parse_comic_urls(&page),
        Ok(PublisherComics { comics: vec![comic("Saga", "https://comicbookroundup.com/x")] })
    );
}

#[test]
fn a_series_anchor_without_a_target_fails_the_listing() {
    let page = series_page(
        "<tr><td class=\"series\"><a href=\"/x\">A</a></td></tr>\
         <tr><td class=\"series\"><a>B</a></td></tr>",
    );
    assert_eq!(parse_comic_urls(&page), Err(ErrorKind::DocumentStructureMissing));
}

#[test]
fn a_series_anchor_without_text_fails_the_listing() {
    let page = series_page("<tr><td class=\"series\"><a href=\"/x\"></a></td></tr>");
    assert_eq!(parse_comic_urls(&page), Err(ErrorKind::DocumentStructureMissing));
}

#[test]
fn issue_urls_come_in_the_order_of_the_page() {
    let page = series_page(
        "<tr><td class=\"issue\"><a href=\"/s/3\">3</a></td></tr>\
         <tr><td class=\"issue\"><a href=\"/s/1\">1</a></td></tr>\
         <tr><td class=\"issue\"><a href=\"/s/2\"></a></td></tr>",
    );
    assert_eq!(
        parse_comic_issue_urls(&page),
        Ok(ComicIssues {
            urls: vec![
                "https://comicbookroundup.com/s/3".to_string(),
                "https://comicbookroundup.com/s/1".to_string(),
                "https://comicbookroundup.com/s/2".to_string(),
            ]
        })
    );
}

#[test]
fn an_issue_anchor_without_a_target_fails_the_listing() {
    let page = series_page(
        "<tr><td class=\"issue\"><a href=\"/s/1\">1</a></td></tr>\
         <tr><td class=\"issue\"><a>2</a></td></tr>",
    );
    assert_eq!(parse_comic_issue_urls(&page), Err(ErrorKind::DocumentStructureMissing));
}

#[test]
fn comic_issue_urls_works_on_the_anchors_alone() {
    let anchors = vec![anchor(&["1"], Some("/s/1")), anchor(&[], Some("/s/2"))];
    assert_eq!(
        comic_issue_urls(&anchors),
        Ok(ComicIssues {
            urls: vec![
                "https://comicbookroundup.com/s/1".to_string(),
                "https://comicbookroundup.com/s/2".to_string(),
            ]
        })
    );
    assert_eq!(comic_issue_urls(&Vec::new()), Ok(ComicIssues { urls: vec![] }));
    assert_eq!(
        comic_issue_urls(&vec![anchor(&["1"], Some("/s/1")), anchor(&["2"], None)]),
        Err(ErrorKind::DocumentStructureMissing)
    );
}

#[test]
fn publisher_comics_works_on_the_anchors_alone() {
    let anchors = vec![anchor(&["A", "more"], Some("/x")), anchor(&["B"], Some("/y"))];
    assert_eq!(
        publisher_comics(&anchors),
        Ok(PublisherComics {
            comics: vec![
                comic("A", "https://comicbookroundup.com/x"),
                comic("B", "https://comicbookroundup.com/y"),
            ]
        })
    );
    assert_eq!(publisher_comics(&Vec::new()), Ok(PublisherComics { comics: vec![] }));
    assert_eq!(
        publisher_comics(&vec![anchor(&["A"], None)]),
        Err(ErrorKind::DocumentStructureMissing)
    );
    assert_eq!(
        publisher_comics(&vec![anchor(&[], Some("/x"))]),
        Err(ErrorKind::DocumentStructureMissing)
    );
}
