//! Extraction of comic records from the pages of a comic-review site.
//!
//! The library reads three kinds of page: the page of an issue, from which it
//! assembles the issue's metadata; the listing page of a publisher, which
//! gives the publisher's series; and the page of a series, which gives the
//! addresses of its issues. It fetches nothing: a page is handed to it as
//! text.

pub mod document;
pub mod error;
pub mod extract;
pub mod issue;
pub mod listing;
pub mod pattern;
pub mod registry;
pub mod request;
pub mod site;
pub mod text;

pub use error::ErrorKind;
pub use issue::{get_comic_issue_json_response, ComicInfo};
pub use listing::{parse_comic_issue_urls, parse_comic_urls, Comic, ComicIssues, PublisherComics};
pub use registry::PublisherRegistry;
pub use request::{ComicsRequestBody, RequestBody};
pub use site::CORE_URL;
