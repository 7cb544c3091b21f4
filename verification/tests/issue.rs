use comic_roundup::document::Element;
use comic_roundup::issue::{assemble_issue, listed_names, read_issue_page, IssuePage};
use comic_roundup::{get_comic_issue_json_response, ComicInfo};

fn text(content: &str) -> Option<String> {
    Some(content.to_string())
}

fn list(items: &[&str]) -> Option<Vec<String>> {
    Some(items.iter().map(|item| item.to_string()).collect())
}

fn plain(texts: &[&str]) -> Element {
    Element { texts: texts.iter().map(|part| part.to_string()).collect(), link: None }
}

fn empty_info() -> ComicInfo {
    ComicInfo {
        id: None,
        name: None,
        writers: None,
        artists: None,
        publisher: None,
        release_date: None,
        cover_price: None,
        critic_review_count: None,
        user_review_count: None,
        critic_review_score: None,
        user_review_score: None,
    }
}

fn issue_fixture(info: &str, tabs: &str, scores: &str) -> String {
    format!(
        "<html><body>\
         <div class=\"issue\"><div class=\"container\"><div class=\"right\">\
         <h1><span>Saga #1</span></h1>\
         <div class=\"left\">{}</div>\
         <div class=\"right\">{}</div>\
         </div></div></div>\
         <div class=\"divider\"><div class=\"container\"><ul class=\"tabs\">{}</ul></div></div>\
         <div class=\"series-buttons\"><a class=\"series\" href=\"/comic-books/reviews/image-comics/saga\">Series</a></div>\
         </body></html>",
        info, scores, tabs
    )
}

#[test]
fn a_full_page_gives_every_field() {
    let page = issue_fixture(
        "<span><b>Writer: </b>Jane Doe, John Roe</span>\
         <span><b>Artist: </b>Ann Poe</span>\
         <span><b>Publisher: </b>Image Comics</span>\
         <span><b>Release Date: </b>March 14, 2012</span>\
         <span><b>Cover Price: </b>$2.99</span>",
        "<li>Critic Reviews (12)</li><li>User Reviews (340)</li>",
        "<div>Critic Rating 8.5</div><div>User Rating 9</div>",
    );
    assert_eq!(
        get_comic_issue_json_response(&page),
        Ok(ComicInfo {
            id: text("saga"),
            name: text("Saga #1"),
            writers: list(&["Jane Doe", "John Roe"]),
            artists: list(&["Ann Poe"]),
            publisher: text("Image Comics"),
            release_date: text("March 14, 2012"),
            cover_price: text("$2.99"),
            critic_review_count: text("12"),
            user_review_count: text("340"),
            critic_review_score: text("8.5"),
            user_review_score: text("9"),
        })
    );
}

#[test]
fn a_page_without_the_places_gives_an_empty_record() {
    assert_eq!(get_comic_issue_json_response("<html><body><p>x</p></body></html>"), Ok(empty_info()));
    assert_eq!(get_comic_issue_json_response(""), Ok(empty_info()));
}

#[test]
fn a_missing_field_leaves_the_others_in_place() {
    let page = issue_fixture(
        "<span><b>Publisher: </b>Image Comics</span>",
        "<li>User Reviews (3)</li>",
        "<div>Critic Rating 7.0</div>",
    );
    assert_eq!(
        get_comic_issue_json_response(&page),
        Ok(ComicInfo {
            id: text("saga"),
            name: text("Saga #1"),
            publisher: text("Image Comics"),
            user_review_count: text("3"),
            critic_review_score: text("7.0"),
            ..empty_info()
        })
    );
}

#[test]
fn writers_are_split_at_the_separator() {
    let page = issue_fixture("<span><b>Writer: </b>Jane Doe, John Roe</span>", "", "");
    let info = get_comic_issue_json_response(&page).unwrap();
    assert_eq!(info.writers, list(&["Jane Doe", "John Roe"]));
    assert_eq!(info.artists, None);
}

#[test]
fn a_single_writer_is_a_list_of_one() {
    let page = issue_fixture("<span><b>Writer: </b>Jane Doe</span>", "", "");
    let info = get_comic_issue_json_response(&page).unwrap();
    assert_eq!(info.writers, list(&["Jane Doe"]));
}

#[test]
fn a_field_is_the_last_text_node_alone() {
    let page = issue_fixture(
        "<span><b>Writer:</b> <a href=\"/w/1\">Jane Doe</a>, <a href=\"/w/2\">John Roe</a></span>\
         <span>Publisher: Image Comics</span>",
        "",
        "",
    );
    let info = get_comic_issue_json_response(&page).unwrap();
    assert_eq!(info.writers, list(&["John Roe"]));
    assert_eq!(info.publisher, text("Publisher: Image Comics"));
}

#[test]
fn the_first_element_with_the_label_counts() {
    let page = issue_fixture(
        "<span><b>Co-Writer: </b>Ann Poe</span><span><b>Writer: </b>Jane Doe</span>",
        "<li>All Critic Reviews: <i>7</i></li><li>Critic Reviews (12)</li>",
        "<div>No Critic Rating yet</div><div>Critic Rating 8.5</div>",
    );
    let info = get_comic_issue_json_response(&page).unwrap();
    assert_eq!(info.writers, list(&["Ann Poe"]));
    assert_eq!(info.critic_review_count, text("7"));
    assert_eq!(info.critic_review_score, text("0"));
}

#[test]
fn a_tab_with_digits_gives_the_count() {
    let page = issue_fixture("", "<li>Critic Reviews (12)</li>", "");
    let info = get_comic_issue_json_response(&page).unwrap();
    assert_eq!(info.critic_review_count, text("12"));
    assert_eq!(info.user_review_count, None);
}

#[test]
fn a_tab_without_digits_gives_no_count() {
    let page = issue_fixture("", "<li>Critic Reviews</li><li>User Reviews (none)</li>", "");
    let info = get_comic_issue_json_response(&page).unwrap();
    assert_eq!(info.critic_review_count, None);
    assert_eq!(info.user_review_count, None);
}

#[test]
fn a_block_with_a_number_gives_the_score() {
    let page = issue_fixture("", "", "<div>Critic Rating 8.5</div>");
    let info = get_comic_issue_json_response(&page).unwrap();
    assert_eq!(info.critic_review_score, text("8.5"));
    assert_eq!(info.user_review_score, None);
}

#[test]
fn a_block_without_a_number_gives_zero() {
    let page = issue_fixture("", "", "<div>Critic Rating</div><div>User Rating <i>n/a</i></div>");
    let info = get_comic_issue_json_response(&page).unwrap();
    assert_eq!(info.critic_review_score, text("0"));
    assert_eq!(info.user_review_score, text("0"));
}

#[test]
fn a_series_link_without_a_target_gives_no_identifier() {
    let page = "<div class=\"series-buttons\"><a class=\"series\">Series</a></div>";
    let info = get_comic_issue_json_response(page).unwrap();
    assert_eq!(info.id, None);
}

#[test]
fn read_issue_page_collects_the_five_places() {
    let page = issue_fixture(
        "<span><b>Writer: </b>Jane Doe</span>",
        "<li>Critic Reviews (12)</li>",
        "<div>Critic Rating 8.5</div>",
    );
    assert_eq!(
        read_issue_page(&page),
        Ok(IssuePage {
            buttons: vec![Element {
                texts: vec!["Series".to_string()],
                link: text("/comic-books/reviews/image-comics/saga"),
            }],
            headers: vec![plain(&["Saga #1"])],
            info: vec![plain(&["Writer: ", "Jane Doe"])],
            tabs: vec![plain(&["Critic Reviews (12)"])],
            scores: vec![plain(&["Critic Rating 8.5"])],
        })
    );
}

#[test]
fn assemble_issue_works_on_the_places_alone() {
    let page = IssuePage {
        buttons: vec![Element { texts: vec![], link: text("/series/saga") }],
        headers: vec![plain(&["Saga", " #1"])],
        info: vec![
            plain(&["Artist: ", "Ann Poe, Bob Coe, Cy Dow"]),
            plain(&["Cover Price: ", "$2.99"]),
        ],
        tabs: vec![plain(&["User Reviews", " (5)"])],
        scores: vec![plain(&["User Rating"])],
    };
    assert_eq!(
        assemble_issue(&page),
        Ok(ComicInfo {
            id: text("saga"),
            name: text("Saga #1"),
            artists: list(&["Ann Poe", "Bob Coe", "Cy Dow"]),
            cover_price: text("$2.99"),
            user_review_count: text("5"),
            user_review_score: text("0"),
            ..empty_info()
        })
    );
}

#[test]
fn assemble_issue_of_an_empty_page_is_empty() {
    let page = IssuePage {
        buttons: vec![],
        headers: vec![],
        info: vec![],
        tabs: vec![],
        scores: vec![],
    };
    assert_eq!(assemble_issue(&page), Ok(empty_info()));
}

#[test]
fn listed_names_follow_the_label() {
    let info = vec![plain(&["Writer: ", "Jane Doe, John Roe"]), plain(&["Artist: ", "Ann Poe"])];
    assert_eq!(listed_names(&info, "Writer"), list(&["Jane Doe", "John Roe"]));
    assert_eq!(listed_names(&info, "Artist"), list(&["Ann Poe"]));
    assert_eq!(listed_names(&info, "Colorist"), None);
}
