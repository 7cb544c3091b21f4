use comic_roundup::issue::split_names;
use comic_roundup::extract::last_segment;
use comic_roundup::text::{chain, chars_of, find_from, matches_at, split_on, text_contains};

fn strings(items: &[&str]) -> Vec<String> {
    items.iter().map(|item| item.to_string()).collect()
}

#[test]
fn chars_of_keeps_every_character() {
    assert_eq!(chars_of("a, é"), vec!['a', ',', ' ', 'é']);
    assert_eq!(chars_of(""), Vec::<char>::new());
}

#[test]
fn matches_at_compares_at_the_position() {
    let text = chars_of("Writer: Jane");
    assert!(matches_at(&text, &chars_of("Writer"), 0));
    assert!(matches_at(&text, &chars_of("Jane"), 8));
    assert!(!matches_at(&text, &chars_of("Jane"), 7));
    assert!(matches_at(&text, &chars_of(""), 12));
}

#[test]
fn matches_at_past_the_end_is_false() {
    let text = chars_of("Jane");
    assert!(!matches_at(&text, &chars_of("Jane"), 1));
    assert!(!matches_at(&text, &chars_of("e"), 4));
    assert!(!matches_at(&text, &chars_of(""), 5));
    assert!(!matches_at(&text, &chars_of("Jane Doe"), 0));
    assert!(!matches_at(&text, &chars_of("J"), usize::MAX));
}

#[test]
fn split_on_cuts_at_every_occurrence() {
    assert_eq!(split_on("a/b/c", "/"), strings(&["a", "b", "c"]));
    assert_eq!(split_on("/a//b/", "/"), strings(&["", "a", "", "b", ""]));
    assert_eq!(split_on("aaa", "aa"), strings(&["", "a"]));
    assert_eq!(split_on("abcabc", "abc"), strings(&["", "", ""]));
    assert_eq!(split_on("abc", "abcd"), strings(&["abc"]));
}

#[test]
fn split_on_an_empty_separator_cuts_nothing() {
    assert_eq!(split_on("abc", ""), strings(&["abc"]));
    assert_eq!(split_on("", ""), strings(&[""]));
}

#[test]
fn find_from_gives_the_first_position() {
    let text = chars_of("abcabc");
    assert_eq!(find_from(&text, &chars_of("bc"), 0), Some(1));
    assert_eq!(find_from(&text, &chars_of("bc"), 2), Some(4));
    assert_eq!(find_from(&text, &chars_of("bc"), 5), None);
    assert_eq!(find_from(&text, &chars_of("cb"), 0), None);
    assert_eq!(find_from(&text, &chars_of(""), 6), Some(6));
    assert_eq!(find_from(&text, &chars_of("abcabca"), 0), None);
    assert_eq!(find_from(&text, &chars_of("a"), 7), None);
}

#[test]
fn text_contains_finds_a_label_anywhere() {
    assert!(text_contains("Critic Reviews (12)", "Critic Reviews"));
    assert!(text_contains("All Critic Reviews", "Critic Reviews"));
    assert!(text_contains("anything", ""));
    assert!(text_contains("", ""));
    assert!(!text_contains("critic reviews", "Critic Reviews"));
    assert!(!text_contains("Critic", "Critic Reviews"));
    assert!(!text_contains("", "x"));
}

#[test]
fn split_names_cuts_at_comma_and_space() {
    assert_eq!(split_names("Jane Doe, John Roe"), strings(&["Jane Doe", "John Roe"]));
    assert_eq!(split_names("a, b, c"), strings(&["a", "b", "c"]));
}

#[test]
fn split_names_of_one_name_is_that_name() {
    assert_eq!(split_names("Jane Doe"), strings(&["Jane Doe"]));
    assert_eq!(split_names("Doe,Jane"), strings(&["Doe,Jane"]));
}

#[test]
fn split_names_keeps_empty_pieces() {
    assert_eq!(split_names(""), strings(&[""]));
    assert_eq!(split_names(", "), strings(&["", ""]));
    assert_eq!(split_names("a, "), strings(&["a", ""]));
    assert_eq!(split_names(", a"), strings(&["", "a"]));
    assert_eq!(split_names("a, , b"), strings(&["a", "", "b"]));
    assert_eq!(split_names("a,, b"), strings(&["a,", "b"]));
}

#[test]
fn split_names_agrees_with_the_standard_split() {
    for raw in ["", "x", "a, b", ", , ", "a,  b", "é, ü, ", "a ,b, c"] {
        let expected: Vec<String> = raw.split(", ").map(|piece| piece.to_string()).collect();
        assert_eq!(split_names(raw), expected);
        assert_eq!(split_names(raw).join(", "), raw);
    }
}

#[test]
fn last_segment_follows_the_last_slash() {
    assert_eq!(
        last_segment("/comic-books/reviews/marvel-comics/immortal-x-men-(2022)"),
        "immortal-x-men-(2022)"
    );
    assert_eq!(last_segment("no-slash"), "no-slash");
    assert_eq!(last_segment("/a/b/"), "");
    assert_eq!(last_segment(""), "");
    assert_eq!(last_segment("/"), "");
}

#[test]
fn chain_writes_one_after_the_other() {
    assert_eq!(chain("https://comicbookroundup.com", "/x"), "https://comicbookroundup.com/x");
    assert_eq!(chain("", ""), "");
}
