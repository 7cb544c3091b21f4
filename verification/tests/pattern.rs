use comic_roundup::pattern::capture;
use comic_roundup::site::{COUNT_GROUP, COUNT_PATTERN, SCORE_GROUP, SCORE_PATTERN};
use comic_roundup::ErrorKind;

#[test]
fn capture_gives_the_first_run_of_digits() {
    assert_eq!(
        capture(COUNT_PATTERN, COUNT_GROUP, "Critic Reviews (12)"),
        Ok(Some("12".to_string()))
    );
    assert_eq!(capture(COUNT_PATTERN, COUNT_GROUP, "7 of 19"), Ok(Some("7".to_string())));
    assert_eq!(capture(COUNT_PATTERN, COUNT_GROUP, "008"), Ok(Some("008".to_string())));
}

#[test]
fn capture_finds_nothing_without_digits() {
    assert_eq!(capture(COUNT_PATTERN, COUNT_GROUP, "Critic Reviews"), Ok(None));
    assert_eq!(capture(COUNT_PATTERN, COUNT_GROUP, ""), Ok(None));
}

#[test]
fn capture_gives_a_number_with_one_decimal_place() {
    assert_eq!(
        capture(SCORE_PATTERN, SCORE_GROUP, "Critic Rating 8.5"),
        Ok(Some("8.5".to_string()))
    );
    assert_eq!(capture(SCORE_PATTERN, SCORE_GROUP, "rated 10"), Ok(Some("10".to_string())));
    assert_eq!(capture(SCORE_PATTERN, SCORE_GROUP, "7.25"), Ok(Some("7.2".to_string())));
    assert_eq!(capture(SCORE_PATTERN, SCORE_GROUP, "9. and 8.1"), Ok(Some("9".to_string())));
    assert_eq!(capture(SCORE_PATTERN, SCORE_GROUP, "User Rating"), Ok(None));
}

#[test]
fn capture_of_an_absent_group_is_nothing() {
    assert_eq!(capture(COUNT_PATTERN, "score", "12"), Ok(None));
}

#[test]
fn capture_reports_an_invalid_pattern() {
    assert_eq!(capture("(", "count", "12"), Err(ErrorKind::InternalExtractionError));
}
