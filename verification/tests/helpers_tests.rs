//! Tests of the helper components: sort translation, pagination
//! normalization, and the case-insensitive search match.

use person_views::errors::QueryError;
use person_views::pagination::{limit_and_offset, FETCH_LIMIT_DEFAULT, FETCH_LIMIT_MAX};
use person_views::search::matches_fuzzy;
use person_views::sort_key::{post_to_person_sort_type, PersonSortType, SortType};

#[test]
fn sort_translation_table() {
    assert_eq!(post_to_person_sort_type(SortType::Active), PersonSortType::CommentScore);
    assert_eq!(post_to_person_sort_type(SortType::Hot), PersonSortType::CommentScore);
    assert_eq!(post_to_person_sort_type(SortType::Controversial), PersonSortType::CommentScore);
    assert_eq!(post_to_person_sort_type(SortType::New), PersonSortType::New);
    assert_eq!(post_to_person_sort_type(SortType::NewComments), PersonSortType::New);
    assert_eq!(post_to_person_sort_type(SortType::MostComments), PersonSortType::MostComments);
    assert_eq!(post_to_person_sort_type(SortType::Old), PersonSortType::Old);
}

#[test]
fn sort_translation_fallback() {
    let others = [
        SortType::TopDay,
        SortType::TopWeek,
        SortType::TopMonth,
        SortType::TopYear,
        SortType::TopAll,
        SortType::TopHour,
        SortType::TopSixHour,
        SortType::TopTwelveHour,
        SortType::TopThreeMonths,
        SortType::TopSixMonths,
        SortType::TopNineMonths,
        SortType::Scaled,
    ];
    for sort in others {
        assert_eq!(post_to_person_sort_type(sort), PersonSortType::CommentScore);
    }
}

#[test]
fn pagination_defaults() {
    assert_eq!(limit_and_offset(None, None), Ok((FETCH_LIMIT_DEFAULT, 0)));
    assert_eq!(limit_and_offset(Some(1), None), Ok((FETCH_LIMIT_DEFAULT, 0)));
    assert_eq!(limit_and_offset(None, Some(25)), Ok((25, 0)));
}

#[test]
fn pagination_page_two_limit_ten() {
    assert_eq!(limit_and_offset(Some(2), Some(10)), Ok((10, 10)));
    assert_eq!(limit_and_offset(Some(3), Some(50)), Ok((50, 100)));
}

#[test]
fn pagination_rejects_out_of_range() {
    assert_eq!(limit_and_offset(Some(0), Some(10)), Err(QueryError::InvalidPagination));
    assert_eq!(limit_and_offset(Some(-4), None), Err(QueryError::InvalidPagination));
    assert_eq!(limit_and_offset(Some(1), Some(0)), Err(QueryError::InvalidPagination));
    assert_eq!(limit_and_offset(Some(1), Some(-7)), Err(QueryError::InvalidPagination));
    assert_eq!(
        limit_and_offset(Some(1), Some(FETCH_LIMIT_MAX + 1)),
        Err(QueryError::InvalidPagination)
    );
}

#[test]
fn pagination_rejects_unrepresentable_offset() {
    assert_eq!(limit_and_offset(Some(i64::MAX), Some(50)), Err(QueryError::InvalidPagination));
}

#[test]
fn pagination_accepts_the_largest_representable_offset() {
    assert_eq!(limit_and_offset(Some(i64::MAX), Some(1)), Ok((1, i64::MAX - 1)));
}

#[test]
fn search_compares_characters_not_bytes() {
    assert!(matches_fuzzy("h\u{e9}llo", "\u{e9}ll"));
    assert!(!matches_fuzzy("h\u{e9}llo", "\u{c9}ll"));
}

#[test]
fn search_is_case_insensitive() {
    assert!(matches_fuzzy("Alice", "a"));
    assert!(matches_fuzzy("Alice", "LIC"));
    assert!(matches_fuzzy("alice", "ALICE"));
    assert!(!matches_fuzzy("Alice", "bob"));
}

#[test]
fn search_empty_term_matches_everything() {
    assert!(matches_fuzzy("Alice", ""));
    assert!(matches_fuzzy("", ""));
    assert!(!matches_fuzzy("", "a"));
}

#[test]
fn search_wildcards_match_only_literally() {
    // A percent sign in the term is not an any-sequence wildcard.
    assert!(!matches_fuzzy("Alice", "A%e"));
    assert!(matches_fuzzy("A%e", "A%e"));
    // An underscore in the term is not an any-character wildcard.
    assert!(!matches_fuzzy("Alice", "Alic_"));
    assert!(matches_fuzzy("Alic_", "alic_"));
}

#[test]
fn error_text() {
    assert_eq!(QueryError::NotFound.as_text(), "not found");
    assert_eq!(QueryError::InvalidPagination.as_text(), "invalid pagination");
    assert_eq!(QueryError::StorageError.as_text(), "storage error");
}
