//! The sort translator: collapses the platform-wide sort directive into one
//! of the six sort keys meaningful for a person listing.

use vstd::prelude::*;

verus! {

/// The platform-wide sort directive, shared by every entity's listings.  Most
/// of its variants have no person-specific meaning and collapse to the
/// comment-score fallback.
#[derive(Clone, Copy, PartialEq, Eq, Structural, Debug)]
pub enum SortType {
    Active,
    Hot,
    New,
    Old,
    TopDay,
    TopWeek,
    TopMonth,
    TopYear,
    TopAll,
    MostComments,
    NewComments,
    TopHour,
    TopSixHour,
    TopTwelveHour,
    TopThreeMonths,
    TopSixMonths,
    TopNineMonths,
    Controversial,
    Scaled,
}

/// The person sort types.  Converted automatically from `SortType`.
#[derive(Clone, Copy, PartialEq, Eq, Structural, Debug)]
pub enum PersonSortType {
    New,
    Old,
    MostComments,
    CommentScore,
    PostScore,
    PostCount,
}

/// The translation table: a deliberate many-to-one collapse with
/// `CommentScore` as the universal fallback, so an unrecognized directive
/// never fails.
pub open spec fn person_sort_of(sort: SortType) -> PersonSortType {
    match sort {
        SortType::Active | SortType::Hot | SortType::Controversial => PersonSortType::CommentScore,
        SortType::New | SortType::NewComments => PersonSortType::New,
        SortType::MostComments => PersonSortType::MostComments,
        SortType::Old => PersonSortType::Old,
        _ => PersonSortType::CommentScore,
    }
}

/// Maps a generic sort directive to a person sort key; total, so the listing
/// never fails on an unknown directive.
pub fn post_to_person_sort_type(sort: SortType) -> (r: PersonSortType)
    ensures
        r == person_sort_of(sort),
        !(sort is Active || sort is Hot || sort is Controversial || sort is New
            || sort is NewComments || sort is MostComments || sort is Old)
            ==> r == PersonSortType::CommentScore,
{
    match sort {
        SortType::Active | SortType::Hot | SortType::Controversial => PersonSortType::CommentScore,
        SortType::New | SortType::NewComments => PersonSortType::New,
        SortType::MostComments => PersonSortType::MostComments,
        SortType::Old => PersonSortType::Old,
        _ => PersonSortType::CommentScore,
    }
}

} // verus!
