//! Tests of the query facade: single-row reads, the administrative listings,
//! and the ad-hoc query with search, sort and pagination.

use person_views::data::{Database, LocalUser, Person, PersonAggregates, PersonId};
use person_views::errors::QueryError;
use person_views::person_view::PersonQuery;
use person_views::data::PersonView;
use person_views::sort_key::SortType;

const NOW: i64 = 1_700_000_000;
const DAY: i64 = 86_400;

fn person(id: i32, name: &str, published: i64) -> Person {
    Person {
        id: PersonId(id),
        name: name.to_string(),
        display_name: None,
        banned: false,
        published,
        ban_expires: None,
        deleted: false,
    }
}

fn counts(id: i32, comment_count: i64, comment_score: i64) -> PersonAggregates {
    PersonAggregates {
        person_id: PersonId(id),
        post_count: 0,
        post_score: 0,
        comment_count,
        comment_score,
    }
}

/// The scenario snapshot: Alice is an admin; Bob's ban lapsed yesterday;
/// Carol's ban has no expiry.
fn scenario() -> Database {
    let mut alice = person(1, "Alice", NOW - 3 * DAY);
    alice.display_name = Some("The Admin".to_string());
    let mut bob = person(2, "Bob", NOW - 2 * DAY);
    bob.banned = true;
    bob.ban_expires = Some(NOW - DAY);
    let mut carol = person(3, "Carol", NOW - DAY);
    carol.banned = true;
    Database {
        persons: vec![alice, bob, carol],
        person_aggregates: vec![counts(1, 10, 100), counts(2, 20, 50), counts(3, 5, 75)],
        local_users: vec![
            LocalUser { person_id: PersonId(1), admin: true },
            LocalUser { person_id: PersonId(2), admin: false },
        ],
    }
}

#[test]
fn read_joins_person_and_counts() {
    let db = scenario();
    let v = PersonView::read(&db, PersonId(1)).unwrap();
    assert_eq!(v.person.id, PersonId(1));
    assert_eq!(v.person.name, "Alice");
    assert_eq!(v.person.display_name.as_deref(), Some("The Admin"));
    assert_eq!(v.counts, counts(1, 10, 100));
}

#[test]
fn read_unknown_person_is_not_found() {
    let db = scenario();
    assert_eq!(PersonView::read(&db, PersonId(9)).unwrap_err(), QueryError::NotFound);
}

#[test]
fn read_without_aggregate_row_is_not_found() {
    let mut db = scenario();
    db.persons.push(person(4, "Dave", NOW));
    assert_eq!(PersonView::read(&db, PersonId(4)).unwrap_err(), QueryError::NotFound);
}

#[test]
fn is_admin_reads_the_local_account_flag() {
    let db = scenario();
    assert_eq!(PersonView::is_admin(&db, PersonId(1)), Ok(true));
    assert_eq!(PersonView::is_admin(&db, PersonId(2)), Ok(false));
}

#[test]
fn is_admin_without_local_account_is_not_found() {
    let db = scenario();
    assert_eq!(PersonView::is_admin(&db, PersonId(3)).unwrap_err(), QueryError::NotFound);
    assert_eq!(PersonView::is_admin(&db, PersonId(9)).unwrap_err(), QueryError::NotFound);
}

#[test]
fn admins_returns_only_alice() {
    let db = scenario();
    let r = PersonView::admins(&db);
    assert_eq!(r.len(), 1);
    assert_eq!(r[0].person.id, PersonId(1));
}

#[test]
fn admins_excludes_deleted_and_orders_oldest_first() {
    let mut db = scenario();
    db.persons.push(person(4, "Dana", NOW - 5 * DAY));
    db.person_aggregates.push(counts(4, 0, 0));
    db.local_users.push(LocalUser { person_id: PersonId(4), admin: true });
    let mut erin = person(5, "Erin", NOW - 4 * DAY);
    erin.deleted = true;
    db.persons.push(erin);
    db.person_aggregates.push(counts(5, 0, 0));
    db.local_users.push(LocalUser { person_id: PersonId(5), admin: true });
    let r = PersonView::admins(&db);
    let ids: Vec<PersonId> = r.iter().map(|v| v.person.id).collect();
    // Dana was created before Alice; the deleted Erin never appears.
    assert_eq!(ids, vec![PersonId(4), PersonId(1)]);
}

#[test]
fn banned_keeps_live_bans_only() {
    let db = scenario();
    let r = PersonView::banned(&db, NOW);
    // Bob's expiry is in the past; only Carol's unexpired ban counts.
    assert_eq!(r.len(), 1);
    assert_eq!(r[0].person.id, PersonId(3));
}

#[test]
fn banned_includes_future_expiry_and_excludes_deleted() {
    let mut db = scenario();
    let mut frank = person(6, "Frank", NOW);
    frank.banned = true;
    frank.ban_expires = Some(NOW + DAY);
    db.persons.push(frank);
    db.person_aggregates.push(counts(6, 0, 0));
    let mut grace = person(7, "Grace", NOW);
    grace.banned = true;
    grace.deleted = true;
    db.persons.push(grace);
    db.person_aggregates.push(counts(7, 0, 0));
    let mut ids: Vec<i32> = PersonView::banned(&db, NOW).iter().map(|v| v.person.id.0).collect();
    ids.sort();
    assert_eq!(ids, vec![3, 6]);
}

#[test]
fn scenario_query_search_sorted_new_first_page() {
    // Search "a" matches Alice and Carol by name; sorted newest first, the
    // single row of page 1 is Carol, whose creation time is later.
    let db = scenario();
    let q = PersonQuery {
        sort: Some(SortType::New),
        search_term: Some("a".to_string()),
        page: Some(1),
        limit: Some(1),
    };
    let r = q.list(&db).unwrap();
    assert_eq!(r.len(), 1);
    assert_eq!(r[0].person.id, PersonId(3));
}

#[test]
fn query_default_lists_everyone_by_comment_score() {
    let db = scenario();
    let r = PersonQuery::default().list(&db).unwrap();
    let ids: Vec<PersonId> = r.iter().map(|v| v.person.id).collect();
    // Comment scores: Alice 100, Carol 75, Bob 50 — highest first.
    assert_eq!(ids, vec![PersonId(1), PersonId(3), PersonId(2)]);
}

#[test]
fn query_search_matches_display_name() {
    let db = scenario();
    let q = PersonQuery { search_term: Some("admin".to_string()), ..PersonQuery::default() };
    let r = q.list(&db).unwrap();
    assert_eq!(r.len(), 1);
    assert_eq!(r[0].person.id, PersonId(1));
}

#[test]
fn query_sorts_by_each_key() {
    let db = scenario();
    let by = |sort: SortType| -> Vec<i32> {
        let q = PersonQuery { sort: Some(sort), ..PersonQuery::default() };
        q.list(&db).unwrap().iter().map(|v| v.person.id.0).collect()
    };
    assert_eq!(by(SortType::New), vec![3, 2, 1]);
    assert_eq!(by(SortType::Old), vec![1, 2, 3]);
    assert_eq!(by(SortType::MostComments), vec![2, 1, 3]);
    assert_eq!(by(SortType::Hot), vec![1, 3, 2]);
}

#[test]
fn query_pagination_returns_the_requested_window() {
    // 25 persons named p01 .. p25, oldest first; sorted Old, page 2 with
    // limit 10 is persons 11 .. 20.
    let mut db = Database { persons: vec![], person_aggregates: vec![], local_users: vec![] };
    for i in 1..=25 {
        db.persons.push(person(i, &format!("p{:02}", i), NOW + i as i64));
        db.person_aggregates.push(counts(i, 0, 0));
    }
    let q = PersonQuery {
        sort: Some(SortType::Old),
        search_term: None,
        page: Some(2),
        limit: Some(10),
    };
    let r = q.list(&db).unwrap();
    let ids: Vec<i32> = r.iter().map(|v| v.person.id.0).collect();
    assert_eq!(ids, (11..=20).collect::<Vec<i32>>());

    // The page past the data is empty, not an error.
    let q = PersonQuery {
        sort: Some(SortType::Old),
        search_term: None,
        page: Some(4),
        limit: Some(10),
    };
    assert_eq!(q.list(&db).unwrap().len(), 0);
    let q = PersonQuery {
        sort: Some(SortType::Old),
        search_term: None,
        page: Some(3),
        limit: Some(10),
    };
    let r = q.list(&db).unwrap();
    let ids: Vec<i32> = r.iter().map(|v| v.person.id.0).collect();
    assert_eq!(ids, (21..=25).collect::<Vec<i32>>());
}

#[test]
fn query_rejects_invalid_pagination() {
    let db = scenario();
    let q = PersonQuery { page: Some(0), ..PersonQuery::default() };
    assert_eq!(q.list(&db).unwrap_err(), QueryError::InvalidPagination);
    let q = PersonQuery { limit: Some(51), ..PersonQuery::default() };
    assert_eq!(q.list(&db).unwrap_err(), QueryError::InvalidPagination);
}

#[test]
fn query_search_term_with_wildcards_is_literal() {
    let mut db = scenario();
    let mut percy = person(8, "100%cool", NOW);
    percy.display_name = Some("under_score".to_string());
    db.persons.push(percy);
    db.person_aggregates.push(counts(8, 0, 0));

    let q = PersonQuery { search_term: Some("0%c".to_string()), ..PersonQuery::default() };
    let r = q.list(&db).unwrap();
    assert_eq!(r.len(), 1);
    assert_eq!(r[0].person.id, PersonId(8));

    // "A%e" would match "Alice" if the percent sign acted as a wildcard.
    let q = PersonQuery { search_term: Some("A%e".to_string()), ..PersonQuery::default() };
    assert_eq!(q.list(&db).unwrap().len(), 0);

    let q = PersonQuery { search_term: Some("R_SC".to_string()), ..PersonQuery::default() };
    let r = q.list(&db).unwrap();
    assert_eq!(r.len(), 1);
    assert_eq!(r[0].person.id, PersonId(8));
}
