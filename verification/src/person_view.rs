//! The query facade and predicate composer: one shared join builder, three
//! list modes, and the five stable read operations.

use vstd::prelude::*;
use crate::data::{
    agg_for, is_admin_row, local_for, person_for, Database, LocalUser, Person, PersonAggregates,
    PersonId, PersonView, Timestamp,
};
use crate::errors::QueryError;
use crate::ordering::{sort_views, sorted_by_key};
use crate::pagination::{limit_and_offset, limit_and_offset_spec, apply_page, page_of};
use crate::search::{person_matches, person_matches_spec};
use crate::sort_key::{person_sort_of, post_to_person_sort_type, PersonSortType, SortType};

verus! {

/// The join every read path shares: each person passing the filter, inner
/// joined with its aggregate row (a person with none drops out) in table
/// order.  The local-account join is part of the filters instead: its flag is
/// never projected into the view.
pub open spec fn joined_rows(
    persons: Seq<Person>,
    aggs: Seq<PersonAggregates>,
    pred: spec_fn(Person) -> bool,
) -> Seq<PersonView>
    decreases persons.len(),
{
    if persons.len() == 0 {
        Seq::empty()
    } else {
        let rest = joined_rows(persons.drop_last(), aggs, pred);
        let p = persons.last();
        if pred(p) {
            match agg_for(aggs, p.id) {
                Some(a) => rest.push(PersonView { person: p, counts: a }),
                None => rest,
            }
        } else {
            rest
        }
    }
}

/// The administrators filter: the local account's admin flag is set and the
/// person is not soft-deleted.
pub open spec fn admins_pred(db: Database) -> spec_fn(Person) -> bool {
    |p: Person| is_admin_row(&db, p.id) && !p.deleted
}

/// The banned filter: banned, not soft-deleted, and the ban has no expiry or
/// one still in the future at call time.
pub open spec fn banned_pred(now: Timestamp) -> spec_fn(Person) -> bool {
    |p: Person|
        p.banned && !p.deleted && match p.ban_expires {
            Some(t) => t > now,
            None => true,
        }
}

/// The ad-hoc query filter: without a search term every person passes; with
/// one, those whose name or display name contains it case-insensitively.
pub open spec fn query_pred(term: Option<String>) -> spec_fn(Person) -> bool {
    |p: Person|
        match term {
            Some(t) => person_matches_spec(p, t@),
            None => true,
        }
}

/// The three list modes the predicate composer distinguishes.
enum ListMode {
    Admins,
    Banned,
    Query(PersonQuery),
}

/// The filter a list mode applies, with `now` the call-time clock reading the
/// banned mode compares ban expiries against.
spec fn mode_pred(db: Database, mode: ListMode, now: Timestamp) -> spec_fn(Person) -> bool {
    match mode {
        ListMode::Admins => admins_pred(db),
        ListMode::Banned => banned_pred(now),
        ListMode::Query(q) => query_pred(q.search_term),
    }
}

/// First local-account row for `id`, in table order.
#[verifier::loop_isolation(false)]
fn find_local(rows: &Vec<LocalUser>, id: PersonId) -> (r: Option<LocalUser>)
    ensures
        r == local_for(rows@, id),
{
    let n = rows.len();
    assert(rows@.subrange(0, n as int) =~= rows@);
    let mut i: usize = 0;
    while i < n
        invariant
            i <= n,
            local_for(rows@, id) == local_for(rows@.subrange(i as int, n as int), id),
        decreases n - i,
    {
        if rows[i].person_id == id {
            assert(rows@.subrange(i as int, n as int)[0] == rows@[i as int]);
            return Some(rows[i]);
        }
        assert(rows@.subrange(i as int, n as int).drop_first() =~= rows@.subrange(
            i as int + 1,
            n as int,
        ));
        i += 1;
    }
    assert(rows@.subrange(n as int, n as int).len() == 0);
    None
}

/// First aggregate row for `id`, in table order.
#[verifier::loop_isolation(false)]
fn find_agg(rows: &Vec<PersonAggregates>, id: PersonId) -> (r: Option<PersonAggregates>)
    ensures
        r == agg_for(rows@, id),
{
    let n = rows.len();
    assert(rows@.subrange(0, n as int) =~= rows@);
    let mut i: usize = 0;
    while i < n
        invariant
            i <= n,
            agg_for(rows@, id) == agg_for(rows@.subrange(i as int, n as int), id),
        decreases n - i,
    {
        if rows[i].person_id == id {
            assert(rows@.subrange(i as int, n as int)[0] == rows@[i as int]);
            return Some(rows[i]);
        }
        assert(rows@.subrange(i as int, n as int).drop_first() =~= rows@.subrange(
            i as int + 1,
            n as int,
        ));
        i += 1;
    }
    assert(rows@.subrange(n as int, n as int).len() == 0);
    None
}

/// Position of the first person row carrying `id`, in table order.
#[verifier::loop_isolation(false)]
fn find_person_idx(rows: &Vec<Person>, id: PersonId) -> (r: Option<usize>)
    ensures
        match r {
            Some(i) => i < rows@.len() && person_for(rows@, id) == Some(rows@[i as int]),
            None => person_for(rows@, id) is None,
        },
{
    let n = rows.len();
    assert(rows@.subrange(0, n as int) =~= rows@);
    let mut i: usize = 0;
    while i < n
        invariant
            i <= n,
            person_for(rows@, id) == person_for(rows@.subrange(i as int, n as int), id),
        decreases n - i,
    {
        if rows[i].id == id {
            assert(rows@.subrange(i as int, n as int)[0] == rows@[i as int]);
            return Some(i);
        }
        assert(rows@.subrange(i as int, n as int).drop_first() =~= rows@.subrange(
            i as int + 1,
            n as int,
        ));
        i += 1;
    }
    assert(rows@.subrange(n as int, n as int).len() == 0);
    None
}

/// Evaluates a list mode's filter on one person.
fn row_passes(db: &Database, mode: &ListMode, now: Timestamp, p: &Person) -> (r: bool)
    ensures
        r == mode_pred(*db, *mode, now)(*p),
{
    match mode {
        ListMode::Admins => {
            let admin = match find_local(&db.local_users, p.id) {
                Some(row) => row.admin,
                None => false,
            };
            admin && !p.deleted
        },
        ListMode::Banned => {
            let unexpired = match p.ban_expires {
                Some(t) => t > now,
                None => true,
            };
            p.banned && !p.deleted && unexpired
        },
        ListMode::Query(q) => {
            match &q.search_term {
                Some(t) => person_matches(p, t.as_str()),
                None => true,
            }
        },
    }
}

/// The shared materialization loop: filters the person table with the mode's
/// predicate and joins each survivor with its aggregate row.
#[verifier::loop_isolation(false)]
fn collect_mode_rows(db: &Database, mode: &ListMode, now: Timestamp) -> (r: Vec<PersonView>)
    ensures
        r@ == joined_rows(db.persons@, db.person_aggregates@, mode_pred(*db, *mode, now)),
{
    let ghost pred = mode_pred(*db, *mode, now);
    let mut out: Vec<PersonView> = Vec::new();
    let n = db.persons.len();
    let mut i: usize = 0;
    while i < n
        invariant
            i <= n,
            out@ == joined_rows(db.persons@.subrange(0, i as int), db.person_aggregates@, pred),
        decreases n - i,
    {
        let p = &db.persons[i];
        if row_passes(db, mode, now, p) {
            match find_agg(&db.person_aggregates, p.id) {
                Some(a) => out.push(PersonView { person: p.clone(), counts: a }),
                None => {},
            }
        }
        proof {
            let pre = db.persons@.subrange(0, i as int);
            let post = db.persons@.subrange(0, i as int + 1);
            assert(post.drop_last() =~= pre);
            assert(post.last() == db.persons@[i as int]);
        }
        i += 1;
    }
    assert(db.persons@.subrange(0, n as int) =~= db.persons@);
    out
}

impl PersonView {
    /// Fetches one person's aggregated profile: the person row carrying the
    /// identifier, inner joined with its aggregate row; `NotFound` when
    /// either is missing.
    pub fn read(db: &Database, person_id: PersonId) -> (r: Result<PersonView, QueryError>)
        ensures
            match r {
                Ok(v) => person_for(db.persons@, person_id) == Some(v.person) && agg_for(
                    db.person_aggregates@,
                    person_id,
                ) == Some(v.counts),
                Err(e) => e == QueryError::NotFound && (person_for(db.persons@, person_id) is None
                    || agg_for(db.person_aggregates@, person_id) is None),
            },
    {
        let i = match find_person_idx(&db.persons, person_id) {
            Some(i) => i,
            None => {
                return Err(QueryError::NotFound);
            },
        };
        match find_agg(&db.person_aggregates, person_id) {
            Some(a) => Ok(PersonView { person: db.persons[i].clone(), counts: a }),
            None => Err(QueryError::NotFound),
        }
    }

    /// Projects the admin flag of a person's local account: the person row
    /// inner joined with the local-account table only; `NotFound` when the
    /// person does not exist or has no local account.
    pub fn is_admin(db: &Database, person_id: PersonId) -> (r: Result<bool, QueryError>)
        ensures
            match r {
                Ok(b) => person_for(db.persons@, person_id) is Some && local_for(
                    db.local_users@,
                    person_id,
                ) is Some && b == is_admin_row(db, person_id),
                Err(e) => e == QueryError::NotFound && (person_for(db.persons@, person_id) is None
                    || local_for(db.local_users@, person_id) is None),
            },
    {
        if find_person_idx(&db.persons, person_id).is_none() {
            return Err(QueryError::NotFound);
        }
        match find_local(&db.local_users, person_id) {
            Some(row) => Ok(row.admin),
            None => Err(QueryError::NotFound),
        }
    }

    /// Lists every administrator: exactly the joined rows passing the
    /// administrators filter, ascending by creation time (oldest first), and
    /// never paginated.
    pub fn admins(db: &Database) -> (r: Vec<PersonView>)
        ensures
            r@.to_multiset() == joined_rows(
                db.persons@,
                db.person_aggregates@,
                admins_pred(*db),
            ).to_multiset(),
            sorted_by_key(r@, PersonSortType::Old),
    {
        let rows = collect_mode_rows(db, &ListMode::Admins, 0);
        sort_views(rows, PersonSortType::Old)
    }

    /// Lists every currently banned person, `now` being the call-time clock
    /// reading: exactly the joined rows passing the banned filter, never
    /// paginated, in no promised order.
    pub fn banned(db: &Database, now: Timestamp) -> (r: Vec<PersonView>)
        ensures
            r@.to_multiset() == joined_rows(
                db.persons@,
                db.person_aggregates@,
                banned_pred(now),
            ).to_multiset(),
    {
        collect_mode_rows(db, &ListMode::Banned, now)
    }
}

/// A caller-supplied request descriptor for the ad-hoc query mode.
pub struct PersonQuery {
    pub sort: Option<SortType>,
    pub search_term: Option<String>,
    pub page: Option<i64>,
    pub limit: Option<i64>,
}

impl Default for PersonQuery {
    /// The defaults: no search, comment-score ordering, first page of the
    /// default size.
    fn default() -> (r: Self)
        ensures
            r.sort is None,
            r.search_term is None,
            r.page is None,
            r.limit is None,
    {
        PersonQuery { sort: None, search_term: None, page: None, limit: None }
    }
}

/// The sort key an optional directive turns into: translated when present,
/// the comment-score fallback when absent.
pub open spec fn effective_sort(sort: Option<SortType>) -> PersonSortType {
    match sort {
        Some(s) => person_sort_of(s),
        None => PersonSortType::CommentScore,
    }
}

/// What a successful ad-hoc listing holds: some reordering `s` of the joined
/// rows passing the search filter, fully ordered by the effective sort key,
/// of which the output is exactly the requested page.
pub open spec fn list_output(
    db: Database,
    q: PersonQuery,
    limit: i64,
    offset: i64,
    out: Seq<PersonView>,
) -> bool {
    exists|s: Seq<PersonView>|
        #[trigger] sorted_by_key(s, effective_sort(q.sort)) && s.to_multiset() == joined_rows(
            db.persons@,
            db.person_aggregates@,
            query_pred(q.search_term),
        ).to_multiset() && out == page_of(s, limit, offset)
}

impl PersonQuery {
    /// Runs the ad-hoc query: search filter, translated sort order, then
    /// normalized pagination; rejected pagination is the one local failure.
    pub fn list(self, db: &Database) -> (r: Result<Vec<PersonView>, QueryError>)
        ensures
            limit_and_offset_spec(self.page, self.limit) is Err ==> r == Err::<
                Vec<PersonView>,
                QueryError,
            >(QueryError::InvalidPagination),
            limit_and_offset_spec(self.page, self.limit) matches Ok(lo) ==> (r matches Ok(rows)
                && list_output(*db, self, lo.0, lo.1, rows@)),
    {
        let ghost q0 = self;
        let (limit, offset) = match limit_and_offset(self.page, self.limit) {
            Ok(lo) => lo,
            Err(_) => {
                return Err(QueryError::InvalidPagination);
            },
        };
        let key = match self.sort {
            Some(s) => post_to_person_sort_type(s),
            None => PersonSortType::CommentScore,
        };
        assert(key == effective_sort(q0.sort));
        let mode = ListMode::Query(self);
        let rows = collect_mode_rows(db, &mode, 0);
        let sorted = sort_views(rows, key);
        let ghost s = sorted@;
        let page = apply_page(sorted, limit, offset);
        proof {
            assert(sorted_by_key(s, effective_sort(q0.sort)) && s.to_multiset() == joined_rows(
                db.persons@,
                db.person_aggregates@,
                query_pred(q0.search_term),
            ).to_multiset() && page@ == page_of(s, limit, offset));
        }
        Ok(page)
    }
}

} // verus!
