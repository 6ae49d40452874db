//! The laws of the read model: what the listings contain, stated over every
//! snapshot and proved from the contracts of the query facade.

use vstd::prelude::*;
use crate::data::{agg_for, is_admin_row, local_for, person_for, Database, LocalUser, Person,
    PersonAggregates, PersonId, PersonView, Timestamp};
use crate::pagination::page_of;
use crate::person_view::{admins_pred, banned_pred, joined_rows};

verus! {

/// Pagination selects a window: when the listing is long enough, the page
/// for (limit, offset) is exactly the rows at positions `offset` up to
/// `offset + limit`, so page `p` of size `l` holds rows `(p-1)*l` through
/// `p*l - 1` of the filtered, sorted set.
pub proof fn lemma_page_window(s: Seq<PersonView>, limit: i64, offset: i64)
    requires
        0 <= limit,
        0 <= offset,
        offset + limit <= s.len(),
    ensures
        page_of(s, limit, offset) == s.subrange(offset as int, offset + limit),
{
}

/// The aggregate lookup fails exactly on the identifiers with no aggregate
/// row: with the read operation's contract, a person without one is reported
/// `NotFound`.
pub proof fn lemma_agg_for_absent(aggs: Seq<PersonAggregates>, id: PersonId)
    ensures
        (agg_for(aggs, id) is None) <==> (forall|i: int|
            0 <= i < aggs.len() ==> aggs[i].person_id != id),
    decreases aggs.len(),
{
    if aggs.len() == 0 {
    } else if aggs[0].person_id == id {
    } else {
        let rest = aggs.drop_first();
        lemma_agg_for_absent(rest, id);
        assert(forall|i: int| 1 <= i < aggs.len() ==> aggs[i] == rest[i - 1]);
    }
}

/// Under the person table's primary key, looking a member row up by its
/// identifier finds exactly that row: a profile read returns the joined data
/// of the person asked for.
pub proof fn lemma_person_for_of_member(persons: Seq<Person>, p: Person)
    requires
        forall|i: int, j: int| 0 <= i < j < persons.len() ==> persons[i].id != persons[j].id,
        persons.contains(p),
    ensures
        person_for(persons, p.id) == Some(p),
    decreases persons.len(),
{
    let k = choose|k: int| 0 <= k < persons.len() && persons[k] == p;
    if persons[0].id == p.id {
        assert(persons[0] == p) by {
            if k != 0 {
                assert(persons[0].id != persons[k].id);
            }
        }
    } else {
        let rest = persons.drop_first();
        assert(rest[k - 1] == p);
        assert(rest.contains(p));
        lemma_person_for_of_member(rest, p);
    }
}

/// Under the aggregate table's one-row-per-person constraint, the aggregate
/// row joined onto a person is the member row carrying its identifier.
pub proof fn lemma_agg_for_of_member(aggs: Seq<PersonAggregates>, a: PersonAggregates)
    requires
        forall|i: int, j: int| 0 <= i < j < aggs.len() ==> aggs[i].person_id != aggs[j].person_id,
        aggs.contains(a),
    ensures
        agg_for(aggs, a.person_id) == Some(a),
    decreases aggs.len(),
{
    let k = choose|k: int| 0 <= k < aggs.len() && aggs[k] == a;
    if aggs[0].person_id == a.person_id {
        assert(aggs[0] == a) by {
            if k != 0 {
                assert(aggs[0].person_id != aggs[k].person_id);
            }
        }
    } else {
        let rest = aggs.drop_first();
        assert(rest[k - 1] == a);
        assert(rest.contains(a));
        lemma_agg_for_of_member(rest, a);
    }
}

/// Under the local-account table's one-row-per-person constraint, the
/// privilege flag the optional join yields for a member row is that row's.
pub proof fn lemma_local_for_of_member(rows: Seq<LocalUser>, lu: LocalUser)
    requires
        forall|i: int, j: int| 0 <= i < j < rows.len() ==> rows[i].person_id != rows[j].person_id,
        rows.contains(lu),
    ensures
        local_for(rows, lu.person_id) == Some(lu),
    decreases rows.len(),
{
    let k = choose|k: int| 0 <= k < rows.len() && rows[k] == lu;
    if rows[0].person_id == lu.person_id {
        assert(rows[0] == lu) by {
            if k != 0 {
                assert(rows[0].person_id != rows[k].person_id);
            }
        }
    } else {
        let rest = rows.drop_first();
        assert(rest[k - 1] == lu);
        assert(rest.contains(lu));
        lemma_local_for_of_member(rest, lu);
    }
}

/// Under the snapshot's key constraints, a profile read aimed at a member
/// person with an aggregate row finds exactly that person and that row: with
/// the read operation's own contract, `read(p.id)` returns the view joining
/// `p` and `a`, and a member person with no aggregate row is not found.
pub proof fn lemma_read_exact(db: Database, p: Person, a: PersonAggregates)
    requires
        db.wf(),
        db.persons@.contains(p),
        db.person_aggregates@.contains(a),
        a.person_id == p.id,
    ensures
        person_for(db.persons@, p.id) == Some(p),
        agg_for(db.person_aggregates@, p.id) == Some(a),
{
    lemma_person_for_of_member(db.persons@, p);
    lemma_agg_for_of_member(db.person_aggregates@, a);
}

/// Under the snapshot's key constraints, the admin flag the facade projects
/// for a person with a local account is that account's own flag.
pub proof fn lemma_is_admin_of_member(db: Database, lu: LocalUser)
    requires
        db.wf(),
        db.local_users@.contains(lu),
    ensures
        local_for(db.local_users@, lu.person_id) == Some(lu),
        is_admin_row(&db, lu.person_id) == lu.admin,
{
    lemma_local_for_of_member(db.local_users@, lu);
}

/// The join builder materializes exactly the right rows: a view stands among
/// the joined rows precisely when its person is a table row passing the
/// filter and its counters are the aggregate row joined onto that person.
pub proof fn lemma_joined_rows_membership(
    persons: Seq<Person>,
    aggs: Seq<PersonAggregates>,
    pred: spec_fn(Person) -> bool,
    v: PersonView,
)
    ensures
        joined_rows(persons, aggs, pred).contains(v) <==> (persons.contains(v.person) && pred(
            v.person,
        ) && agg_for(aggs, v.person.id) == Some(v.counts)),
    decreases persons.len(),
{
    if persons.len() == 0 {
    } else {
        let init = persons.drop_last();
        let p = persons.last();
        lemma_joined_rows_membership(init, aggs, pred, v);
        let rest = joined_rows(init, aggs, pred);
        let rows = joined_rows(persons, aggs, pred);
        assert(forall|k: int| 0 <= k < init.len() ==> init[k] == persons[k]);
        if persons.contains(v.person) && pred(v.person) && agg_for(aggs, v.person.id) == Some(
            v.counts,
        ) {
            let k = choose|k: int| 0 <= k < persons.len() && persons[k] == v.person;
            if k < persons.len() - 1 {
                assert(init[k] == v.person);
                assert(init.contains(v.person));
                assert(rest.contains(v));
                let m = choose|m: int| 0 <= m < rest.len() && rest[m] == v;
                assert(rows[m] == v);
                assert(rows.contains(v));
            } else {
                assert(p == v.person);
                assert(rows.last() == v);
                assert(rows.contains(v));
            }
        }
        if rows.contains(v) {
            let m = choose|m: int| 0 <= m < rows.len() && rows[m] == v;
            if pred(p) && agg_for(aggs, p.id) is Some {
                if m < rows.len() - 1 {
                    assert(rest[m] == v);
                    assert(rest.contains(v));
                    let k = choose|k: int| 0 <= k < init.len() && init[k] == v.person;
                    assert(persons[k] == v.person);
                    assert(persons.contains(v.person));
                } else {
                    assert(v == PersonView { person: p, counts: agg_for(aggs, p.id)->0 });
                    assert(persons.last() == v.person);
                    assert(persons.contains(v.person));
                }
            } else {
                assert(rest[m] == v);
                assert(rest.contains(v));
                let k = choose|k: int| 0 <= k < init.len() && init[k] == v.person;
                assert(persons[k] == v.person);
                assert(persons.contains(v.person));
            }
        }
    }
}

/// The administrators listing holds exactly the views of the non-deleted
/// persons whose local account has the admin flag set, joined with their
/// aggregate rows.  Its ascending order by creation time is part of the
/// listing's own contract.
pub proof fn lemma_admins_exact(db: Database, r: Seq<PersonView>, v: PersonView)
    requires
        r.to_multiset() == joined_rows(db.persons@, db.person_aggregates@, admins_pred(db))
            .to_multiset(),
    ensures
        r.contains(v) <==> (db.persons@.contains(v.person) && is_admin_row(&db, v.person.id)
            && !v.person.deleted && agg_for(db.person_aggregates@, v.person.id) == Some(v.counts)),
{
    broadcast use vstd::seq_lib::group_to_multiset_ensures;

    let rows = joined_rows(db.persons@, db.person_aggregates@, admins_pred(db));
    assert(r.contains(v) <==> rows.contains(v)) by {
        assert(r.contains(v) <==> r.to_multiset().count(v) > 0);
        assert(rows.contains(v) <==> rows.to_multiset().count(v) > 0);
    }
    lemma_joined_rows_membership(db.persons@, db.person_aggregates@, admins_pred(db), v);
}

/// The banned listing holds exactly the views of the non-deleted persons who
/// are banned with no expiry or an expiry still in the future at call time —
/// a past expiry excludes the person even while the ban flag stands.
pub proof fn lemma_banned_exact(db: Database, now: Timestamp, r: Seq<PersonView>, v: PersonView)
    requires
        r.to_multiset() == joined_rows(db.persons@, db.person_aggregates@, banned_pred(now))
            .to_multiset(),
    ensures
        r.contains(v) <==> (db.persons@.contains(v.person) && v.person.banned
            && !v.person.deleted && (match v.person.ban_expires {
            Some(t) => t > now,
            None => true,
        }) && agg_for(db.person_aggregates@, v.person.id) == Some(v.counts)),
{
    broadcast use vstd::seq_lib::group_to_multiset_ensures;

    let rows = joined_rows(db.persons@, db.person_aggregates@, banned_pred(now));
    assert(r.contains(v) <==> rows.contains(v)) by {
        assert(r.contains(v) <==> r.to_multiset().count(v) > 0);
        assert(rows.contains(v) <==> rows.to_multiset().count(v) > 0);
    }
    lemma_joined_rows_membership(db.persons@, db.person_aggregates@, banned_pred(now), v);
}

} // verus!
