//! The row types of the person read model and the storage snapshot they live in.
//!
//! The storage engine itself is an external collaborator: a caller reads the
//! person, aggregate and local-account tables from it and hands them to this
//! library as plain values.  Every query operation here is a pure function of
//! that snapshot.

use vstd::prelude::*;

verus! {

/// Seconds since the epoch; the unit every timestamp column is modelled in.
pub type Timestamp = i64;

/// Identifier of a person row.
#[derive(Clone, Copy, PartialEq, Eq, Structural, Debug)]
pub struct PersonId(pub i32);

/// One row of the person table.  Identity data only; this library never
/// mutates it.
#[derive(Debug)]
pub struct Person {
    pub id: PersonId,
    pub name: String,
    pub display_name: Option<String>,
    pub banned: bool,
    pub published: Timestamp,
    pub ban_expires: Option<Timestamp>,
    pub deleted: bool,
}

impl Clone for Person {
    fn clone(&self) -> (r: Self)
        ensures
            r == *self,
    {
        Person {
            id: self.id,
            name: self.name.clone(),
            display_name: match &self.display_name {
                Some(s) => Some(s.clone()),
                None => None,
            },
            banned: self.banned,
            published: self.published,
            ban_expires: self.ban_expires,
            deleted: self.deleted,
        }
    }
}

/// One row of the person-aggregates table: derived counters maintained by an
/// external aggregation process, joined 1:1 onto a person.
#[derive(Clone, Copy, PartialEq, Eq, Structural, Debug)]
pub struct PersonAggregates {
    pub person_id: PersonId,
    pub post_count: i64,
    pub post_score: i64,
    pub comment_count: i64,
    pub comment_score: i64,
}

/// One row of the local-account table.  Only local (non-federated) persons
/// have one; it carries the account's privilege flag.
#[derive(Clone, Copy, PartialEq, Eq, Structural, Debug)]
pub struct LocalUser {
    pub person_id: PersonId,
    pub admin: bool,
}

/// The composite read-model row: a person together with its aggregate
/// counters.  Never persisted; built fresh per query.
#[derive(Debug)]
pub struct PersonView {
    pub person: Person,
    pub counts: PersonAggregates,
}

impl Clone for PersonView {
    fn clone(&self) -> (r: Self)
        ensures
            r == *self,
    {
        PersonView { person: self.person.clone(), counts: self.counts }
    }
}

/// A snapshot of the three tables the read model joins, as read from the
/// storage engine at call time.
pub struct Database {
    pub persons: Vec<Person>,
    pub person_aggregates: Vec<PersonAggregates>,
    pub local_users: Vec<LocalUser>,
}

impl Database {
    /// The storage engine's uniqueness constraints: primary key on the person
    /// table, and one aggregate row and at most one local account per person.
    pub open spec fn wf(&self) -> bool {
        &&& forall|i: int, j: int|
            0 <= i < j < self.persons@.len() ==> self.persons@[i].id != self.persons@[j].id
        &&& forall|i: int, j: int|
            0 <= i < j < self.person_aggregates@.len()
                ==> self.person_aggregates@[i].person_id != self.person_aggregates@[j].person_id
        &&& forall|i: int, j: int|
            0 <= i < j < self.local_users@.len()
                ==> self.local_users@[i].person_id != self.local_users@[j].person_id
    }
}

/// First person row carrying `id`, in table order.
pub open spec fn person_for(persons: Seq<Person>, id: PersonId) -> Option<Person>
    decreases persons.len(),
{
    if persons.len() == 0 {
        None
    } else if persons[0].id == id {
        Some(persons[0])
    } else {
        person_for(persons.drop_first(), id)
    }
}

/// First aggregate row for `id`, in table order.
pub open spec fn agg_for(aggs: Seq<PersonAggregates>, id: PersonId) -> Option<PersonAggregates>
    decreases aggs.len(),
{
    if aggs.len() == 0 {
        None
    } else if aggs[0].person_id == id {
        Some(aggs[0])
    } else {
        agg_for(aggs.drop_first(), id)
    }
}

/// First local-account row for `id`, in table order.
pub open spec fn local_for(rows: Seq<LocalUser>, id: PersonId) -> Option<LocalUser>
    decreases rows.len(),
{
    if rows.len() == 0 {
        None
    } else if rows[0].person_id == id {
        Some(rows[0])
    } else {
        local_for(rows.drop_first(), id)
    }
}

/// The privilege flag the optional local-account join yields: persons with no
/// local account are treated as non-admin.
pub open spec fn is_admin_row(db: &Database, id: PersonId) -> bool {
    match local_for(db.local_users@, id) {
        Some(row) => row.admin,
        None => false,
    }
}

} // verus!
