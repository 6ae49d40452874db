//! Ordering of person listings: the order each person sort key induces, and a
//! sort that realizes it.

use vstd::prelude::*;
use vstd::multiset::Multiset;
use crate::data::PersonView;
use crate::sort_key::PersonSortType;

verus! {

/// "`a` may stand before `b`" under a sort key.  `New` is newest first and
/// `Old` oldest first on the creation timestamp; every counter key is highest
/// first.
pub open spec fn key_leq(key: PersonSortType, a: PersonView, b: PersonView) -> bool {
    match key {
        PersonSortType::New => b.person.published <= a.person.published,
        PersonSortType::Old => a.person.published <= b.person.published,
        PersonSortType::MostComments => b.counts.comment_count <= a.counts.comment_count,
        PersonSortType::CommentScore => b.counts.comment_score <= a.counts.comment_score,
        PersonSortType::PostScore => b.counts.post_score <= a.counts.post_score,
        PersonSortType::PostCount => b.counts.post_count <= a.counts.post_count,
    }
}

/// A listing is sorted under a key when every pair of rows stands in order.
pub open spec fn sorted_by_key(s: Seq<PersonView>, key: PersonSortType) -> bool {
    forall|i: int, j: int| 0 <= i < j < s.len() ==> #[trigger] key_leq(key, s[i], s[j])
}

/// Compares two rows under a sort key.
fn key_le(key: PersonSortType, a: &PersonView, b: &PersonView) -> (r: bool)
    ensures
        r == key_leq(key, *a, *b),
{
    match key {
        PersonSortType::New => b.person.published <= a.person.published,
        PersonSortType::Old => a.person.published <= b.person.published,
        PersonSortType::MostComments => b.counts.comment_count <= a.counts.comment_count,
        PersonSortType::CommentScore => b.counts.comment_score <= a.counts.comment_score,
        PersonSortType::PostScore => b.counts.post_score <= a.counts.post_score,
        PersonSortType::PostCount => b.counts.post_count <= a.counts.post_count,
    }
}

/// Sorts a listing under a sort key by insertion, keeping exactly the given
/// rows: the result is a reordering of the input, fully ordered by the key.
#[verifier::loop_isolation(false)]
pub fn sort_views(rows: Vec<PersonView>, key: PersonSortType) -> (r: Vec<PersonView>)
    ensures
        r@.to_multiset() == rows@.to_multiset(),
        sorted_by_key(r@, key),
{
    broadcast use vstd::seq_lib::group_to_multiset_ensures;
    broadcast use vstd::multiset::group_multiset_axioms;

    let mut src = rows;
    let mut out: Vec<PersonView> = Vec::new();
    while src.len() != 0
        invariant
            out@.to_multiset().add(src@.to_multiset()) =~= rows@.to_multiset(),
            sorted_by_key(out@, key),
        decreases src@.len(),
    {
        let ghost src0 = src@;
        let x = src.pop().unwrap();
        proof {
            assert(src0[src0.len() - 1] == x);
            assert(src0.contains(x));
            assert(src@ =~= src0.remove(src0.len() - 1));
            assert(src0.remove(src0.len() - 1).to_multiset() =~= src0.to_multiset().remove(x));
            assert(src0.to_multiset().count(x) > 0);
            assert(src0.to_multiset() =~= src@.to_multiset().insert(x));
        }
        let mut j: usize = 0;
        while j < out.len() && key_le(key, &out[j], &x)
            invariant
                j <= out@.len(),
                forall|m: int| 0 <= m < j ==> #[trigger] key_leq(key, out@[m], x),
                sorted_by_key(out@, key),
            decreases out@.len() - j,
        {
            j += 1;
        }
        let ghost out0 = out@;
        proof {
            if j < out0.len() {
                assert(!key_leq(key, out0[j as int], x));
                assert(key_leq(key, x, out0[j as int]));
            }
        }
        out.insert(j, x);
        proof {
            let out1 = out@;
            assert(out1 =~= out0.insert(j as int, x));
            assert(out1.remove(j as int) =~= out0);
            assert(out1[j as int] == x);
            assert(out1.contains(x));
            assert(out1.remove(j as int).to_multiset() =~= out1.to_multiset().remove(x));
            assert(out1.to_multiset().count(x) > 0);
            assert(out1.to_multiset() =~= out0.to_multiset().insert(x));
            assert forall|i1: int, i2: int| 0 <= i1 < i2 < out1.len() implies #[trigger] key_leq(
                key,
                out1[i1],
                out1[i2],
            ) by {
                if i2 < j {
                    assert(key_leq(key, out0[i1], out0[i2]));
                } else if i1 > j {
                    assert(key_leq(key, out0[i1 - 1], out0[i2 - 1]));
                } else if i1 == j {
                    assert(key_leq(key, x, out0[j as int]));
                    assert(j < i2 ==> key_leq(key, out0[j as int], out0[i2 - 1]));
                } else if i2 == j {
                    assert(key_leq(key, out0[i1], x));
                } else {
                    // i1 < j < i2
                    assert(key_leq(key, out0[i1], x));
                    assert(key_leq(key, x, out0[j as int]));
                    assert(j <= i2 - 1 ==> key_leq(key, out0[j as int], out0[i2 - 1]));
                }
            }
            assert(out1.to_multiset().add(src@.to_multiset()) =~= rows@.to_multiset());
        }
    }
    assert(src@.to_multiset() =~= Multiset::<PersonView>::empty());
    assert(out@.to_multiset() =~= rows@.to_multiset());
    out
}

} // verus!
