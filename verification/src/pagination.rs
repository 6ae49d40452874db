//! The pagination helper: turns an optional (page, limit) pair into a
//! bounds-checked (limit, offset) pair, and slices a materialized listing.

use vstd::prelude::*;
use crate::data::PersonView;
use crate::errors::QueryError;

verus! {

/// Page size used when the caller supplies none.
pub const FETCH_LIMIT_DEFAULT: i64 = 10;

/// Largest page size a caller may request.
pub const FETCH_LIMIT_MAX: i64 = 50;

/// What pagination normalization yields: the page defaults to 1 and must be
/// at least 1; the limit defaults to `FETCH_LIMIT_DEFAULT` and must lie in
/// `1 ..= FETCH_LIMIT_MAX`; the offset is `limit * (page - 1)` and must fit
/// the offset's machine width.  Anything else is `InvalidPagination`.
pub open spec fn limit_and_offset_spec(page: Option<i64>, limit: Option<i64>) -> Result<
    (i64, i64),
    QueryError,
> {
    let p = match page {
        Some(p) => p,
        None => 1,
    };
    let l = match limit {
        Some(l) => l,
        None => FETCH_LIMIT_DEFAULT,
    };
    if p < 1 {
        Err(QueryError::InvalidPagination)
    } else if !(1 <= l <= FETCH_LIMIT_MAX) {
        Err(QueryError::InvalidPagination)
    } else if l * (p - 1) > i64::MAX {
        Err(QueryError::InvalidPagination)
    } else {
        Ok((l, (l * (p - 1)) as i64))
    }
}

/// Normalizes a caller-supplied (page, limit) pair into (limit, offset).
pub fn limit_and_offset(page: Option<i64>, limit: Option<i64>) -> (r: Result<
    (i64, i64),
    QueryError,
>)
    ensures
        r == limit_and_offset_spec(page, limit),
{
    let p: i64 = match page {
        Some(p) => p,
        None => 1,
    };
    let l: i64 = match limit {
        Some(l) => l,
        None => FETCH_LIMIT_DEFAULT,
    };
    if p < 1 {
        Err(QueryError::InvalidPagination)
    } else if !(1 <= l && l <= FETCH_LIMIT_MAX) {
        Err(QueryError::InvalidPagination)
    } else {
        match l.checked_mul(p - 1) {
            Some(offset) => Ok((l, offset)),
            None => Err(QueryError::InvalidPagination),
        }
    }
}

/// The page a normalized (limit, offset) pair selects from a fully sorted
/// listing: the rows at positions `offset ..` up to `limit` of them.
pub open spec fn page_of(s: Seq<PersonView>, limit: i64, offset: i64) -> Seq<PersonView>
    recommends
        limit >= 0,
        offset >= 0,
{
    let start = if offset <= s.len() {
        offset as int
    } else {
        s.len() as int
    };
    let end = if offset + limit <= s.len() {
        offset + limit
    } else {
        s.len() as int
    };
    s.subrange(start, end)
}

/// Applies a normalized (limit, offset) pair to a sorted listing, consuming
/// it and returning exactly the selected page.
pub fn apply_page(rows: Vec<PersonView>, limit: i64, offset: i64) -> (r: Vec<PersonView>)
    requires
        limit >= 0,
        offset >= 0,
    ensures
        r@ == page_of(rows@, limit, offset),
{
    let mut rows = rows;
    let ghost s = rows@;
    if (offset as u64) >= (rows.len() as u64) {
        let r: Vec<PersonView> = Vec::new();
        assert(r@ =~= page_of(s, limit, offset));
        return r;
    }
    let start: usize = offset as usize;
    let remaining: usize = rows.len() - start;
    let take: usize = if (limit as u64) <= (remaining as u64) {
        limit as usize
    } else {
        remaining
    };
    let mut out: Vec<PersonView> = Vec::new();
    let mut k: usize = 0;
    while k < take
        invariant
            k <= take,
            start + take <= s.len(),
            out@ =~= s.subrange(start as int, start + k),
            rows@ =~= s.subrange(0, start as int) + s.subrange(start + k, s.len() as int),
        decreases take - k,
    {
        assert(rows@[start as int] == s[start + k]);
        let v = rows.remove(start);
        out.push(v);
        k += 1;
        assert(out@ =~= s.subrange(start as int, start + k));
        assert(rows@ =~= s.subrange(0, start as int) + s.subrange(start + k, s.len() as int));
    }
    proof {
        if offset + limit <= s.len() {
            assert(take == limit);
        } else {
            assert(take == s.len() - start);
        }
    }
    assert(out@ =~= page_of(s, limit, offset));
    out
}

} // verus!
