//! The fuzzy search helper: case-insensitive containment of a search term in
//! a person's name or display name.
//!
//! The raw term is matched literally: pattern-special characters a caller
//! supplies never act as wildcards, so the effective semantics of the match
//! expression handed to the storage engine is plain case-folded containment.

use vstd::prelude::*;
use crate::data::Person;

verus! {

/// Case folding, one character at a time: the ASCII uppercase letters map to
/// their lowercase counterparts, every other character stays itself.
pub open spec fn fold_char(c: char) -> char {
    if 65 <= c as u32 && c as u32 <= 90 {
        (((c as u32 + 32) as u8) as char)
    } else {
        c
    }
}

/// A string of text, case-folded character by character.
pub open spec fn folded(s: Seq<char>) -> Seq<char> {
    s.map_values(|c: char| fold_char(c))
}

/// `pat` occurs contiguously somewhere in `text`.
pub open spec fn contains_seq(text: Seq<char>, pat: Seq<char>) -> bool {
    exists|k: int|
        0 <= k <= text.len() - pat.len() && #[trigger] text.subrange(k, k + pat.len() as int)
            == pat
}

/// The search-term match: `term` occurs in `text`, case-insensitively and
/// literally.  An empty term matches every text.
pub open spec fn matches_term(text: Seq<char>, term: Seq<char>) -> bool {
    contains_seq(folded(text), folded(term))
}

/// A person matches a search term when the term occurs in the person's name
/// or in its display name; a person with no display name is matched on the
/// name alone.
pub open spec fn person_matches_spec(p: Person, term: Seq<char>) -> bool {
    matches_term(p.name@, term) || match p.display_name {
        Some(d) => matches_term(d@, term),
        None => false,
    }
}

/// Case-folds one character.
fn fold_char_exec(c: char) -> (r: char)
    ensures
        r == fold_char(c),
{
    let u = c as u32;
    if 65 <= u && u <= 90 {
        ((u + 32) as u8) as char
    } else {
        c
    }
}

/// Case-folds a string into its character sequence.
fn fold_str(s: &str) -> (r: Vec<char>)
    ensures
        r@ == folded(s@),
{
    let mut out: Vec<char> = Vec::new();
    for c in it: s.chars()
        invariant
            it.seq() == s@,
            out@.len() == it.index(),
            forall|j: int| 0 <= j < out@.len() ==> out@[j] == fold_char(s@[j]),
    {
        out.push(fold_char_exec(c));
    }
    assert(out@ =~= folded(s@));
    out
}

/// Whether `pat` stands at position `k` of `text`.
fn occurs_at(text: &Vec<char>, pat: &Vec<char>, k: usize) -> (r: bool)
    requires
        k + pat@.len() <= text@.len(),
    ensures
        r == (text@.subrange(k as int, k as int + pat@.len() as int) == pat@),
{
    let n: usize = text.len();
    let mut j: usize = 0;
    while j < pat.len()
        invariant
            j <= pat@.len(),
            k + pat@.len() <= text@.len(),
            n == text@.len(),
            forall|m: int| 0 <= m < j ==> text@[k + m] == pat@[m],
        decreases pat@.len() - j,
    {
        if text[k + j] != pat[j] {
            assert(text@.subrange(k as int, k as int + pat@.len() as int)[j as int] == text@[k
                + j]);
            return false;
        }
        j += 1;
    }
    assert(text@.subrange(k as int, k as int + pat@.len() as int) =~= pat@);
    true
}

/// Whether `pat` occurs contiguously anywhere in `text`.
fn contains_folded(text: &Vec<char>, pat: &Vec<char>) -> (r: bool)
    ensures
        r == contains_seq(text@, pat@),
{
    if pat.len() > text.len() {
        return false;
    }
    if pat.len() == 0 {
        assert(text@.subrange(0, 0 + pat@.len() as int) =~= pat@);
        return true;
    }
    let bound: usize = text.len() - pat.len();
    let mut k: usize = 0;
    while k <= bound
        invariant
            1 <= pat@.len() <= text@.len(),
            text@.len() <= usize::MAX,
            bound == text@.len() - pat@.len(),
            k <= bound + 1,
            forall|k2: int|
                0 <= k2 < k ==> #[trigger] text@.subrange(k2, k2 + pat@.len() as int) != pat@,
        decreases bound + 1 - k,
    {
        if occurs_at(text, pat, k) {
            assert(text@.subrange(k as int, k as int + pat@.len() as int) == pat@);
            return true;
        }
        k += 1;
    }
    false
}

/// The match the predicate composer applies for a search term: `term` occurs
/// in `text`, case-insensitively, wildcard characters taken literally.
pub fn matches_fuzzy(text: &str, term: &str) -> (r: bool)
    ensures
        r == matches_term(text@, term@),
{
    let t = fold_str(text);
    let p = fold_str(term);
    contains_folded(&t, &p)
}

/// Whether a person's name or display name contains the search term.
pub fn person_matches(p: &Person, term: &str) -> (r: bool)
    ensures
        r == person_matches_spec(*p, term@),
{
    if matches_fuzzy(p.name.as_str(), term) {
        return true;
    }
    match &p.display_name {
        Some(d) => matches_fuzzy(d.as_str(), term),
        None => false,
    }
}

} // verus!
