//! Which discovered indexers a run syncs: those whose name contains one of
//! the requested terms, compared without regard to case.
use vstd::prelude::*;

use crate::text::{chars_of, contains, find_in};

verus! {

/// What `str::to_lowercase` gives for the text.
pub uninterp spec fn lower_of(s: Seq<char>) -> Seq<char>;

/// Relies on `str::to_lowercase`: the result depends on the characters alone.
#[verifier::external_body]
fn lowercase(s: &str) -> (r: String)
    ensures
        r@ == lower_of(s@),
{
    s.to_lowercase()
}

/// Whether an indexer whose lowered name is `name` is synced under the
/// lowered terms: every indexer where there are no terms, else one whose
/// name contains one of them.
pub open spec fn is_selected(name: Seq<char>, terms: Seq<Seq<char>>) -> bool {
    terms.len() == 0 || exists|i: int| 0 <= i < terms.len() && contains(name, #[trigger] terms[i])
}

/// The terms, lowered.
pub open spec fn lowered(terms: Seq<String>) -> Seq<Seq<char>> {
    terms.map_values(|t: String| lower_of(t@))
}

/// Whether an indexer of the lowered name is synced under the lowered terms.
pub fn matches_lowered(name: &str, terms: &Vec<String>) -> (r: bool)
    ensures
        r == is_selected(name@, terms@.map_values(|t: String| t@)),
{
    let ghost views = terms@.map_values(|t: String| t@);
    if terms.len() == 0 {
        return true;
    }
    let hay = chars_of(name);
    let mut i: usize = 0;
    while i < terms.len()
        invariant
            i <= terms.len(),
            views == terms@.map_values(|t: String| t@),
            hay@ == name@,
            forall|j: int| 0 <= j < i ==> !contains(name@, #[trigger] views[j]),
        decreases terms.len() - i,
    {
        let needle = chars_of(terms[i].as_str());
        if find_in(&hay, &needle) {
            assert(contains(name@, views[i as int]));
            return true;
        }
        i += 1;
    }
    false
}

/// The terms, each lowered.
pub fn lower_terms(terms: &Vec<String>) -> (r: Vec<String>)
    ensures
        r@.map_values(|t: String| t@) == lowered(terms@),
{
    let mut r: Vec<String> = Vec::new();
    let mut i: usize = 0;
    while i < terms.len()
        invariant
            i <= terms.len(),
            r@.len() == i,
            forall|j: int| 0 <= j < i ==> (#[trigger] r@[j])@ == lower_of(terms@[j]@),
        decreases terms.len() - i,
    {
        r.push(lowercase(terms[i].as_str()));
        i += 1;
    }
    assert(r@.map_values(|t: String| t@) =~= lowered(terms@));
    r
}

/// Whether an indexer of this name is synced under the terms, both lowered
/// by `str::to_lowercase`.
pub fn is_synced(name: &str, terms: &Vec<String>) -> (r: bool)
    ensures
        r == is_selected(lower_of(name@), lowered(terms@)),
{
    let name = lowercase(name);
    let terms = lower_terms(terms);
    matches_lowered(name.as_str(), &terms)
}

} // verus!
