//! Nearest-name selection over the species catalog, by string edit distance.

use vstd::prelude::*;

verus! {

/// The Damerau-Levenshtein edit distance between two strings, as the
/// `textdistance` crate computes it: a function of the two strings alone.
pub uninterp spec fn dl_distance(a: Seq<char>, b: Seq<char>) -> nat;

/// Relies on textdistance::str::damerau_levenshtein: the unrestricted
/// Damerau-Levenshtein edit distance, computed from the two strings alone.
#[verifier::external_body]
fn edit_distance(a: &str, b: &str) -> (r: usize)
    ensures
        r as nat == dl_distance(a@, b@),
{
    textdistance::str::damerau_levenshtein(a, b)
}

/// Index `i` names the catalog entry nearest to `q`: no entry is strictly
/// closer, and every earlier entry is strictly farther (first-occurrence
/// tie-break).
pub open spec fn is_nearest(q: Seq<char>, names: Seq<String>, i: int) -> bool {
    &&& 0 <= i < names.len()
    &&& forall|j: int|
        0 <= j < names.len() ==> dl_distance(q, names[i]@) <= #[trigger] dl_distance(q, names[j]@)
    &&& forall|j: int|
        0 <= j < i ==> #[trigger] dl_distance(q, names[j]@) > dl_distance(q, names[i]@)
}

/// The nearest entry is uniquely determined: two indices that both satisfy
/// `is_nearest` are equal.
pub proof fn lemma_nearest_unique(q: Seq<char>, names: Seq<String>, i1: int, i2: int)
    requires
        is_nearest(q, names, i1),
        is_nearest(q, names, i2),
    ensures
        i1 == i2,
{
    if i1 < i2 {
        assert(dl_distance(q, names[i1]@) > dl_distance(q, names[i2]@));
        assert(dl_distance(q, names[i2]@) >= dl_distance(q, names[i1]@));
    }
    if i2 < i1 {
        assert(dl_distance(q, names[i2]@) > dl_distance(q, names[i1]@));
        assert(dl_distance(q, names[i1]@) >= dl_distance(q, names[i2]@));
    }
}

/// Find the catalog entry with the smallest edit distance to `query`,
/// breaking ties in favour of the first occurrence. `None` exactly when the
/// catalog is empty.
pub fn nearest_entry(query: &str, names: &Vec<String>) -> (r: Option<usize>)
    ensures
        r is None <==> names@.len() == 0,
        r matches Some(i) ==> is_nearest(query@, names@, i as int),
{
    if names.len() == 0 {
        return None;
    }
    let mut best: usize = 0;
    let mut best_dist: usize = edit_distance(query, names[0].as_str());
    let mut k: usize = 1;
    while k < names.len()
        invariant
            names@.len() > 0,
            best < k <= names@.len(),
            best_dist as nat == dl_distance(query@, names@[best as int]@),
            forall|j: int|
                0 <= j < k ==> best_dist as nat <= #[trigger] dl_distance(query@, names@[j]@),
            forall|j: int|
                0 <= j < best ==> #[trigger] dl_distance(query@, names@[j]@) > best_dist as nat,
        decreases names@.len() - k,
    {
        let d = edit_distance(query, names[k].as_str());
        if d < best_dist {
            best = k;
            best_dist = d;
        }
        k = k + 1;
    }
    Some(best)
}

} // verus!
