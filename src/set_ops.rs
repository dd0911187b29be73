//! Intersection of validator index lists.

use std::collections::HashSet;
use vstd::prelude::*;

verus! {

broadcast use vstd::std_specs::hash::group_hash_axioms;

/// The validators that occur in both `xs` and `ys`.
pub open spec fn common_indices(xs: Seq<u64>, ys: Seq<u64>) -> Set<u64> {
    xs.to_set().intersect(ys.to_set())
}

/// The set of the indices in `ys`.
fn index_set(ys: &[u64]) -> (r: HashSet<u64>)
    ensures
        r@ == ys@.to_set(),
{
    let mut r: HashSet<u64> = HashSet::new();
    let mut i: usize = 0;
    while i < ys.len()
        invariant
            i <= ys@.len(),
            forall|v: u64| r@.contains(v) <==> exists|k: int| 0 <= k < i && ys@[k] == v,
        decreases ys@.len() - i,
    {
        r.insert(ys[i]);
        i = i + 1;
    }
    assert(r@ =~= ys@.to_set());
    r
}

/// Adds to `out` each validator that occurs in both `xs` and `ys`.
pub(crate) fn extend_with_common(out: &mut HashSet<u64>, xs: &[u64], ys: &[u64])
    ensures
        final(out)@ == old(out)@.union(common_indices(xs@, ys@)),
{
    let in_ys = index_set(ys);
    let mut i: usize = 0;
    while i < xs.len()
        invariant
            i <= xs@.len(),
            in_ys@ == ys@.to_set(),
            forall|v: u64|
                out@.contains(v) <==> old(out)@.contains(v) || (exists|k: int|
                    0 <= k < i && xs@[k] == v && ys@.contains(v)),
        decreases xs@.len() - i,
    {
        let x = xs[i];
        if in_ys.contains(&x) {
            out.insert(x);
        }
        i = i + 1;
    }
    assert(out@ =~= old(out)@.union(common_indices(xs@, ys@)));
}

/// The set of validators that occur in both index lists; duplicates collapse
/// and order does not matter.
pub fn hashset_intersection(attestation_1_indices: &[u64], attestation_2_indices: &[u64]) -> (r:
    HashSet<u64>)
    ensures
        r@ == common_indices(attestation_1_indices@, attestation_2_indices@),
{
    let mut r: HashSet<u64> = HashSet::new();
    extend_with_common(&mut r, attestation_1_indices, attestation_2_indices);
    assert(r@ =~= common_indices(attestation_1_indices@, attestation_2_indices@));
    r
}

/// Intersection does not depend on the order of its two arguments.
pub proof fn lemma_common_commutative(xs: Seq<u64>, ys: Seq<u64>)
    ensures
        common_indices(xs, ys) == common_indices(ys, xs),
{
    assert(common_indices(xs, ys) =~= common_indices(ys, xs));
}

/// Intersecting with a third list gives the same set whichever pair is
/// intersected first.
pub proof fn lemma_common_associative(xs: Seq<u64>, ys: Seq<u64>, zs: Seq<u64>)
    ensures
        common_indices(xs, ys).intersect(zs.to_set()) == xs.to_set().intersect(
            common_indices(ys, zs),
        ),
{
    assert(common_indices(xs, ys).intersect(zs.to_set()) =~= xs.to_set().intersect(
        common_indices(ys, zs),
    ));
}

/// A list intersected with itself gives the set of its own indices.
pub proof fn lemma_common_idempotent(xs: Seq<u64>)
    ensures
        common_indices(xs, xs) == xs.to_set(),
{
    assert(common_indices(xs, xs) =~= xs.to_set());
}

/// Intersection with an empty list is empty.
pub proof fn lemma_common_with_empty(xs: Seq<u64>)
    ensures
        common_indices(xs, Seq::empty()) == Set::<u64>::empty(),
{
    assert(common_indices(xs, Seq::empty()) =~= Set::<u64>::empty());
}

} // verus!
