//! The pairwise scan for slashable pairs and the reduction of slashings to
//! the validators that signed both sides.

use std::collections::HashSet;
use vstd::prelude::*;
use crate::attestation::{
    att_slashing, conflicting, AttestationView, AttesterSlashing, IndexedAttestation,
};
use crate::set_ops::{common_indices, extend_with_common};

verus! {

broadcast use vstd::std_specs::hash::group_hash_axioms;

/// The values of a sequence of attestations.
pub open spec fn attestation_views(s: Seq<IndexedAttestation>) -> Seq<AttestationView> {
    s.map_values(|a: IndexedAttestation| a@)
}

/// The values of a sequence of slashings.
pub open spec fn slashing_views(s: Seq<AttesterSlashing>) -> Seq<(AttestationView, AttestationView)> {
    s.map_values(|p: AttesterSlashing| p@)
}

/// Positions `i` and `j` of `atts` hold two different attestations that, in
/// this order, form a slashable pair.
pub open spec fn conflict_at(atts: Seq<AttestationView>, i: int, j: int) -> bool {
    &&& 0 <= i < atts.len()
    &&& 0 <= j < atts.len()
    &&& atts[i] != atts[j]
    &&& conflicting(atts[i], atts[j])
}

/// The validators that signed both attestations of a pair.
pub open spec fn culprits(p: (AttestationView, AttestationView)) -> Set<u64> {
    common_indices(p.0.attesting_indices, p.1.attesting_indices)
}

/// `p` is the pair of two positions of `atts` that conflict.
pub open spec fn is_conflict_pair(
    atts: Seq<AttestationView>,
    p: (AttestationView, AttestationView),
) -> bool {
    exists|i: int, j: int| conflict_at(atts, i, j) && p == (atts[i], atts[j])
}

/// `found` holds each conflicting pair of `atts` (at least once) and nothing
/// else.
pub open spec fn reports_conflicts(
    atts: Seq<AttestationView>,
    found: Seq<(AttestationView, AttestationView)>,
) -> bool {
    &&& forall|k: int| 0 <= k < found.len() ==> is_conflict_pair(atts, #[trigger] found[k])
    &&& forall|i: int, j: int|
        conflict_at(atts, i, j) ==> exists|k: int|
            0 <= k < found.len() && #[trigger] found[k] == (atts[i], atts[j])
}

/// Every pair in `ps` is slashable.
pub open spec fn all_conflicting(ps: Seq<(AttestationView, AttestationView)>) -> bool {
    forall|k: int| #![trigger ps[k]] 0 <= k < ps.len() ==> conflicting(ps[k].0, ps[k].1)
}

/// The validators that signed both sides of some pair in `ps`.
pub open spec fn slashed_by(ps: Seq<(AttestationView, AttestationView)>) -> Set<u64> {
    Set::new(|v: u64| exists|k: int| 0 <= k < ps.len() && #[trigger] culprits(ps[k]).contains(v))
}

/// The validators that signed both sides of some conflicting pair of `atts`.
pub open spec fn culpable(atts: Seq<AttestationView>) -> Set<u64> {
    Set::new(
        |v: u64|
            exists|i: int, j: int|
                conflict_at(atts, i, j) && #[trigger] culprits((atts[i], atts[j])).contains(v),
    )
}

/// The part of `culpable(atts)` that comes from the pairs `(a, b)` scanned
/// before `(i, j)` in row-major order.
spec fn culpable_before(atts: Seq<AttestationView>, i: int, j: int) -> Set<u64> {
    Set::new(
        |v: u64|
            exists|a: int, b: int|
                conflict_at(atts, a, b) && (a < i || (a == i && b < j))
                    && #[trigger] culprits((atts[a], atts[b])).contains(v),
    )
}

/// A slashing that is not a double vote nor a surround vote; `index` is its
/// position in the input.
#[derive(Clone, Copy, Debug, PartialEq, Eq, Structural)]
pub struct InvalidSlashing {
    pub index: usize,
}

/// Every slashing made of two different attestations of the batch that form
/// a double vote or a surround vote, for each ordered pair of positions.
pub fn detect_slashings(attestations: &[IndexedAttestation]) -> (r: Vec<AttesterSlashing>)
    ensures
        reports_conflicts(attestation_views(attestations@), slashing_views(r@)),
        forall|k: int| 0 <= k < r@.len() ==> r@[k].attestation_1@ != r@[k].attestation_2@,
{
    let ghost atts = attestation_views(attestations@);
    let n = attestations.len();
    let mut out: Vec<AttesterSlashing> = Vec::new();
    let mut i: usize = 0;
    while i < n
        invariant
            n == attestations@.len(),
            atts == attestation_views(attestations@),
            i <= n,
            forall|k: int| 0 <= k < out@.len() ==> is_conflict_pair(atts, #[trigger] out@[k]@),
            forall|a: int, b: int|
                conflict_at(atts, a, b) && a < i ==> exists|k: int|
                    0 <= k < out@.len() && #[trigger] out@[k]@ == (atts[a], atts[b]),
        decreases n - i,
    {
        let mut j: usize = 0;
        while j < n
            invariant
                n == attestations@.len(),
                atts == attestation_views(attestations@),
                i < n,
                j <= n,
                forall|k: int| 0 <= k < out@.len() ==> is_conflict_pair(atts, #[trigger] out@[k]@),
                forall|a: int, b: int|
                    conflict_at(atts, a, b) && (a < i || (a == i && b < j)) ==> exists|k: int|
                        0 <= k < out@.len() && #[trigger] out@[k]@ == (atts[a], atts[b]),
            decreases n - j,
        {
            let att1 = &attestations[i];
            let att2 = &attestations[j];
            assert(atts[i as int] == att1@ && atts[j as int] == att2@);
            if att1 != att2 && (att1.is_double_vote(att2) || att1.is_surround_vote(att2)) {
                let ghost before = out@;
                out.push(att_slashing(att1, att2));
                assert(out@[before.len() as int]@ == (atts[i as int], atts[j as int]));
                assert(conflict_at(atts, i as int, j as int));
                assert(is_conflict_pair(atts, out@[before.len() as int]@));
                assert forall|k: int| 0 <= k < out@.len() implies is_conflict_pair(
                    atts,
                    #[trigger] out@[k]@,
                ) by {
                    if k < before.len() {
                        assert(out@[k] == before[k]);
                    }
                }
                assert forall|a: int, b: int|
                    conflict_at(atts, a, b) && (a < i || (a == i && b < j + 1)) implies exists|
                        k: int,
                    | 0 <= k < out@.len() && #[trigger] out@[k]@ == (atts[a], atts[b]) by {
                    if a == i && b == j {
                        assert(out@[before.len() as int]@ == (atts[a], atts[b]));
                    } else {
                        let k = choose|k: int|
                            0 <= k < before.len() && #[trigger] before[k]@ == (atts[a], atts[b]);
                        assert(out@[k]@ == (atts[a], atts[b]));
                    }
                }
            }
            j = j + 1;
        }
        i = i + 1;
    }
    proof {
        let found = slashing_views(out@);
        assert forall|k: int| 0 <= k < found.len() implies is_conflict_pair(
            atts,
            #[trigger] found[k],
        ) by {
            assert(found[k] == out@[k]@);
        }
        assert forall|a: int, b: int| conflict_at(atts, a, b) implies exists|k: int|
            0 <= k < found.len() && #[trigger] found[k] == (atts[a], atts[b]) by {
            let k = choose|k: int| 0 <= k < out@.len() && #[trigger] out@[k]@ == (atts[a], atts[b]);
            assert(found[k] == out@[k]@);
        }
        assert forall|k: int| 0 <= k < out@.len() implies out@[k].attestation_1@
            != out@[k].attestation_2@ by {
            assert(is_conflict_pair(atts, out@[k]@));
        }
    }
    out
}

/// The validators that signed both sides of some slashing in `slashings`,
/// or the position of the first slashing that is neither a double vote nor
/// a surround vote.
pub fn slashed_validators_from_slashings(slashings: &[AttesterSlashing]) -> (r: Result<
    HashSet<u64>,
    InvalidSlashing,
>)
    ensures
        match r {
            Ok(set) => all_conflicting(slashing_views(slashings@)) && set@ == slashed_by(
                slashing_views(slashings@),
            ),
            Err(e) => {
                &&& e.index < slashings@.len()
                &&& !conflicting(
                    slashings@[e.index as int].attestation_1@,
                    slashings@[e.index as int].attestation_2@,
                )
                &&& all_conflicting(slashing_views(slashings@).take(e.index as int))
            },
        },
{
    let ghost ps = slashing_views(slashings@);
    let mut out: HashSet<u64> = HashSet::new();
    let mut i: usize = 0;
    while i < slashings.len()
        invariant
            ps == slashing_views(slashings@),
            i <= slashings@.len(),
            all_conflicting(ps.take(i as int)),
            out@ == slashed_by(ps.take(i as int)),
        decreases slashings@.len() - i,
    {
        let att1 = &slashings[i].attestation_1;
        let att2 = &slashings[i].attestation_2;
        assert(ps[i as int] == (att1@, att2@));
        if !(att1.is_double_vote(att2) || att1.is_surround_vote(att2)) {
            return Err(InvalidSlashing { index: i });
        }
        extend_with_common(
            &mut out,
            att1.attesting_indices.as_slice(),
            att2.attesting_indices.as_slice(),
        );
        assert(ps.take(i + 1) =~= ps.take(i as int).push(ps[i as int]));
        assert(out@ =~= slashed_by(ps.take(i + 1))) by {
            let prev = ps.take(i as int);
            let next = ps.take(i + 1);
            assert forall|v: u64| #[trigger] out@.contains(v) implies slashed_by(next).contains(
                v,
            ) by {
                if culprits(ps[i as int]).contains(v) {
                    assert(next[i as int] == ps[i as int]);
                } else {
                    let k = choose|k: int|
                        0 <= k < prev.len() && #[trigger] culprits(prev[k]).contains(v);
                    assert(next[k] == prev[k]);
                }
            }
            assert forall|v: u64| #[trigger] slashed_by(next).contains(v) implies out@.contains(
                v,
            ) by {
                let k = choose|k: int|
                    0 <= k < next.len() && #[trigger] culprits(next[k]).contains(v);
                if k < i {
                    assert(prev[k] == next[k]);
                }
            }
        }
        i = i + 1;
    }
    assert(ps.take(i as int) =~= ps);
    Ok(out)
}

/// The validators that signed both sides of some conflicting pair of two
/// different attestations of the batch.
pub fn slashed_validators_from_attestations(attestations: &[IndexedAttestation]) -> (r: HashSet<
    u64,
>)
    ensures
        r@ == culpable(attestation_views(attestations@)),
{
    let ghost atts = attestation_views(attestations@);
    let n = attestations.len();
    let mut slashed: HashSet<u64> = HashSet::new();
    let mut i: usize = 0;
    assert(slashed@ =~= culpable_before(atts, 0, 0));
    while i < n
        invariant
            n == attestations@.len(),
            atts == attestation_views(attestations@),
            i <= n,
            slashed@ == culpable_before(atts, i as int, 0),
        decreases n - i,
    {
        let mut j: usize = 0;
        while j < n
            invariant
                n == attestations@.len(),
                atts == attestation_views(attestations@),
                i < n,
                j <= n,
                slashed@ == culpable_before(atts, i as int, j as int),
            decreases n - j,
        {
            let att1 = &attestations[i];
            let att2 = &attestations[j];
            assert(atts[i as int] == att1@ && atts[j as int] == att2@);
            let ghost prev = slashed@;
            if att1 != att2 && (att1.is_double_vote(att2) || att1.is_surround_vote(att2)) {
                extend_with_common(
                    &mut slashed,
                    att1.attesting_indices.as_slice(),
                    att2.attesting_indices.as_slice(),
                );
                assert(conflict_at(atts, i as int, j as int));
            }
            assert(slashed@ =~= culpable_before(atts, i as int, j + 1)) by {
                assert forall|v: u64| #[trigger]
                    culpable_before(atts, i as int, j + 1).contains(v) implies slashed@.contains(
                    v,
                ) by {
                    let (a, b) = choose|a: int, b: int|
                        conflict_at(atts, a, b) && (a < i || (a == i && b < j + 1))
                            && #[trigger] culprits((atts[a], atts[b])).contains(v);
                    if !(a == i && b == j) {
                        assert(prev.contains(v));
                    }
                }
                assert forall|v: u64| #[trigger] slashed@.contains(v) implies culpable_before(
                    atts,
                    i as int,
                    j + 1,
                ).contains(v) by {
                    if prev.contains(v) {
                        let (a, b) = choose|a: int, b: int|
                            conflict_at(atts, a, b) && (a < i || (a == i && b < j))
                                && #[trigger] culprits((atts[a], atts[b])).contains(v);
                        assert(culprits((atts[a], atts[b])).contains(v));
                    } else {
                        assert(culprits((atts[i as int], atts[j as int])).contains(v));
                    }
                }
            }
            j = j + 1;
        }
        assert(slashed@ =~= culpable_before(atts, i + 1, 0));
        i = i + 1;
    }
    assert(slashed@ =~= culpable(atts));
    slashed
}

/// Reducing what the scan reports gives what the batch entry point returns:
/// for every `found` that `detect_slashings` may return on `atts`, every
/// pair is slashable (so `slashed_validators_from_slashings` succeeds) and
/// the validators it yields are `culpable(atts)`, the result of
/// `slashed_validators_from_attestations`.
pub proof fn lemma_from_attestations_is_composition(
    atts: Seq<AttestationView>,
    found: Seq<(AttestationView, AttestationView)>,
)
    requires
        reports_conflicts(atts, found),
    ensures
        all_conflicting(found),
        slashed_by(found) == culpable(atts),
{
    assert forall|k: int| #![trigger found[k]] 0 <= k < found.len() implies conflicting(
        found[k].0,
        found[k].1,
    ) by {
        assert(is_conflict_pair(atts, found[k]));
    }
    assert forall|v: u64| #[trigger] slashed_by(found).contains(v) implies culpable(atts).contains(
        v,
    ) by {
        let k = choose|k: int| 0 <= k < found.len() && #[trigger] culprits(found[k]).contains(v);
        assert(is_conflict_pair(atts, found[k]));
        let (i, j) = choose|i: int, j: int|
            conflict_at(atts, i, j) && found[k] == (atts[i], atts[j]);
        assert(culprits((atts[i], atts[j])).contains(v));
    }
    assert forall|v: u64| #[trigger] culpable(atts).contains(v) implies slashed_by(found).contains(
        v,
    ) by {
        let (i, j) = choose|i: int, j: int|
            conflict_at(atts, i, j) && #[trigger] culprits((atts[i], atts[j])).contains(v);
        let k = choose|k: int| 0 <= k < found.len() && #[trigger] found[k] == (atts[i], atts[j]);
        assert(culprits(found[k]).contains(v));
    }
    assert(slashed_by(found) =~= culpable(atts));
}

} // verus!
