use std::collections::HashSet;

use slasher::attestation::{att_slashing, indexed_att, AttesterSlashing, Hash256, IndexedAttestation};
use slasher::engine::{
    detect_slashings, slashed_validators_from_attestations, slashed_validators_from_slashings,
    InvalidSlashing,
};
use slasher::set_ops::hashset_intersection;

fn set(xs: &[u64]) -> HashSet<u64> {
    xs.iter().copied().collect()
}

fn is_pair(s: &AttesterSlashing, x: &IndexedAttestation, y: &IndexedAttestation) -> bool {
    (s.attestation_1 == *x && s.attestation_2 == *y) || (s.attestation_1 == *y && s.attestation_2 == *x)
}

#[test]
fn double_vote_detected_and_reduced() {
    let a = indexed_att(&[1, 2, 3], 0, 5, 1);
    let b = indexed_att(&[2, 3, 4], 0, 5, 2);
    let found = detect_slashings(&[a.clone(), b.clone()]);
    assert!(!found.is_empty());
    assert!(found.iter().all(|s| is_pair(s, &a, &b)));
    assert_eq!(slashed_validators_from_slashings(&found), Ok(set(&[2, 3])));
    let single = vec![att_slashing(&a, &b)];
    assert_eq!(slashed_validators_from_slashings(&single), Ok(set(&[2, 3])));
}

#[test]
fn surround_vote_detected_and_reduced() {
    let a = indexed_att(&[1, 2], 0, 10, 0);
    let b = indexed_att(&[2, 3], 3, 7, 0);
    let found = detect_slashings(&[a.clone(), b.clone()]);
    assert_eq!(found.len(), 1);
    assert!(found[0].attestation_1 == a && found[0].attestation_2 == b);
    assert_eq!(slashed_validators_from_slashings(&found), Ok(set(&[2])));
    assert_eq!(slashed_validators_from_attestations(&[a, b]), set(&[2]));
}

#[test]
fn no_conflict_gives_nothing() {
    let a = indexed_att(&[1, 2], 0, 1, 0);
    let b = indexed_att(&[1, 2], 2, 3, 0);
    assert!(detect_slashings(&[a.clone(), b.clone()]).is_empty());
    assert!(slashed_validators_from_attestations(&[a, b]).is_empty());
}

#[test]
fn invalid_slashing_is_rejected() {
    let a = indexed_att(&[1, 2], 0, 1, 0);
    let b = indexed_att(&[1, 2], 2, 3, 0);
    let bad = vec![att_slashing(&a, &b)];
    assert_eq!(slashed_validators_from_slashings(&bad), Err(InvalidSlashing { index: 0 }));
}

#[test]
fn first_invalid_slashing_is_reported() {
    let a = indexed_att(&[1], 0, 5, 1);
    let b = indexed_att(&[1], 0, 5, 2);
    let c = indexed_att(&[1], 6, 7, 0);
    let slashings = vec![att_slashing(&a, &b), att_slashing(&a, &c), att_slashing(&c, &a)];
    assert_eq!(slashed_validators_from_slashings(&slashings), Err(InvalidSlashing { index: 1 }));
}

#[test]
fn identical_attestation_is_no_conflict() {
    let a = indexed_att(&[1, 2, 3], 0, 5, 1);
    assert!(detect_slashings(&[a.clone(), a.clone()]).is_empty());
    assert!(slashed_validators_from_attestations(&[a.clone(), a]).is_empty());
}

#[test]
fn empty_and_single_batches() {
    assert!(detect_slashings(&[]).is_empty());
    assert!(slashed_validators_from_attestations(&[]).is_empty());
    let a = indexed_att(&[7], 1, 2, 3);
    assert!(detect_slashings(&[a.clone()]).is_empty());
    assert!(slashed_validators_from_attestations(&[a]).is_empty());
    assert_eq!(slashed_validators_from_slashings(&[]), Ok(HashSet::new()));
}

#[test]
fn scan_never_pairs_an_attestation_with_itself() {
    let a = indexed_att(&[1, 2], 0, 5, 1);
    let b = indexed_att(&[2, 3], 0, 5, 2);
    let c = indexed_att(&[1, 3], 1, 4, 0);
    let found = detect_slashings(&[a.clone(), b.clone(), a.clone(), c.clone()]);
    assert!(!found.is_empty());
    assert!(found.iter().all(|s| s.attestation_1 != s.attestation_2));
}

#[test]
fn double_vote_is_symmetric_and_surround_is_not_mutual() {
    let a = indexed_att(&[1], 0, 5, 1);
    let b = indexed_att(&[1], 2, 5, 1);
    let c = indexed_att(&[1], 1, 4, 0);
    assert!(a.is_double_vote(&b) && b.is_double_vote(&a));
    assert!(!a.is_double_vote(&c) && !c.is_double_vote(&a));
    assert!(a.is_surround_vote(&c));
    assert!(!c.is_surround_vote(&a));
    assert!(!a.is_double_vote(&a) && !a.is_surround_vote(&a));
}

#[test]
fn double_vote_on_source_alone() {
    let a = indexed_att(&[4], 0, 5, 9);
    let b = indexed_att(&[4], 1, 5, 9);
    assert_eq!(slashed_validators_from_attestations(&[a, b]), set(&[4]));
}

#[test]
fn intersection_values_and_laws() {
    let xs = [3u64, 1, 2, 3, 5];
    let ys = [5u64, 4, 3, 3];
    let zs = [3u64, 9];
    assert_eq!(hashset_intersection(&xs, &ys), set(&[3, 5]));
    assert_eq!(hashset_intersection(&xs, &ys), hashset_intersection(&ys, &xs));
    assert_eq!(hashset_intersection(&xs, &xs), set(&[1, 2, 3, 5]));
    assert!(hashset_intersection(&xs, &[]).is_empty());
    let left: HashSet<u64> = &hashset_intersection(&xs, &ys) & &set(&zs);
    let right: HashSet<u64> = &set(&xs) & &hashset_intersection(&ys, &zs);
    assert_eq!(left, right);
    assert_eq!(left, set(&[3]));
}

#[test]
fn batch_entry_point_matches_two_steps() {
    let batch = vec![
        indexed_att(&[1, 2, 3], 0, 5, 1),
        indexed_att(&[2, 3, 4], 0, 5, 2),
        indexed_att(&[4, 5], 1, 9, 0),
        indexed_att(&[5, 6], 2, 8, 0),
        indexed_att(&[8], 20, 21, 0),
    ];
    let direct = slashed_validators_from_attestations(&batch);
    let two_steps = slashed_validators_from_slashings(&detect_slashings(&batch));
    assert_eq!(two_steps, Ok(direct.clone()));
    assert_eq!(direct, set(&[2, 3, 5]));
}

#[test]
fn fixture_fields() {
    let a = indexed_att(&[1, 2], 3, 4, 5);
    assert_eq!(a.attesting_indices, vec![1, 2]);
    assert_eq!(a.data.slot, 0);
    assert_eq!(a.data.index, 0);
    assert_eq!(a.data.beacon_block_root, Hash256::zero());
    assert_eq!(a.data.source.epoch, 3);
    assert_eq!(a.data.source.root, Hash256(0, 0, 0, 0));
    assert_eq!(a.data.target.epoch, 4);
    assert_eq!(a.data.target.root, Hash256::from_low_u64_be(5));
    assert_eq!(a.data.target.root, Hash256(0, 0, 0, 5));
    assert!(a.signature.is_empty());
    let b = indexed_att(&[9], 0, 4, 6);
    let s = att_slashing(&a, &b);
    assert!(s.attestation_1 == a && s.attestation_2 == b);
    assert!(a != b);
}
