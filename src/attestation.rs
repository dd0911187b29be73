//! The attestation data model and the two slashing conditions.

use vstd::prelude::*;

verus! {

/// A 32-byte hash, held as four big-endian 64-bit words
/// (`Hash256(w0, w1, w2, w3)` is the bytes of `w0`, then `w1`, `w2`, `w3`).
#[derive(Clone, Copy, Debug, PartialEq, Eq, Structural, Hash)]
pub struct Hash256(pub u64, pub u64, pub u64, pub u64);

impl Hash256 {
    /// The hash whose 32 bytes are all zero.
    pub fn zero() -> (r: Hash256)
        ensures
            r == Hash256(0, 0, 0, 0),
    {
        Hash256(0, 0, 0, 0)
    }

    /// The hash whose last eight bytes are `v` in big-endian order and whose
    /// other bytes are zero.
    pub fn from_low_u64_be(v: u64) -> (r: Hash256)
        ensures
            r == Hash256(0, 0, 0, v),
    {
        Hash256(0, 0, 0, v)
    }
}

/// A vote anchor at an epoch boundary.
#[derive(Clone, Copy, Debug, PartialEq, Eq, Structural, Hash)]
pub struct Checkpoint {
    pub epoch: u64,
    pub root: Hash256,
}

/// What a set of validators voted for.
#[derive(Clone, Copy, Debug, PartialEq, Eq, Structural, Hash)]
pub struct AttestationData {
    pub slot: u64,
    pub index: u64,
    pub beacon_block_root: Hash256,
    pub source: Checkpoint,
    pub target: Checkpoint,
}

/// A vote co-signed by the validators in `attesting_indices`.
/// `signature` holds the serialized aggregate signature; it takes part in
/// equality only.
#[derive(Clone, Debug, Hash)]
pub struct IndexedAttestation {
    pub attesting_indices: Vec<u64>,
    pub data: AttestationData,
    pub signature: Vec<u8>,
}

/// The mathematical value of an [`IndexedAttestation`].
pub struct AttestationView {
    pub attesting_indices: Seq<u64>,
    pub data: AttestationData,
    pub signature: Seq<u8>,
}

impl View for IndexedAttestation {
    type V = AttestationView;

    open spec fn view(&self) -> AttestationView {
        AttestationView {
            attesting_indices: self.attesting_indices@,
            data: self.data,
            signature: self.signature@,
        }
    }
}

/// A pair of attestations asserted to be in conflict.
#[derive(Clone, Debug)]
pub struct AttesterSlashing {
    pub attestation_1: IndexedAttestation,
    pub attestation_2: IndexedAttestation,
}

impl View for AttesterSlashing {
    type V = (AttestationView, AttestationView);

    open spec fn view(&self) -> (AttestationView, AttestationView) {
        (self.attestation_1@, self.attestation_2@)
    }
}

/// `a` and `b` vote for the same target epoch with different data.
pub open spec fn double_vote(a: AttestationView, b: AttestationView) -> bool {
    a.data.target.epoch == b.data.target.epoch && a.data != b.data
}

/// The source-to-target range of `a` strictly contains that of `b`.
pub open spec fn surround_vote(a: AttestationView, b: AttestationView) -> bool {
    a.data.source.epoch < b.data.source.epoch && b.data.target.epoch < a.data.target.epoch
}

/// `a` and `b`, taken in this order, form a slashable pair.
pub open spec fn conflicting(a: AttestationView, b: AttestationView) -> bool {
    double_vote(a, b) || surround_vote(a, b)
}

fn same_u64s(a: &[u64], b: &[u64]) -> (r: bool)
    ensures
        r == (a@ == b@),
{
    if a.len() != b.len() {
        return false;
    }
    let mut i: usize = 0;
    while i < a.len()
        invariant
            a@.len() == b@.len(),
            i <= a@.len(),
            forall|k: int| 0 <= k < i ==> a@[k] == b@[k],
        decreases a@.len() - i,
    {
        if a[i] != b[i] {
            return false;
        }
        i = i + 1;
    }
    assert(a@ =~= b@);
    true
}

fn same_bytes(a: &[u8], b: &[u8]) -> (r: bool)
    ensures
        r == (a@ == b@),
{
    if a.len() != b.len() {
        return false;
    }
    let mut i: usize = 0;
    while i < a.len()
        invariant
            a@.len() == b@.len(),
            i <= a@.len(),
            forall|k: int| 0 <= k < i ==> a@[k] == b@[k],
        decreases a@.len() - i,
    {
        if a[i] != b[i] {
            return false;
        }
        i = i + 1;
    }
    assert(a@ =~= b@);
    true
}

impl PartialEq for IndexedAttestation {
    fn eq(&self, other: &IndexedAttestation) -> (r: bool) {
        same_u64s(self.attesting_indices.as_slice(), other.attesting_indices.as_slice())
            && self.data == other.data
            && same_bytes(self.signature.as_slice(), other.signature.as_slice())
    }
}

impl vstd::std_specs::cmp::PartialEqSpecImpl for IndexedAttestation {
    open spec fn obeys_eq_spec() -> bool {
        true
    }

    open spec fn eq_spec(&self, other: &IndexedAttestation) -> bool {
        self@ == other@
    }
}

impl Eq for IndexedAttestation {}

impl IndexedAttestation {
    /// Whether `self` and `other` vote for the same target epoch with
    /// different attestation data.
    pub fn is_double_vote(&self, other: &IndexedAttestation) -> (r: bool)
        ensures
            r == double_vote(self@, other@),
    {
        self.data.target.epoch == other.data.target.epoch && self.data != other.data
    }

    /// Whether the source-to-target range of `self` strictly contains that
    /// of `other`.
    pub fn is_surround_vote(&self, other: &IndexedAttestation) -> (r: bool)
        ensures
            r == surround_vote(self@, other@),
    {
        self.data.source.epoch < other.data.source.epoch
            && other.data.target.epoch < self.data.target.epoch
    }
}

/// The attestation with the given validators, source epoch, target epoch and
/// target root (`Hash256::from_low_u64_be(target_root)`); slot, committee
/// index, block root and source root are zero and the signature is empty.
pub fn indexed_att(attesting_indices: &[u64], source_epoch: u64, target_epoch: u64, target_root: u64)
    -> (r: IndexedAttestation)
    ensures
        r@.attesting_indices == attesting_indices@,
        r@.data == (AttestationData {
            slot: 0,
            index: 0,
            beacon_block_root: Hash256(0, 0, 0, 0),
            source: Checkpoint { epoch: source_epoch, root: Hash256(0, 0, 0, 0) },
            target: Checkpoint { epoch: target_epoch, root: Hash256(0, 0, 0, target_root) },
        }),
        r@.signature == Seq::<u8>::empty(),
{
    let mut indices: Vec<u64> = Vec::new();
    indices.extend_from_slice(attesting_indices);
    assert(indices@ =~= attesting_indices@);
    IndexedAttestation {
        attesting_indices: indices,
        data: AttestationData {
            slot: 0,
            index: 0,
            beacon_block_root: Hash256::zero(),
            source: Checkpoint { epoch: source_epoch, root: Hash256::from_low_u64_be(0) },
            target: Checkpoint { epoch: target_epoch, root: Hash256::from_low_u64_be(target_root) },
        },
        signature: Vec::new(),
    }
}

/// A copy of `a` with the same value.
pub(crate) fn copy_attestation(a: &IndexedAttestation) -> (r: IndexedAttestation)
    ensures
        r@ == a@,
{
    let attesting_indices = a.attesting_indices.clone();
    let signature = a.signature.clone();
    assert(attesting_indices@ =~= a.attesting_indices@);
    assert(signature@ =~= a.signature@);
    IndexedAttestation { attesting_indices, data: a.data, signature }
}

/// The slashing that pairs copies of `attestation_1` and `attestation_2`.
pub fn att_slashing(attestation_1: &IndexedAttestation, attestation_2: &IndexedAttestation) -> (r:
    AttesterSlashing)
    ensures
        r@ == (attestation_1@, attestation_2@),
{
    AttesterSlashing {
        attestation_1: copy_attestation(attestation_1),
        attestation_2: copy_attestation(attestation_2),
    }
}

/// Double voting does not depend on the order of the two attestations.
pub proof fn lemma_double_vote_symmetric(x: AttestationView, y: AttestationView)
    ensures
        double_vote(x, y) == double_vote(y, x),
{
}

/// No two attestations surround each other.
pub proof fn lemma_no_mutual_surround(x: AttestationView, y: AttestationView)
    ensures
        !(surround_vote(x, y) && surround_vote(y, x)),
{
}

/// An attestation never conflicts with itself, so every conflicting pair is
/// made of two different attestations.
pub proof fn lemma_conflict_needs_two(x: AttestationView, y: AttestationView)
    ensures
        !conflicting(x, x),
        conflicting(x, y) ==> x != y,
{
}

} // verus!
