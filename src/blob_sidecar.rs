use vstd::prelude::*;
use core::cmp::Ordering;
use vstd::std_specs::cmp::PartialOrdSpec;
use crate::engine::{
    blob_canonical, blob_proof_of, bls_modulus_bytes, bytes_lt, commitment_of, field_element,
    scalar_canonical, BYTES_PER_BLOB, BYTES_PER_FIELD_ELEMENT, FIELD_ELEMENTS_PER_BLOB,
};
use crate::kzg_utils::{blob_to_kzg_commitment, compute_blob_kzg_proof, single_result, KzgError};

verus! {

/// Largest number of blobs that one block may carry.
pub const MAX_BLOBS_PER_BLOCK: usize = 6;

/// Order of two indices, ascending.
pub open spec fn index_order(a: u64, b: u64) -> Ordering {
    if a < b {
        Ordering::Less
    } else if a == b {
        Ordering::Equal
    } else {
        Ordering::Greater
    }
}

fn compare_indices(a: u64, b: u64) -> (r: Ordering)
    ensures
        r == index_order(a, b),
{
    if a < b {
        Ordering::Less
    } else if a == b {
        Ordering::Equal
    } else {
        Ordering::Greater
    }
}

/// Whether two byte strings are equal.
fn bytes_equal(a: &[u8], b: &[u8]) -> (r: bool)
    ensures
        r == (a@ == b@),
{
    if a.len() != b.len() {
        return false;
    }
    let mut i: usize = 0;
    while i < a.len()
        invariant
            a@.len() == b@.len(),
            0 <= i <= a@.len(),
            forall|j: int| 0 <= j < i ==> a@[j] == b@[j],
        decreases a@.len() - i,
    {
        if a[i] != b[i] {
            return false;
        }
        i = i + 1;
    }
    assert(a@ =~= b@);
    true
}

/// Identifies one blob slot within one block.
#[derive(Copy, Clone, Debug, Eq, Hash)]
pub struct BlobIdentifier {
    pub block_root: [u8; 32],
    pub index: u64,
}

impl PartialEq for BlobIdentifier {
    /// Two identifiers are equal when both the block root and the index are.
    fn eq(&self, other: &Self) -> (r: bool)
        ensures
            r == (self.block_root@ == other.block_root@ && self.index == other.index),
    {
        self.index == other.index && bytes_equal(&self.block_root, &other.block_root)
    }
}

impl vstd::std_specs::cmp::PartialEqSpecImpl for BlobIdentifier {
    open spec fn obeys_eq_spec() -> bool {
        true
    }

    open spec fn eq_spec(&self, other: &Self) -> bool {
        self.block_root@ == other.block_root@ && self.index == other.index
    }
}

impl PartialOrd for BlobIdentifier {
    /// Orders identifiers by `index` alone.
    fn partial_cmp(&self, other: &Self) -> (r: Option<Ordering>)
        ensures
            r == Some(index_order(self.index, other.index)),
    {
        Some(compare_indices(self.index, other.index))
    }
}

impl vstd::std_specs::cmp::PartialOrdSpecImpl for BlobIdentifier {
    open spec fn obeys_partial_cmp_spec() -> bool {
        true
    }

    open spec fn partial_cmp_spec(&self, other: &Self) -> Option<Ordering> {
        Some(index_order(self.index, other.index))
    }
}

impl BlobIdentifier {
    /// Total order of identifiers by `index` alone; `block_root` takes no part.
    pub fn cmp(&self, other: &Self) -> (r: Ordering)
        ensures
            r == index_order(self.index, other.index),
    {
        compare_indices(self.index, other.index)
    }
}

/// Identifiers are ordered by their index alone: two identifiers with the same
/// index compare as equal whatever their block roots, and otherwise the one with
/// the smaller index comes first.
pub proof fn lemma_identifier_order_by_index(a: BlobIdentifier, b: BlobIdentifier)
    ensures
        a.partial_cmp_spec(&b) == Some(index_order(a.index, b.index)),
        a.index == b.index ==> a.partial_cmp_spec(&b) == Some(Ordering::Equal),
        a.index < b.index ==> a.partial_cmp_spec(&b) == Some(Ordering::Less),
        a.index > b.index ==> a.partial_cmp_spec(&b) == Some(Ordering::Greater),
{
}

/// The eight little-endian bytes of `x`.
pub open spec fn le_bytes(x: u64) -> Seq<u8> {
    seq![
        x as u8,
        (x >> 8u64) as u8,
        (x >> 16u64) as u8,
        (x >> 24u64) as u8,
        (x >> 32u64) as u8,
        (x >> 40u64) as u8,
        (x >> 48u64) as u8,
        (x >> 56u64) as u8,
    ]
}

pub(crate) fn push_u64_le(out: &mut Vec<u8>, x: u64)
    ensures
        final(out)@ == old(out)@ + le_bytes(x),
{
    out.push(x as u8);
    out.push((x >> 8u64) as u8);
    out.push((x >> 16u64) as u8);
    out.push((x >> 24u64) as u8);
    out.push((x >> 32u64) as u8);
    out.push((x >> 40u64) as u8);
    out.push((x >> 48u64) as u8);
    out.push((x >> 56u64) as u8);
    assert(final(out)@ =~= old(out)@ + le_bytes(x));
}

pub(crate) fn push_bytes(out: &mut Vec<u8>, bytes: &[u8])
    ensures
        final(out)@ == old(out)@ + bytes@,
{
    let ghost start = out@;
    let mut i: usize = 0;
    while i < bytes.len()
        invariant
            0 <= i <= bytes@.len(),
            out@ == start + bytes@.subrange(0, i as int),
        decreases bytes@.len() - i,
    {
        out.push(bytes[i]);
        i = i + 1;
        assert(out@ =~= start + bytes@.subrange(0, i as int));
    }
    assert(bytes@.subrange(0, bytes@.len() as int) =~= bytes@);
}

/// The unit that carries one blob, its commitment and proof, and the data that
/// links it to a block.
#[derive(Clone, Debug)]
pub struct BlobSidecar {
    pub block_root: [u8; 32],
    pub index: u64,
    pub slot: u64,
    pub block_parent_root: [u8; 32],
    pub proposer_index: u64,
    pub blob: Vec<u8>,
    pub kzg_commitment: [u8; 48],
    pub kzg_proof: [u8; 48],
}

/// The wire form of a sidecar: its fields in declaration order, integers as
/// eight little-endian bytes, byte fields as they are.
pub open spec fn sidecar_bytes(s: BlobSidecar) -> Seq<u8> {
    s.block_root@ + le_bytes(s.index) + le_bytes(s.slot) + s.block_parent_root@ + le_bytes(
        s.proposer_index,
    ) + s.blob@ + s.kzg_commitment@ + s.kzg_proof@
}

/// The sidecars of one block, in the order the producer gave them, shared with
/// other holders; never more than `MAX_BLOBS_PER_BLOCK` of them.
pub struct BlobSidecarList {
    sidecars: Vec<std::sync::Arc<BlobSidecar>>,
}

impl View for BlobSidecarList {
    type V = Seq<std::sync::Arc<BlobSidecar>>;

    closed spec fn view(&self) -> Seq<std::sync::Arc<BlobSidecar>> {
        self.sidecars@
    }
}

impl BlobSidecarList {
    #[verifier::type_invariant]
    spec fn within_bound(&self) -> bool {
        self.sidecars@.len() <= MAX_BLOBS_PER_BLOCK
    }

    /// Wraps `sidecars` when there are at most `MAX_BLOBS_PER_BLOCK` of them.
    pub fn new(sidecars: Vec<std::sync::Arc<BlobSidecar>>) -> (r: Option<Self>)
        ensures
            r is Some <==> sidecars@.len() <= MAX_BLOBS_PER_BLOCK,
            r is Some ==> r->0@ == sidecars@,
    {
        if sidecars.len() <= MAX_BLOBS_PER_BLOCK {
            Some(BlobSidecarList { sidecars })
        } else {
            None
        }
    }

    /// The number of sidecars, never above `MAX_BLOBS_PER_BLOCK`.
    pub fn len(&self) -> (r: usize)
        ensures
            r == self@.len(),
            r <= MAX_BLOBS_PER_BLOCK,
    {
        proof {
            use_type_invariant(self);
        }
        self.sidecars.len()
    }

    /// The sidecar at position `i`, if there is one.
    pub fn get(&self, i: usize) -> (r: Option<&std::sync::Arc<BlobSidecar>>)
        ensures
            i < self@.len() ==> r == Some(&self@[i as int]),
            i >= self@.len() ==> r is None,
    {
        if i < self.sidecars.len() {
            Some(&self.sidecars[i])
        } else {
            None
        }
    }
}

/// One slot per possible blob index of a block, filled as sidecars arrive.
pub type FixedBlobSidecarList = [Option<std::sync::Arc<BlobSidecar>>; MAX_BLOBS_PER_BLOCK];

/// The blobs of one block.
pub type Blobs = Vec<Vec<u8>>;

/// Length in bytes of the wire form of every sidecar whose blob has the
/// length `BYTES_PER_BLOB`.
pub open spec fn max_size_spec() -> nat {
    (32 + 8 + 8 + 32 + 8 + BYTES_PER_BLOB + 48 + 48) as nat
}

/// `n` zero bytes.
pub open spec fn zeros(n: nat) -> Seq<u8> {
    Seq::new(n, |i: int| 0u8)
}

impl BlobSidecar {
    /// A sidecar is well formed when its blob has the length `BYTES_PER_BLOB`.
    pub open spec fn wf(&self) -> bool {
        self.blob@.len() == BYTES_PER_BLOB && self.index < MAX_BLOBS_PER_BLOCK as u64
    }

    /// Whether every field of the sidecar is zero.
    pub open spec fn is_zero(&self) -> bool {
        &&& self.block_root@ == zeros(32)
        &&& self.index == 0
        &&& self.slot == 0
        &&& self.block_parent_root@ == zeros(32)
        &&& self.proposer_index == 0
        &&& self.blob@ == zeros(BYTES_PER_BLOB as nat)
        &&& self.kzg_commitment@ == zeros(48)
        &&& self.kzg_proof@ == zeros(48)
    }

    /// The identifier of the blob that the sidecar carries.
    pub fn id(&self) -> (r: BlobIdentifier)
        ensures
            r.block_root == self.block_root,
            r.index == self.index,
    {
        BlobIdentifier { block_root: self.block_root, index: self.index }
    }

    /// The sidecar with every field zero, used to measure the wire size.
    pub fn empty() -> (r: Self)
        ensures
            r.wf(),
            r.is_zero(),
    {
        let r = BlobSidecar {
            block_root: [0u8; 32],
            index: 0,
            slot: 0,
            block_parent_root: [0u8; 32],
            proposer_index: 0,
            blob: vec![0u8; BYTES_PER_BLOB],
            kzg_commitment: [0u8; 48],
            kzg_proof: [0u8; 48],
        };
        assert(r.block_root@ =~= zeros(32));
        assert(r.block_parent_root@ =~= zeros(32));
        assert(r.blob@ =~= zeros(BYTES_PER_BLOB as nat));
        assert(r.kzg_commitment@ =~= zeros(48));
        assert(r.kzg_proof@ =~= zeros(48));
        r
    }

    /// The wire form of the sidecar.
    pub fn as_ssz_bytes(&self) -> (r: Vec<u8>)
        ensures
            r@ == sidecar_bytes(*self),
    {
        let mut out: Vec<u8> = Vec::new();
        push_bytes(&mut out, &self.block_root);
        push_u64_le(&mut out, self.index);
        push_u64_le(&mut out, self.slot);
        push_bytes(&mut out, &self.block_parent_root);
        push_u64_le(&mut out, self.proposer_index);
        push_bytes(&mut out, self.blob.as_slice());
        push_bytes(&mut out, &self.kzg_commitment);
        push_bytes(&mut out, &self.kzg_proof);
        assert(out@ =~= sidecar_bytes(*self));
        out
    }

    /// Length in bytes of the wire form of any well-formed sidecar.
    pub fn max_size() -> (r: usize)
        ensures
            r == max_size_spec(),
    {
        let e = Self::empty();
        proof {
            lemma_wire_size_is_fixed(e);
        }
        e.as_ssz_bytes().len()
    }
}

impl PartialEq for BlobSidecar {
    /// Two sidecars are equal when all their fields are.
    fn eq(&self, other: &Self) -> (r: bool)
        ensures
            r == sidecar_fields_equal(*self, *other),
    {
        bytes_equal(&self.block_root, &other.block_root) && self.index == other.index && self.slot
            == other.slot && bytes_equal(&self.block_parent_root, &other.block_parent_root)
            && self.proposer_index == other.proposer_index && bytes_equal(
            self.blob.as_slice(),
            other.blob.as_slice(),
        ) && bytes_equal(&self.kzg_commitment, &other.kzg_commitment) && bytes_equal(
            &self.kzg_proof,
            &other.kzg_proof,
        )
    }
}

/// Whether all fields of `a` and `b` are equal.
pub open spec fn sidecar_fields_equal(a: BlobSidecar, b: BlobSidecar) -> bool {
    &&& a.block_root@ == b.block_root@
    &&& a.index == b.index
    &&& a.slot == b.slot
    &&& a.block_parent_root@ == b.block_parent_root@
    &&& a.proposer_index == b.proposer_index
    &&& a.blob@ == b.blob@
    &&& a.kzg_commitment@ == b.kzg_commitment@
    &&& a.kzg_proof@ == b.kzg_proof@
}

impl vstd::std_specs::cmp::PartialEqSpecImpl for BlobSidecar {
    open spec fn obeys_eq_spec() -> bool {
        true
    }

    open spec fn eq_spec(&self, other: &Self) -> bool {
        sidecar_fields_equal(*self, *other)
    }
}

impl PartialOrd for BlobSidecar {
    /// Orders sidecars by `index` alone.
    fn partial_cmp(&self, other: &Self) -> (r: Option<Ordering>)
        ensures
            r == Some(index_order(self.index, other.index)),
    {
        Some(compare_indices(self.index, other.index))
    }
}

impl vstd::std_specs::cmp::PartialOrdSpecImpl for BlobSidecar {
    open spec fn obeys_partial_cmp_spec() -> bool {
        true
    }

    open spec fn partial_cmp_spec(&self, other: &Self) -> Option<Ordering> {
        Some(index_order(self.index, other.index))
    }
}

/// The blob `b` with the most significant byte of each field element set to
/// zero, which keeps every element below the field modulus.
pub open spec fn canonical_blob(b: Seq<u8>) -> Seq<u8> {
    Seq::new(
        b.len(),
        |k: int|
            if k % (BYTES_PER_FIELD_ELEMENT as int) == 0 {
                0u8
            } else {
                b[k]
            },
    )
}

/// Clearing the most significant byte of each field element makes every field
/// element of a blob canonical.
pub proof fn lemma_canonical_blob_is_canonical(b: Seq<u8>)
    requires
        b.len() == BYTES_PER_BLOB,
    ensures
        blob_canonical(canonical_blob(b)),
{
    let cb = canonical_blob(b);
    assert forall|i: int| 0 <= i < FIELD_ELEMENTS_PER_BLOB implies #[trigger] scalar_canonical(
        field_element(cb, i),
    ) by {
        let e = field_element(cb, i);
        assert((32 * i) % 32 == 0) by (nonlinear_arith);
        assert(e[0] == cb[32 * i]);
        assert(e[0] == 0u8);
        assert(bls_modulus_bytes()[0] == 0x73u8);
        assert(bytes_lt(e, bls_modulus_bytes()));
    }
}

impl BlobSidecar {
    /// Total order of sidecars by `index` alone.
    pub fn cmp(&self, other: &Self) -> (r: Ordering)
        ensures
            r == index_order(self.index, other.index),
    {
        compare_indices(self.index, other.index)
    }

    /// Builds a sidecar from the random bytes `random_bytes`: its blob is those
    /// bytes made canonical, its commitment and proof are computed by the
    /// engine, and every other field is zero.
    pub fn random_valid(random_bytes: &[u8]) -> (r: Result<Self, KzgError>)
        ensures
            random_bytes@.len() != BYTES_PER_BLOB ==> r == Err::<Self, KzgError>(
                KzgError::InputSizeError,
            ),
            random_bytes@.len() == BYTES_PER_BLOB ==> r is Ok,
            r is Ok ==> single_result(r->Ok_0.kzg_commitment@, r->Ok_0.kzg_proof@, r->Ok_0.blob@)
                == Ok::<bool, KzgError>(true),
            random_bytes@.len() == BYTES_PER_BLOB ==> match r {
                Ok(s) => {
                    &&& s.wf()
                    &&& s.blob@ == canonical_blob(random_bytes@)
                    &&& s.kzg_commitment@ == commitment_of(s.blob@)
                    &&& s.kzg_proof@ == blob_proof_of(s.blob@, s.kzg_commitment@)
                    &&& s.block_root@ == zeros(32)
                    &&& s.index == 0
                    &&& s.slot == 0
                    &&& s.block_parent_root@ == zeros(32)
                    &&& s.proposer_index == 0
                },
                Err(e) => e == KzgError::EngineError,
            },
    {
        if random_bytes.len() != BYTES_PER_BLOB {
            return Err(KzgError::InputSizeError);
        }
        let mut blob = vstd::slice::slice_to_vec(random_bytes);
        let mut j: usize = 0;
        while j < BYTES_PER_BLOB
            invariant
                blob@.len() == BYTES_PER_BLOB,
                random_bytes@.len() == BYTES_PER_BLOB,
                j % BYTES_PER_FIELD_ELEMENT == 0,
                j <= BYTES_PER_BLOB,
                forall|k: int|
                    0 <= k < BYTES_PER_BLOB ==> #[trigger] blob@[k] == if k < j && k % (
                    BYTES_PER_FIELD_ELEMENT as int) == 0 {
                        0u8
                    } else {
                        random_bytes@[k]
                    },
            decreases BYTES_PER_BLOB - j,
        {
            blob.set(j, 0);
            j = j + BYTES_PER_FIELD_ELEMENT;
        }
        assert(blob@ =~= canonical_blob(random_bytes@));
        proof {
            lemma_canonical_blob_is_canonical(random_bytes@);
        }
        let kzg_commitment = blob_to_kzg_commitment(blob.as_slice())?;
        let kzg_proof = compute_blob_kzg_proof(blob.as_slice(), &kzg_commitment)?;
        let r = BlobSidecar {
            block_root: [0u8; 32],
            index: 0,
            slot: 0,
            block_parent_root: [0u8; 32],
            proposer_index: 0,
            blob,
            kzg_commitment,
            kzg_proof,
        };
        assert(r.block_root@ =~= zeros(32));
        assert(r.block_parent_root@ =~= zeros(32));
        Ok(r)
    }
}

/// Every well-formed sidecar has a wire form of the same length, the one that
/// `max_size` returns.
pub proof fn lemma_wire_size_is_fixed(s: BlobSidecar)
    requires
        s.wf(),
    ensures
        sidecar_bytes(s).len() == max_size_spec(),
{
}

} // verus!
