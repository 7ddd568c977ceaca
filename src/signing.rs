use vstd::prelude::*;
use vstd::slice::{slice_subrange, slice_to_vec};
use sha2::Digest;
use std::sync::Arc;
use crate::blob_sidecar::{le_bytes, push_bytes, push_u64_le, zeros, BlobSidecar};
use crate::engine::{bls_modulus_bytes, bytes_lt, BYTES_PER_BLOB, BYTES_PER_FIELD_ELEMENT, FIELD_ELEMENTS_PER_BLOB};

verus! {

#[verifier::external_type_specification]
#[verifier::external_body]
pub struct ExBlstError(blst::BLST_ERROR);

/// The SHA-256 digest of `data`.
pub uninterp spec fn sha256_of(data: Seq<u8>) -> Seq<u8>;

/// Relies on sha2::Sha256::digest: the SHA-256 digest of `data`, which is 32 bytes long.
#[verifier::external_body]
fn sha256(data: &[u8]) -> (r: Vec<u8>)
    ensures
        r@ == sha256_of(data@),
        r@.len() == 32,
{
    sha2::Sha256::digest(data).to_vec()
}

/// The BLS signature of `message` under the secret key `secret_key`, in the
/// ciphersuite with proof of possession over G2 that Ethereum uses.
pub uninterp spec fn bls_signature_of(secret_key: Seq<u8>, message: Seq<u8>) -> Seq<u8>;

/// Whether the 32 bytes `secret_key`, read big-endian, are a scalar between 1
/// and the group order minus 1.
pub open spec fn secret_key_in_range(secret_key: Seq<u8>) -> bool {
    secret_key.len() == 32 && secret_key != zeros(32) && bytes_lt(secret_key, bls_modulus_bytes())
}

/// Relies on blst::min_pk::SecretKey::from_bytes, which accepts exactly the keys
/// in range (through blst_sk_check), and on blst::min_pk::SecretKey::sign, which
/// is deterministic.
#[verifier::external_body]
fn bls_sign(secret_key: &[u8; 32], message: &[u8]) -> (r: Result<[u8; 96], blst::BLST_ERROR>)
    ensures
        r is Ok <==> secret_key_in_range(secret_key@),
        r is Ok ==> r->Ok_0@ == bls_signature_of(secret_key@, message@),
{
    let sk = blst::min_pk::SecretKey::from_bytes(secret_key)?;
    Ok(sk.sign(message, b"BLS_SIG_BLS12381G2_XMD:SHA-256_SSWU_RO_POP_", &[]).to_bytes())
}

/// The byte contents of each chunk of `layer`.
pub open spec fn chunks_view(layer: Seq<Vec<u8>>) -> Seq<Seq<u8>> {
    layer.map_values(|c: Vec<u8>| c@)
}

/// One level up a Merkle tree: the digest of each adjacent pair.
pub open spec fn next_layer(layer: Seq<Seq<u8>>) -> Seq<Seq<u8>> {
    Seq::new(layer.len() / 2, |i: int| sha256_of(layer[2 * i] + layer[2 * i + 1]))
}

/// The root of the binary Merkle tree over the chunks `layer`, whose number is
/// a power of two.
pub open spec fn merkle_root(layer: Seq<Seq<u8>>) -> Seq<u8>
    decreases layer.len(),
{
    if layer.len() <= 1 {
        if layer.len() == 1 {
            layer[0]
        } else {
            zeros(32)
        }
    } else {
        merkle_root(next_layer(layer))
    }
}

/// `s` padded with zero bytes to 32 bytes.
pub open spec fn pad32(s: Seq<u8>) -> Seq<u8> {
    s + zeros((32 - s.len()) as nat)
}

/// The 32-byte chunks of the blob `b`.
pub open spec fn blob_chunks(b: Seq<u8>) -> Seq<Seq<u8>> {
    Seq::new(
        FIELD_ELEMENTS_PER_BLOB as nat,
        |i: int| b.subrange(32 * i, 32 * i + 32),
    )
}

/// The hash tree root of a 48-byte commitment or proof.
pub open spec fn point_root(p: Seq<u8>) -> Seq<u8> {
    merkle_root(seq![p.subrange(0, 32), pad32(p.subrange(32, 48))])
}

/// The hash tree root of a sidecar: the Merkle root over the roots of its fields.
pub open spec fn sidecar_root(s: BlobSidecar) -> Seq<u8> {
    merkle_root(
        seq![
            s.block_root@,
            pad32(le_bytes(s.index)),
            pad32(le_bytes(s.slot)),
            s.block_parent_root@,
            pad32(le_bytes(s.proposer_index)),
            merkle_root(blob_chunks(s.blob@)),
            point_root(s.kzg_commitment@),
            point_root(s.kzg_proof@),
        ],
    )
}

/// The Merkle root over `leaves`, whose number is a power of two.
fn merkleize(leaves: Vec<Vec<u8>>) -> (r: Vec<u8>)
    requires
        leaves@.len() >= 1,
    ensures
        r@ == merkle_root(chunks_view(leaves@)),
        leaves@.len() >= 2 ==> r@.len() == 32,
{
    let ghost target = merkle_root(chunks_view(leaves@));
    let ghost n = leaves@.len();
    let mut layer = leaves;
    while layer.len() > 1
        invariant
            1 <= layer@.len() <= n,
            layer@.len() < n ==> forall|i: int| 0 <= i < layer@.len() ==> (#[trigger] layer@[i])@.len() == 32,
            merkle_root(chunks_view(layer@)) == target,
        decreases layer@.len(),
    {
        let len = layer.len();
        let half = len / 2;
        let mut next: Vec<Vec<u8>> = Vec::new();
        let mut k: usize = 0;
        while k < half
            invariant
                len == layer@.len(),
                half == len / 2,
                0 <= k <= half,
                next@.len() == k,
                len <= n,
                forall|m: int| 0 <= m < k ==> (#[trigger] next@[m])@.len() == 32,
                forall|m: int|
                    0 <= m < k ==> (#[trigger] next@[m])@ == sha256_of(
                        layer@[2 * m]@ + layer@[2 * m + 1]@,
                    ),
            decreases half - k,
        {
            assert(2 * k + 1 < len);
            let mut buf: Vec<u8> = Vec::new();
            push_bytes(&mut buf, layer[2 * k].as_slice());
            push_bytes(&mut buf, layer[2 * k + 1].as_slice());
            next.push(sha256(buf.as_slice()));
            k = k + 1;
        }
        assert(chunks_view(next@) =~= next_layer(chunks_view(layer@)));
        layer = next;
    }
    assert(chunks_view(layer@)[0] == layer@[0]@);
    match layer.pop() {
        Some(r) => r,
        None => Vec::new(),
    }
}

/// `bytes` padded with zero bytes to 32 bytes.
fn padded_chunk(bytes: &[u8]) -> (r: Vec<u8>)
    requires
        bytes@.len() <= 32,
    ensures
        r@ == pad32(bytes@),
{
    let mut r = slice_to_vec(bytes);
    while r.len() < 32
        invariant
            bytes@.len() <= r@.len() <= 32,
            r@.subrange(0, bytes@.len() as int) == bytes@,
            forall|i: int| bytes@.len() <= i < r@.len() ==> r@[i] == 0u8,
        decreases 32 - r@.len(),
    {
        r.push(0u8);
    }
    assert(r@ =~= pad32(bytes@));
    r
}

fn u64_chunk(x: u64) -> (r: Vec<u8>)
    ensures
        r@ == pad32(le_bytes(x)),
{
    let mut b: Vec<u8> = Vec::new();
    push_u64_le(&mut b, x);
    assert(b@ =~= le_bytes(x));
    padded_chunk(b.as_slice())
}

fn point_tree_root(p: &[u8; 48]) -> (r: Vec<u8>)
    ensures
        r@ == point_root(p@),
{
    let mut leaves: Vec<Vec<u8>> = Vec::new();
    leaves.push(slice_to_vec(slice_subrange(p, 0, 32)));
    leaves.push(padded_chunk(slice_subrange(p, 32, 48)));
    assert(chunks_view(leaves@) =~= seq![p@.subrange(0, 32), pad32(p@.subrange(32, 48))]);
    merkleize(leaves)
}

fn blob_tree_root(blob: &[u8]) -> (r: Vec<u8>)
    requires
        blob@.len() == BYTES_PER_BLOB,
    ensures
        r@ == merkle_root(blob_chunks(blob@)),
{
    let mut leaves: Vec<Vec<u8>> = Vec::new();
    let mut k: usize = 0;
    while k < FIELD_ELEMENTS_PER_BLOB
        invariant
            blob@.len() == BYTES_PER_BLOB,
            0 <= k <= FIELD_ELEMENTS_PER_BLOB,
            leaves@.len() == k,
            forall|m: int|
                0 <= m < k ==> (#[trigger] leaves@[m])@ == blob@.subrange(32 * m, 32 * m + 32),
        decreases FIELD_ELEMENTS_PER_BLOB - k,
    {
        let start = k * BYTES_PER_FIELD_ELEMENT;
        leaves.push(slice_to_vec(slice_subrange(blob, start, start + BYTES_PER_FIELD_ELEMENT)));
        k = k + 1;
    }
    assert(chunks_view(leaves@) =~= blob_chunks(blob@));
    merkleize(leaves)
}

impl BlobSidecar {
    /// The hash tree root of the sidecar.
    pub fn tree_hash_root(&self) -> (r: Vec<u8>)
        requires
            self.wf(),
        ensures
            r@ == sidecar_root(*self),
    {
        let mut leaves: Vec<Vec<u8>> = Vec::new();
        leaves.push(slice_to_vec(&self.block_root));
        leaves.push(u64_chunk(self.index));
        leaves.push(u64_chunk(self.slot));
        leaves.push(slice_to_vec(&self.block_parent_root));
        leaves.push(u64_chunk(self.proposer_index));
        leaves.push(blob_tree_root(self.blob.as_slice()));
        leaves.push(point_tree_root(&self.kzg_commitment));
        leaves.push(point_tree_root(&self.kzg_proof));
        assert(chunks_view(leaves@) =~= seq![
            self.block_root@,
            pad32(le_bytes(self.index)),
            pad32(le_bytes(self.slot)),
            self.block_parent_root@,
            pad32(le_bytes(self.proposer_index)),
            merkle_root(blob_chunks(self.blob@)),
            point_root(self.kzg_commitment@),
            point_root(self.kzg_proof@),
        ]);
        merkleize(leaves)
    }
}

/// The fork versions around one fork, and the epoch at which it happened.
#[derive(Clone, Copy, Debug)]
pub struct Fork {
    pub previous_version: [u8; 4],
    pub current_version: [u8; 4],
    pub epoch: u64,
}

/// The chain parameters that signing a sidecar reads.
#[derive(Clone, Copy, Debug)]
pub struct ChainSpec {
    pub slots_per_epoch: u64,
    pub domain_blob_sidecar: u32,
}

/// Why a sidecar could not be signed.
#[derive(Clone, Copy, Debug, PartialEq, Eq, Structural)]
pub enum SigningError {
    /// The secret key is not a valid scalar.
    InvalidSecretKey,
}

/// A sidecar together with its signature.
#[derive(Clone, Debug)]
pub struct SignedBlobSidecar {
    pub message: Arc<BlobSidecar>,
    pub signature: [u8; 96],
}

/// The fork version in force at `epoch`.
pub open spec fn fork_version_at(fork: Fork, epoch: u64) -> Seq<u8> {
    if epoch < fork.epoch {
        fork.previous_version@
    } else {
        fork.current_version@
    }
}

/// The four little-endian bytes of `x`.
pub open spec fn le_bytes4(x: u32) -> Seq<u8> {
    seq![x as u8, (x >> 8u32) as u8, (x >> 16u32) as u8, (x >> 24u32) as u8]
}

/// The domain for the domain type `domain_type`: its four bytes, then the
/// first 28 bytes of the root over the fork version and the genesis validators root.
pub open spec fn compute_domain(
    domain_type: u32,
    fork_version: Seq<u8>,
    genesis_validators_root: Seq<u8>,
) -> Seq<u8> {
    le_bytes4(domain_type) + merkle_root(seq![pad32(fork_version), genesis_validators_root]).subrange(
        0,
        28,
    )
}

/// The message that is signed for the sidecar `s`: the root over its own root
/// and the domain of the epoch of its slot.
pub open spec fn sidecar_signing_root(
    s: BlobSidecar,
    fork: Fork,
    genesis_validators_root: Seq<u8>,
    spec: ChainSpec,
) -> Seq<u8> {
    merkle_root(
        seq![
            sidecar_root(s),
            compute_domain(
                spec.domain_blob_sidecar,
                fork_version_at(fork, s.slot / spec.slots_per_epoch),
                genesis_validators_root,
            ),
        ],
    )
}

impl ChainSpec {
    /// The blob sidecar domain at `epoch`, under the fork version in force then.
    pub fn get_domain(&self, epoch: u64, fork: &Fork, genesis_validators_root: &[u8; 32]) -> (r:
        Vec<u8>)
        ensures
            r@ == compute_domain(
                self.domain_blob_sidecar,
                fork_version_at(*fork, epoch),
                genesis_validators_root@,
            ),
    {
        let version: &[u8; 4] = if epoch < fork.epoch {
            &fork.previous_version
        } else {
            &fork.current_version
        };
        let mut leaves: Vec<Vec<u8>> = Vec::new();
        leaves.push(padded_chunk(version));
        leaves.push(slice_to_vec(genesis_validators_root));
        assert(chunks_view(leaves@) =~= seq![pad32(version@), genesis_validators_root@]);
        let fork_data_root = merkleize(leaves);
        let d = self.domain_blob_sidecar;
        let mut r: Vec<u8> = Vec::new();
        r.push(d as u8);
        r.push((d >> 8u32) as u8);
        r.push((d >> 16u32) as u8);
        r.push((d >> 24u32) as u8);
        push_bytes(&mut r, slice_subrange(fork_data_root.as_slice(), 0, 28));
        r
    }
}

impl BlobSidecar {
    /// The root that is signed for the sidecar under the domain `domain`.
    pub fn signing_root(&self, domain: &[u8]) -> (r: Vec<u8>)
        requires
            self.wf(),
        ensures
            r@ == merkle_root(seq![sidecar_root(*self), domain@]),
    {
        let mut leaves: Vec<Vec<u8>> = Vec::new();
        leaves.push(self.tree_hash_root());
        leaves.push(slice_to_vec(domain));
        assert(chunks_view(leaves@) =~= seq![sidecar_root(*self), domain@]);
        merkleize(leaves)
    }

    /// Signs the sidecar with `secret_key` under the blob sidecar domain of the
    /// epoch of its slot, and wraps it with the signature.
    pub fn sign(
        self: Arc<Self>,
        secret_key: &[u8; 32],
        fork: &Fork,
        genesis_validators_root: [u8; 32],
        spec: &ChainSpec,
    ) -> (r: Result<SignedBlobSidecar, SigningError>)
        requires
            self.wf(),
            spec.slots_per_epoch > 0,
        ensures
            r is Ok <==> secret_key_in_range(secret_key@),
            match r {
                Ok(signed) => {
                    &&& signed.message == self
                    &&& signed.signature@ == bls_signature_of(
                        secret_key@,
                        sidecar_signing_root(*self, *fork, genesis_validators_root@, *spec),
                    )
                },
                Err(e) => e == SigningError::InvalidSecretKey,
            },
    {
        let signing_epoch = self.slot / spec.slots_per_epoch;
        let domain = spec.get_domain(signing_epoch, fork, &genesis_validators_root);
        let message = self.signing_root(domain.as_slice());
        match bls_sign(secret_key, message.as_slice()) {
            Ok(signature) => Ok(SignedBlobSidecar { message: self, signature }),
            Err(_) => Err(SigningError::InvalidSecretKey),
        }
    }
}

} // verus!
