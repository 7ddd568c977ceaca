use vstd::prelude::*;
use vstd::slice::slice_to_vec;
use crate::engine::{
    batch_well_formed, blob_canonical, g1_bytes_valid, scalar_canonical, triplet_well_formed,
    blob_proof_batch_valid, blob_proof_of, blob_proof_valid, blobs_view, commitment_of,
    engine_blob_to_commitment, engine_compute_blob_proof, engine_compute_evaluation_proof,
    engine_verify_blob_proof, engine_verify_blob_proof_batch, engine_verify_evaluation_proof,
    evaluation_proof_of, evaluation_proof_valid, points_view, BYTES_PER_BLOB,
};

verus! {

/// Why a commitment operation did not produce a result.
#[derive(Debug, Clone, Copy, PartialEq, Eq, Structural)]
pub enum KzgError {
    /// A blob buffer does not have the length `BYTES_PER_BLOB`.
    InputSizeError,
    /// The commitment engine rejected its input or failed.
    EngineError,
}

/// A blob in the fixed-size form that the commitment engine takes.
pub struct CryptoBlob {
    pub bytes: Vec<u8>,
}

impl CryptoBlob {
    pub open spec fn wf(&self) -> bool {
        self.bytes@.len() == BYTES_PER_BLOB
    }
}

/// The result of validating the triplet `(c, p, b)`: an input size error when
/// the blob has the wrong length, the engine's verdict when it can read the
/// triplet, and an engine error otherwise.
pub open spec fn single_result(c: Seq<u8>, p: Seq<u8>, b: Seq<u8>) -> Result<bool, KzgError> {
    if b.len() != BYTES_PER_BLOB {
        Err(KzgError::InputSizeError)
    } else if triplet_well_formed(c, p, b) {
        Ok(blob_proof_valid(c, p, b))
    } else {
        Err(KzgError::EngineError)
    }
}

/// Whether the three sequences of a batch are aligned by position.
pub open spec fn aligned(cs: Seq<Seq<u8>>, bs: Seq<Seq<u8>>, ps: Seq<Seq<u8>>) -> bool {
    cs.len() == bs.len() && ps.len() == bs.len()
}

/// Whether some blob of `bs` has the wrong length.
pub open spec fn some_blob_mis_sized(bs: Seq<Seq<u8>>) -> bool {
    exists|i: int| 0 <= i < bs.len() && (#[trigger] bs[i]).len() != BYTES_PER_BLOB
}

/// The result of validating a batch: `false` for misaligned sequences, `true`
/// for an empty batch, the result of a single validation for a batch of one,
/// and otherwise an input size error if a blob has the wrong length, else the
/// engine's batch verdict when it can read every triplet, else an engine error.
pub open spec fn batch_result(cs: Seq<Seq<u8>>, bs: Seq<Seq<u8>>, ps: Seq<Seq<u8>>) -> Result<
    bool,
    KzgError,
> {
    if !aligned(cs, bs, ps) {
        Ok(false)
    } else if bs.len() == 0 {
        Ok(true)
    } else if bs.len() == 1 {
        single_result(cs[0], ps[0], bs[0])
    } else if some_blob_mis_sized(bs) {
        Err(KzgError::InputSizeError)
    } else if batch_well_formed(cs, ps, bs) {
        Ok(blob_proof_batch_valid(cs, ps, bs))
    } else {
        Err(KzgError::EngineError)
    }
}

/// The result of verifying an evaluation proof: the engine's verdict when both
/// points decode and both scalars are canonical, an engine error otherwise.
pub open spec fn evaluation_result(c: Seq<u8>, p: Seq<u8>, z: Seq<u8>, y: Seq<u8>) -> Result<
    bool,
    KzgError,
> {
    if g1_bytes_valid(c) && g1_bytes_valid(p) && scalar_canonical(z) && scalar_canonical(y) {
        Ok(evaluation_proof_valid(c, p, z, y))
    } else {
        Err(KzgError::EngineError)
    }
}

/// Converts a blob buffer into the form that the commitment engine takes.
pub fn ssz_blob_to_crypto_blob(blob: &[u8]) -> (r: Result<CryptoBlob, KzgError>)
    ensures
        r is Ok <==> blob@.len() == BYTES_PER_BLOB,
        r is Ok ==> r->Ok_0.bytes@ == blob@ && r->Ok_0.wf(),
        r is Err ==> r->Err_0 == KzgError::InputSizeError,
{
    if blob.len() != BYTES_PER_BLOB {
        return Err(KzgError::InputSizeError);
    }
    let bytes = slice_to_vec(blob);
    Ok(CryptoBlob { bytes })
}

/// Validates a single blob-commitment-proof triplet.
pub fn validate_blob(blob: &[u8], kzg_commitment: &[u8; 48], kzg_proof: &[u8; 48]) -> (r: Result<
    bool,
    KzgError,
>)
    ensures
        r == single_result(kzg_commitment@, kzg_proof@, blob@),
{
    let crypto_blob = ssz_blob_to_crypto_blob(blob)?;
    match engine_verify_blob_proof(crypto_blob.bytes.as_slice(), kzg_commitment, kzg_proof) {
        Ok(v) => Ok(v),
        Err(_) => Err(KzgError::EngineError),
    }
}

/// Validates a batch of blob-commitment-proof triplets, aligned by position.
pub fn validate_blobs(
    expected_kzg_commitments: &[[u8; 48]],
    blobs: &[Vec<u8>],
    kzg_proofs: &[[u8; 48]],
) -> (r: Result<bool, KzgError>)
    ensures
        r == batch_result(
            points_view(expected_kzg_commitments@),
            blobs_view(blobs@),
            points_view(kzg_proofs@),
        ),
{
    let n = blobs.len();
    if expected_kzg_commitments.len() != n || kzg_proofs.len() != n {
        return Ok(false);
    }
    if n == 0 {
        return Ok(true);
    }
    if n == 1 {
        return validate_blob(blobs[0].as_slice(), &expected_kzg_commitments[0], &kzg_proofs[0]);
    }
    let ghost bs = blobs_view(blobs@);
    assert(bs.len() == n);
    assert(aligned(points_view(expected_kzg_commitments@), bs, points_view(kzg_proofs@)));
    let mut i: usize = 0;
    while i < n
        invariant
            n == blobs@.len(),
            bs == blobs_view(blobs@),
            n > 1,
            aligned(points_view(expected_kzg_commitments@), bs, points_view(kzg_proofs@)),
            0 <= i <= n,
            forall|j: int| 0 <= j < i ==> (#[trigger] blobs@[j])@.len() == BYTES_PER_BLOB,
        decreases n - i,
    {
        if blobs[i].len() != BYTES_PER_BLOB {
            assert(bs[i as int].len() != BYTES_PER_BLOB);
            assert(some_blob_mis_sized(bs));
            return Err(KzgError::InputSizeError);
        }
        i = i + 1;
    }
    assert(!some_blob_mis_sized(bs)) by {
        assert forall|j: int| 0 <= j < bs.len() implies (#[trigger] bs[j]).len()
            == BYTES_PER_BLOB by {
            assert(blobs@[j]@.len() == BYTES_PER_BLOB);
        }
    }
    match engine_verify_blob_proof_batch(expected_kzg_commitments, blobs, kzg_proofs) {
        Ok(v) => Ok(v),
        Err(_) => Err(KzgError::EngineError),
    }
}

/// Computes the proof for a blob and its commitment.
pub fn compute_blob_kzg_proof(blob: &[u8], kzg_commitment: &[u8; 48]) -> (r: Result<
    [u8; 48],
    KzgError,
>)
    ensures
        blob@.len() != BYTES_PER_BLOB ==> r == Err::<[u8; 48], KzgError>(KzgError::InputSizeError),
        blob@.len() == BYTES_PER_BLOB ==> (r is Ok <==> (g1_bytes_valid(kzg_commitment@)
            && blob_canonical(blob@))),
        blob@.len() == BYTES_PER_BLOB ==> match r {
            Ok(p) => p@ == blob_proof_of(blob@, kzg_commitment@),
            Err(e) => e == KzgError::EngineError,
        },
        r is Ok && kzg_commitment@ == commitment_of(blob@) ==> single_result(
            kzg_commitment@,
            r->Ok_0@,
            blob@,
        ) == Ok::<bool, KzgError>(true),
{
    let crypto_blob = ssz_blob_to_crypto_blob(blob)?;
    match engine_compute_blob_proof(crypto_blob.bytes.as_slice(), kzg_commitment) {
        Ok(p) => Ok(p),
        Err(_) => Err(KzgError::EngineError),
    }
}

/// Computes the commitment for a blob.
pub fn blob_to_kzg_commitment(blob: &[u8]) -> (r: Result<[u8; 48], KzgError>)
    ensures
        blob@.len() != BYTES_PER_BLOB ==> r == Err::<[u8; 48], KzgError>(KzgError::InputSizeError),
        blob@.len() == BYTES_PER_BLOB ==> (r is Ok <==> blob_canonical(blob@)),
        blob@.len() == BYTES_PER_BLOB ==> match r {
            Ok(c) => c@ == commitment_of(blob@) && g1_bytes_valid(c@),
            Err(e) => e == KzgError::EngineError,
        },
{
    let crypto_blob = ssz_blob_to_crypto_blob(blob)?;
    match engine_blob_to_commitment(crypto_blob.bytes.as_slice()) {
        Ok(c) => Ok(c),
        Err(_) => Err(KzgError::EngineError),
    }
}

/// Computes the proof that the polynomial of a blob takes some value at the
/// point `z`, and returns it with that value.
pub fn compute_kzg_proof(blob: &[u8], z: &[u8; 32]) -> (r: Result<([u8; 48], [u8; 32]), KzgError>)
    ensures
        blob@.len() != BYTES_PER_BLOB ==> r == Err::<([u8; 48], [u8; 32]), KzgError>(
            KzgError::InputSizeError,
        ),
        blob@.len() == BYTES_PER_BLOB ==> (r is Ok <==> (blob_canonical(blob@)
            && scalar_canonical(z@))),
        blob@.len() == BYTES_PER_BLOB ==> match r {
            Ok(py) => (py.0@, py.1@) == evaluation_proof_of(blob@, z@),
            Err(e) => e == KzgError::EngineError,
        },
        r is Ok ==> evaluation_result(commitment_of(blob@), r->Ok_0.0@, z@, r->Ok_0.1@) == Ok::<
            bool,
            KzgError,
        >(true),
{
    let crypto_blob = ssz_blob_to_crypto_blob(blob)?;
    match engine_compute_evaluation_proof(crypto_blob.bytes.as_slice(), z) {
        Ok(py) => Ok(py),
        Err(_) => Err(KzgError::EngineError),
    }
}

/// Verifies a proof that the polynomial committed to by `kzg_commitment` takes
/// the value `y` at the point `z`.
pub fn verify_kzg_proof(kzg_commitment: &[u8; 48], kzg_proof: &[u8; 48], z: &[u8; 32], y: &[u8; 32]) -> (r:
    Result<bool, KzgError>)
    ensures
        r == evaluation_result(kzg_commitment@, kzg_proof@, z@, y@),
{
    match engine_verify_evaluation_proof(kzg_commitment, kzg_proof, z, y) {
        Ok(v) => Ok(v),
        Err(_) => Err(KzgError::EngineError),
    }
}

/// A batch of exactly one triplet gives the same result as a single
/// validation of that triplet.
pub proof fn lemma_batch_of_one_is_single(
    cs: Seq<Seq<u8>>,
    bs: Seq<Seq<u8>>,
    ps: Seq<Seq<u8>>,
)
    requires
        cs.len() == 1,
        bs.len() == 1,
        ps.len() == 1,
    ensures
        batch_result(cs, bs, ps) == single_result(cs[0], ps[0], bs[0]),
{
}

/// A batch whose three sequences differ in length is answered with `false`,
/// never with an error.
pub proof fn lemma_misaligned_batch_is_false(
    cs: Seq<Seq<u8>>,
    bs: Seq<Seq<u8>>,
    ps: Seq<Seq<u8>>,
)
    requires
        !aligned(cs, bs, ps),
    ensures
        batch_result(cs, bs, ps) == Ok::<bool, KzgError>(false),
{
}

} // verus!
