use vstd::prelude::*;

verus! {

/// Length in bytes of one field element of a blob.
pub const BYTES_PER_FIELD_ELEMENT: usize = 32;

/// Number of field elements in one blob.
pub const FIELD_ELEMENTS_PER_BLOB: usize = 4096;

/// Length in bytes of one blob: `FIELD_ELEMENTS_PER_BLOB * BYTES_PER_FIELD_ELEMENT`.
pub const BYTES_PER_BLOB: usize = 131072;

/// The 32 big-endian bytes of the order of the BLS12-381 scalar field.
pub open spec fn bls_modulus_bytes() -> Seq<u8> {
    seq![0x73u8, 0xedu8, 0xa7u8, 0x53u8, 0x29u8, 0x9du8, 0x7du8, 0x48u8, 0x33u8, 0x39u8, 0xd8u8, 0x08u8, 0x09u8, 0xa1u8, 0xd8u8, 0x05u8, 0x53u8, 0xbdu8, 0xa4u8, 0x02u8, 0xffu8, 0xfeu8, 0x5bu8, 0xfeu8, 0xffu8, 0xffu8, 0xffu8, 0xffu8, 0x00u8, 0x00u8, 0x00u8, 0x01u8]
}

/// Whether `a` is below `b` in lexicographic order, which for byte strings of
/// one length is the order of the big-endian numbers they encode.
pub open spec fn bytes_lt(a: Seq<u8>, b: Seq<u8>) -> bool
    decreases a.len(),
{
    if a.len() == 0 || b.len() == 0 {
        false
    } else if a[0] < b[0] {
        true
    } else if a[0] == b[0] {
        bytes_lt(a.drop_first(), b.drop_first())
    } else {
        false
    }
}

/// Whether `s` is the big-endian encoding of a field element below the modulus.
pub open spec fn scalar_canonical(s: Seq<u8>) -> bool {
    s.len() == 32 && bytes_lt(s, bls_modulus_bytes())
}

/// The `i`-th field element of the blob `b`.
pub open spec fn field_element(b: Seq<u8>, i: int) -> Seq<u8> {
    b.subrange(BYTES_PER_FIELD_ELEMENT * i, BYTES_PER_FIELD_ELEMENT * i + BYTES_PER_FIELD_ELEMENT)
}

/// Whether every field element of the blob `b` is canonical.
pub open spec fn blob_canonical(b: Seq<u8>) -> bool {
    forall|i: int|
        0 <= i < FIELD_ELEMENTS_PER_BLOB ==> #[trigger] scalar_canonical(field_element(b, i))
}

/// Whether the 48 bytes `p` decode to a point of the G1 subgroup (the encoding
/// of a commitment or a proof that the engine accepts).
pub uninterp spec fn g1_bytes_valid(p: Seq<u8>) -> bool;

#[verifier::external_type_specification]
#[verifier::external_body]
pub struct ExCkzgError(c_kzg::Error);

/// The commitment that the engine computes for the blob `blob`.
pub uninterp spec fn commitment_of(blob: Seq<u8>) -> Seq<u8>;

/// Relies on c_kzg::KzgCommitment::blob_to_kzg_commitment under the Ethereum
/// trusted setup: the commitment is a function of the blob alone, is a G1 point,
/// and the call fails only when a field element of the blob is not canonical.
#[verifier::external_body]
pub(crate) fn engine_blob_to_commitment(blob: &[u8]) -> (r: Result<[u8; 48], c_kzg::Error>)
    requires
        blob@.len() == BYTES_PER_BLOB,
    ensures
        r is Ok <==> blob_canonical(blob@),
        r is Ok ==> r->Ok_0@ == commitment_of(blob@),
        r is Ok ==> g1_bytes_valid(r->Ok_0@),
{
    let blob = c_kzg::Blob::from_bytes(blob)?;
    let c = c_kzg::KzgCommitment::blob_to_kzg_commitment(&blob, c_kzg::ethereum_kzg_settings())?;
    Ok(c.to_bytes().into_inner())
}

/// The proof that the engine computes for the blob `blob` and the commitment `commitment`.
pub uninterp spec fn blob_proof_of(blob: Seq<u8>, commitment: Seq<u8>) -> Seq<u8>;

/// Relies on c_kzg::KzgProof::compute_blob_kzg_proof under the Ethereum trusted
/// setup: the proof is a function of the blob and the commitment alone, is a G1
/// point, and verifies against the blob's own commitment; the call fails only
/// when the commitment does not decode or the blob is not canonical.
#[verifier::external_body]
pub(crate) fn engine_compute_blob_proof(blob: &[u8], commitment: &[u8; 48]) -> (r: Result<
    [u8; 48],
    c_kzg::Error,
>)
    requires
        blob@.len() == BYTES_PER_BLOB,
    ensures
        r is Ok <==> (g1_bytes_valid(commitment@) && blob_canonical(blob@)),
        r is Ok ==> r->Ok_0@ == blob_proof_of(blob@, commitment@),
        r is Ok ==> g1_bytes_valid(r->Ok_0@),
        r is Ok ==> (commitment@ == commitment_of(blob@) ==> blob_proof_valid(
            commitment@,
            r->Ok_0@,
            blob@,
        )),
{
    let blob = c_kzg::Blob::from_bytes(blob)?;
    let c = c_kzg::Bytes48::new(*commitment);
    let p = c_kzg::KzgProof::compute_blob_kzg_proof(&blob, &c, c_kzg::ethereum_kzg_settings())?;
    Ok(p.to_bytes().into_inner())
}

/// The proof and the value `y = p(z)` that the engine computes when it opens the
/// polynomial of the blob `blob` at the point `z`.
pub uninterp spec fn evaluation_proof_of(blob: Seq<u8>, z: Seq<u8>) -> (Seq<u8>, Seq<u8>);

/// Relies on c_kzg::KzgProof::compute_kzg_proof under the Ethereum trusted setup:
/// the proof and the value are functions of the blob and the point alone, the
/// proof is a G1 point, the value is canonical, and the pair verifies against
/// the blob's own commitment (itself a G1 point); the call fails only when the blob or the point is
/// not canonical.
#[verifier::external_body]
pub(crate) fn engine_compute_evaluation_proof(blob: &[u8], z: &[u8; 32]) -> (r: Result<
    ([u8; 48], [u8; 32]),
    c_kzg::Error,
>)
    requires
        blob@.len() == BYTES_PER_BLOB,
    ensures
        r is Ok <==> (blob_canonical(blob@) && scalar_canonical(z@)),
        r is Ok ==> (r->Ok_0.0@, r->Ok_0.1@) == evaluation_proof_of(blob@, z@),
        r is Ok ==> (g1_bytes_valid(r->Ok_0.0@) && scalar_canonical(r->Ok_0.1@)),
        r is Ok ==> (g1_bytes_valid(commitment_of(blob@)) && evaluation_proof_valid(
            commitment_of(blob@),
            r->Ok_0.0@,
            z@,
            r->Ok_0.1@,
        )),
{
    let blob = c_kzg::Blob::from_bytes(blob)?;
    let z = c_kzg::Bytes32::new(*z);
    let (p, y) = c_kzg::KzgProof::compute_kzg_proof(&blob, &z, c_kzg::ethereum_kzg_settings())?;
    Ok((p.to_bytes().into_inner(), *y.as_ref()))
}

/// Whether the engine accepts `proof` as a proof that `commitment` commits to `blob`.
pub uninterp spec fn blob_proof_valid(commitment: Seq<u8>, proof: Seq<u8>, blob: Seq<u8>) -> bool;

/// Relies on c_kzg::KzgProof::verify_blob_kzg_proof under the Ethereum trusted
/// setup: the verdict is a function of the triplet alone, and the call fails
/// only when a point does not decode or the blob is not canonical.
#[verifier::external_body]
pub(crate) fn engine_verify_blob_proof(blob: &[u8], commitment: &[u8; 48], proof: &[u8; 48]) -> (r:
    Result<bool, c_kzg::Error>)
    requires
        blob@.len() == BYTES_PER_BLOB,
    ensures
        r is Ok <==> triplet_well_formed(commitment@, proof@, blob@),
        r is Ok ==> r->Ok_0 == blob_proof_valid(commitment@, proof@, blob@),
{
    let blob = c_kzg::Blob::from_bytes(blob)?;
    let c = c_kzg::Bytes48::new(*commitment);
    let p = c_kzg::Bytes48::new(*proof);
    c_kzg::KzgProof::verify_blob_kzg_proof(&blob, &c, &p, c_kzg::ethereum_kzg_settings())
}

/// Whether the engine's batch check accepts the aligned triplets
/// `(commitments[i], proofs[i], blobs[i])`.
pub uninterp spec fn blob_proof_batch_valid(
    commitments: Seq<Seq<u8>>,
    proofs: Seq<Seq<u8>>,
    blobs: Seq<Seq<u8>>,
) -> bool;

/// Whether the engine can read the triplet: both points decode and the blob is canonical.
pub open spec fn triplet_well_formed(commitment: Seq<u8>, proof: Seq<u8>, blob: Seq<u8>) -> bool {
    g1_bytes_valid(commitment) && g1_bytes_valid(proof) && blob_canonical(blob)
}

/// Whether the engine can read every triplet of an aligned batch.
pub open spec fn batch_well_formed(
    commitments: Seq<Seq<u8>>,
    proofs: Seq<Seq<u8>>,
    blobs: Seq<Seq<u8>>,
) -> bool {
    forall|i: int|
        0 <= i < blobs.len() ==> #[trigger] triplet_well_formed(commitments[i], proofs[i], blobs[i])
}

/// The byte contents of each blob of `blobs`.
pub open spec fn blobs_view(blobs: Seq<Vec<u8>>) -> Seq<Seq<u8>> {
    blobs.map_values(|b: Vec<u8>| b@)
}

/// The byte contents of each commitment or proof of `items`.
pub open spec fn points_view(items: Seq<[u8; 48]>) -> Seq<Seq<u8>> {
    items.map_values(|p: [u8; 48]| p@)
}

/// Relies on c_kzg::KzgProof::verify_blob_kzg_proof_batch under the Ethereum
/// trusted setup: the verdict is a function of the three sequences alone, and
/// for sequences of one length the call fails only when some triplet cannot be read.
#[verifier::external_body]
pub(crate) fn engine_verify_blob_proof_batch(
    commitments: &[[u8; 48]],
    blobs: &[Vec<u8>],
    proofs: &[[u8; 48]],
) -> (r: Result<bool, c_kzg::Error>)
    requires
        forall|i: int| 0 <= i < blobs@.len() ==> (#[trigger] blobs@[i])@.len() == BYTES_PER_BLOB,
        commitments@.len() == blobs@.len(),
        proofs@.len() == blobs@.len(),
    ensures
        r is Ok <==> batch_well_formed(
            points_view(commitments@),
            points_view(proofs@),
            blobs_view(blobs@),
        ),
        r is Ok ==> r->Ok_0 == blob_proof_batch_valid(
            points_view(commitments@),
            points_view(proofs@),
            blobs_view(blobs@),
        ),
{
    let blobs = blobs.iter().map(|b| c_kzg::Blob::from_bytes(b)).collect::<Result<Vec<_>, _>>()?;
    let cs: Vec<c_kzg::Bytes48> = commitments.iter().map(|c| c_kzg::Bytes48::new(*c)).collect();
    let ps: Vec<c_kzg::Bytes48> = proofs.iter().map(|p| c_kzg::Bytes48::new(*p)).collect();
    c_kzg::KzgProof::verify_blob_kzg_proof_batch(&blobs, &cs, &ps, c_kzg::ethereum_kzg_settings())
}

/// Whether the engine accepts `proof` as a proof that the polynomial committed to
/// by `commitment` takes the value `y` at the point `z`.
pub uninterp spec fn evaluation_proof_valid(
    commitment: Seq<u8>,
    proof: Seq<u8>,
    z: Seq<u8>,
    y: Seq<u8>,
) -> bool;

/// Relies on c_kzg::KzgProof::verify_kzg_proof under the Ethereum trusted setup:
/// the verdict is a function of its four inputs alone, and the call fails only
/// when a point does not decode or a scalar is not canonical.
#[verifier::external_body]
pub(crate) fn engine_verify_evaluation_proof(
    commitment: &[u8; 48],
    proof: &[u8; 48],
    z: &[u8; 32],
    y: &[u8; 32],
) -> (r: Result<bool, c_kzg::Error>)
    ensures
        r is Ok <==> (g1_bytes_valid(commitment@) && g1_bytes_valid(proof@) && scalar_canonical(
            z@,
        ) && scalar_canonical(y@)),
        r is Ok ==> r->Ok_0 == evaluation_proof_valid(commitment@, proof@, z@, y@),
{
    let c = c_kzg::Bytes48::new(*commitment);
    let p = c_kzg::Bytes48::new(*proof);
    let z = c_kzg::Bytes32::new(*z);
    let y = c_kzg::Bytes32::new(*y);
    c_kzg::KzgProof::verify_kzg_proof(&c, &z, &y, &p, c_kzg::ethereum_kzg_settings())
}

} // verus!
