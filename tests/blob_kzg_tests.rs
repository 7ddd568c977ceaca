use blob_kzg::blob_sidecar::{BlobIdentifier, BlobSidecar, BlobSidecarList, MAX_BLOBS_PER_BLOCK};
use std::sync::Arc;
use blob_kzg::engine::{BYTES_PER_BLOB, BYTES_PER_FIELD_ELEMENT, FIELD_ELEMENTS_PER_BLOB};
use blob_kzg::kzg_utils::{
    blob_to_kzg_commitment, compute_blob_kzg_proof, compute_kzg_proof, ssz_blob_to_crypto_blob,
    validate_blob, validate_blobs, verify_kzg_proof, KzgError,
};
use std::cmp::Ordering;

fn pattern_bytes(seed: u64) -> Vec<u8> {
    let mut state = seed.wrapping_mul(0x9E37_79B9_7F4A_7C15).wrapping_add(1);
    let mut out = Vec::with_capacity(BYTES_PER_BLOB);
    for _ in 0..BYTES_PER_BLOB {
        state ^= state << 13;
        state ^= state >> 7;
        state ^= state << 17;
        out.push((state >> 24) as u8);
    }
    out
}

fn valid_sidecar(seed: u64) -> BlobSidecar {
    BlobSidecar::random_valid(&pattern_bytes(seed)).expect("engine accepts a canonical blob")
}

#[test]
fn blob_constants_agree() {
    assert_eq!(FIELD_ELEMENTS_PER_BLOB * BYTES_PER_FIELD_ELEMENT, BYTES_PER_BLOB);
    assert_eq!(BYTES_PER_BLOB, 131072);
}

#[test]
fn convert_empty_buffer_is_input_size_error() {
    assert!(matches!(ssz_blob_to_crypto_blob(&[]), Err(KzgError::InputSizeError)));
}

#[test]
fn convert_exact_length_keeps_bytes() {
    let bytes = pattern_bytes(3);
    let blob = ssz_blob_to_crypto_blob(&bytes).unwrap();
    assert_eq!(blob.bytes, bytes);
    assert!(matches!(
        ssz_blob_to_crypto_blob(&bytes[..BYTES_PER_BLOB - 1]),
        Err(KzgError::InputSizeError)
    ));
}

#[test]
fn commitment_of_zero_blob_is_point_at_infinity() {
    let zero = vec![0u8; BYTES_PER_BLOB];
    let c = blob_to_kzg_commitment(&zero).unwrap();
    let mut expected = [0u8; 48];
    expected[0] = 0xc0;
    assert_eq!(c, expected);
}

#[test]
fn commitment_rejects_wrong_length() {
    assert_eq!(blob_to_kzg_commitment(&[1, 2, 3]), Err(KzgError::InputSizeError));
    assert_eq!(compute_blob_kzg_proof(&[], &[0u8; 48]), Err(KzgError::InputSizeError));
    assert_eq!(compute_kzg_proof(&[0u8; 5], &[0u8; 32]), Err(KzgError::InputSizeError));
}

#[test]
fn commitment_rejects_non_canonical_blob() {
    let blob = vec![0xffu8; BYTES_PER_BLOB];
    assert_eq!(blob_to_kzg_commitment(&blob), Err(KzgError::EngineError));
}

#[test]
fn computed_proof_validates() {
    let s = valid_sidecar(11);
    let c = blob_to_kzg_commitment(&s.blob).unwrap();
    let p = compute_blob_kzg_proof(&s.blob, &c).unwrap();
    assert_eq!(c, s.kzg_commitment);
    assert_eq!(p, s.kzg_proof);
    assert_eq!(validate_blob(&s.blob, &c, &p), Ok(true));
}

#[test]
fn mutated_blob_fails_validation() {
    let s = valid_sidecar(12);
    let mut blob = s.blob.clone();
    blob[1] ^= 1;
    assert_eq!(validate_blob(&blob, &s.kzg_commitment, &s.kzg_proof), Ok(false));
}

#[test]
fn mutated_commitment_or_proof_fails_validation() {
    let s = valid_sidecar(13);
    let mut c = s.kzg_commitment;
    c[47] ^= 1;
    assert_ne!(validate_blob(&s.blob, &c, &s.kzg_proof), Ok(true));
    let mut p = s.kzg_proof;
    p[47] ^= 1;
    assert_ne!(validate_blob(&s.blob, &s.kzg_commitment, &p), Ok(true));
}

#[test]
fn validate_blob_wrong_length_is_input_size_error() {
    assert_eq!(validate_blob(&[0u8; 10], &[0u8; 48], &[0u8; 48]), Err(KzgError::InputSizeError));
}

#[test]
fn batch_of_valid_triplets_is_true() {
    let a = valid_sidecar(21);
    let b = valid_sidecar(22);
    let r = validate_blobs(
        &[a.kzg_commitment, b.kzg_commitment],
        &[a.blob.clone(), b.blob.clone()],
        &[a.kzg_proof, b.kzg_proof],
    );
    assert_eq!(r, Ok(true));
}

#[test]
fn batch_with_one_invalid_triplet_is_false() {
    let a = valid_sidecar(23);
    let b = valid_sidecar(24);
    let r = validate_blobs(
        &[a.kzg_commitment, b.kzg_commitment],
        &[a.blob.clone(), b.blob.clone()],
        &[b.kzg_proof, a.kzg_proof],
    );
    assert_eq!(r, Ok(false));
    let r = validate_blobs(
        &[a.kzg_commitment, b.kzg_commitment],
        &[a.blob.clone(), b.blob.clone()],
        &[a.kzg_proof, a.kzg_proof],
    );
    assert_eq!(r, Ok(false));
}

#[test]
fn batch_of_one_matches_single() {
    let a = valid_sidecar(25);
    let single = validate_blob(&a.blob, &a.kzg_commitment, &a.kzg_proof);
    let batch = validate_blobs(&[a.kzg_commitment], &[a.blob.clone()], &[a.kzg_proof]);
    assert_eq!(single, Ok(true));
    assert_eq!(batch, single);
    let b = valid_sidecar(26);
    let single = validate_blob(&a.blob, &a.kzg_commitment, &b.kzg_proof);
    let batch = validate_blobs(&[a.kzg_commitment], &[a.blob.clone()], &[b.kzg_proof]);
    assert_eq!(single, Ok(false));
    assert_eq!(batch, single);
}

#[test]
fn misaligned_batch_is_false() {
    let a = valid_sidecar(27);
    let b = valid_sidecar(28);
    let r = validate_blobs(
        &[a.kzg_commitment, b.kzg_commitment],
        &[a.blob.clone(), b.blob.clone()],
        &[a.kzg_proof],
    );
    assert_eq!(r, Ok(false));
    let r = validate_blobs(&[a.kzg_commitment], &[a.blob.clone(), b.blob.clone()], &[a.kzg_proof]);
    assert_eq!(r, Ok(false));
}

#[test]
fn empty_batch_is_true() {
    assert_eq!(validate_blobs(&[], &[], &[]), Ok(true));
}

#[test]
fn batch_with_short_blob_is_input_size_error() {
    let a = valid_sidecar(29);
    let r = validate_blobs(
        &[a.kzg_commitment, a.kzg_commitment],
        &[a.blob.clone(), vec![0u8; 3]],
        &[a.kzg_proof, a.kzg_proof],
    );
    assert_eq!(r, Err(KzgError::InputSizeError));
}

#[test]
fn evaluation_proof_round_trip() {
    let s = valid_sidecar(31);
    let mut z = [0u8; 32];
    z[31] = 5;
    let (proof, y) = compute_kzg_proof(&s.blob, &z).unwrap();
    assert_eq!(verify_kzg_proof(&s.kzg_commitment, &proof, &z, &y), Ok(true));
    let mut wrong_y = y;
    wrong_y[31] ^= 1;
    assert_eq!(verify_kzg_proof(&s.kzg_commitment, &proof, &z, &wrong_y), Ok(false));
}

#[test]
fn evaluation_of_zero_blob_is_zero() {
    let zero = vec![0u8; BYTES_PER_BLOB];
    let mut z = [0u8; 32];
    z[31] = 9;
    let (_, y) = compute_kzg_proof(&zero, &z).unwrap();
    assert_eq!(y, [0u8; 32]);
}

#[test]
fn identifier_order_ignores_block_root() {
    let a = BlobIdentifier { block_root: [1u8; 32], index: 3 };
    let b = BlobIdentifier { block_root: [2u8; 32], index: 3 };
    let c = BlobIdentifier { block_root: [0u8; 32], index: 4 };
    assert_eq!(a.partial_cmp(&b), Some(Ordering::Equal));
    assert_eq!(a.cmp(&b), Ordering::Equal);
    assert_ne!(a, b);
    assert!(a < c);
    assert_eq!(c.cmp(&a), Ordering::Greater);
    assert_eq!(a, BlobIdentifier { block_root: [1u8; 32], index: 3 });
}

#[test]
fn sidecar_order_by_index() {
    let mut a = BlobSidecar::empty();
    let mut b = BlobSidecar::empty();
    a.index = 2;
    a.block_root = [7u8; 32];
    b.index = 1;
    assert_eq!(a.partial_cmp(&b), Some(Ordering::Greater));
    assert_eq!(b.cmp(&a), Ordering::Less);
    assert!(b < a);
    assert_ne!(a, b);
    assert_eq!(a.clone(), a);
}

#[test]
fn sidecar_id_projects_root_and_index() {
    let mut s = BlobSidecar::empty();
    s.block_root = [9u8; 32];
    s.index = MAX_BLOBS_PER_BLOCK as u64 - 1;
    let id = s.id();
    assert_eq!(id, BlobIdentifier { block_root: [9u8; 32], index: 5 });
}

#[test]
fn max_size_matches_encoding() {
    assert_eq!(BlobSidecar::max_size(), 131256);
    assert_eq!(BlobSidecar::empty().as_ssz_bytes().len(), BlobSidecar::max_size());
    let mut s = valid_sidecar(41);
    s.index = 3;
    s.slot = u64::MAX;
    s.proposer_index = 77;
    assert_eq!(s.as_ssz_bytes().len(), BlobSidecar::max_size());
}

#[test]
fn encoding_layout() {
    let mut s = BlobSidecar::empty();
    s.block_root = [1u8; 32];
    s.index = 0x0102;
    s.slot = 0x0a0b0c0d;
    s.block_parent_root = [2u8; 32];
    s.proposer_index = 5;
    s.kzg_commitment = [3u8; 48];
    s.kzg_proof = [4u8; 48];
    let bytes = s.as_ssz_bytes();
    assert_eq!(&bytes[0..32], &[1u8; 32]);
    assert_eq!(&bytes[32..40], &[2, 1, 0, 0, 0, 0, 0, 0]);
    assert_eq!(&bytes[40..48], &[0x0d, 0x0c, 0x0b, 0x0a, 0, 0, 0, 0]);
    assert_eq!(&bytes[48..80], &[2u8; 32]);
    assert_eq!(&bytes[80..88], &[5, 0, 0, 0, 0, 0, 0, 0]);
    let tail = 88 + BYTES_PER_BLOB;
    assert!(bytes[88..tail].iter().all(|b| *b == 0));
    assert_eq!(&bytes[tail..tail + 48], &[3u8; 48]);
    assert_eq!(&bytes[tail + 48..], &[4u8; 48]);
}

#[test]
fn random_valid_is_canonical_and_validates() {
    let bytes = pattern_bytes(51);
    let s = BlobSidecar::random_valid(&bytes).unwrap();
    for i in 0..BYTES_PER_BLOB {
        if i % BYTES_PER_FIELD_ELEMENT == 0 {
            assert_eq!(s.blob[i], 0);
        } else {
            assert_eq!(s.blob[i], bytes[i]);
        }
    }
    assert_eq!(s.index, 0);
    assert_eq!(s.slot, 0);
    assert_eq!(validate_blob(&s.blob, &s.kzg_commitment, &s.kzg_proof), Ok(true));
}

#[test]
fn random_valid_rejects_wrong_length() {
    assert!(matches!(BlobSidecar::random_valid(&[0u8; 4]), Err(KzgError::InputSizeError)));
}

#[test]
fn sidecar_list_is_bounded() {
    let many: Vec<Arc<BlobSidecar>> =
        (0..MAX_BLOBS_PER_BLOCK + 1).map(|_| Arc::new(BlobSidecar::empty())).collect();
    assert!(BlobSidecarList::new(many).is_none());
    let mut a = BlobSidecar::empty();
    a.index = 1;
    let two = vec![Arc::new(BlobSidecar::empty()), Arc::new(a)];
    let list = BlobSidecarList::new(two).unwrap();
    assert_eq!(list.len(), 2);
    assert_eq!(list.get(1).unwrap().index, 1);
    assert!(list.get(2).is_none());
}

#[test]
fn non_canonical_blob_is_engine_error_in_validation() {
    let s = valid_sidecar(61);
    let mut blob = s.blob.clone();
    blob[0] = 0xff;
    assert_eq!(validate_blob(&blob, &s.kzg_commitment, &s.kzg_proof), Err(KzgError::EngineError));
}

#[test]
fn malformed_points_are_engine_errors() {
    let s = valid_sidecar(62);
    let bad = [0xffu8; 48];
    assert_eq!(validate_blob(&s.blob, &bad, &s.kzg_proof), Err(KzgError::EngineError));
    let z = [0u8; 32];
    assert_eq!(verify_kzg_proof(&bad, &s.kzg_proof, &z, &z), Err(KzgError::EngineError));
    let big = [0xffu8; 32];
    assert_eq!(verify_kzg_proof(&s.kzg_commitment, &s.kzg_proof, &big, &z), Err(KzgError::EngineError));
    assert_eq!(compute_kzg_proof(&s.blob, &big), Err(KzgError::EngineError));
}

#[test]
fn repeated_calls_agree() {
    let bytes = pattern_bytes(63);
    let a = BlobSidecar::random_valid(&bytes).unwrap();
    let b = BlobSidecar::random_valid(&bytes).unwrap();
    assert!(a == b);
    assert_eq!(blob_to_kzg_commitment(&a.blob), blob_to_kzg_commitment(&b.blob));
}
