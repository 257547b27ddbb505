//! Tests of the fragment store and the streaming assembler.

use verichain_core::{
    calculate_hash, CoreError, ModelChunk, ModelMetadata, ModelStorage,
};

fn chunk(id: u32, data: Vec<u8>) -> ModelChunk {
    let hash = calculate_hash(&data);
    ModelChunk { id, data, hash }
}

fn metadata(total_chunks: u32, original_size: u64) -> ModelMetadata {
    ModelMetadata::new("model.onnx".to_string(), original_size, total_chunks, 1)
}

fn bytes(fill: u8, len: usize) -> Vec<u8> {
    vec![fill; len]
}

#[test]
fn end_to_end_three_fragments() {
    // Declare 3 fragments totaling 300 bytes; upload in arrival order 1, 0, 2.
    let mut storage = ModelStorage::new();
    storage.store_metadata(metadata(3, 300)).unwrap();
    storage.store_chunk(chunk(1, bytes(0xBB, 100))).unwrap();
    storage.store_chunk(chunk(0, bytes(0xAA, 100))).unwrap();
    storage.store_chunk(chunk(2, bytes(0xCC, 100))).unwrap();
    assert!(storage.is_upload_complete());

    storage.start_initialization().unwrap();
    let p1 = storage.process_chunks_batch(2).unwrap();
    assert_eq!(p1.processed, 2);
    assert_eq!(p1.next_ordinal, 2);
    assert_eq!(p1.total_chunks, 3);
    assert!(!storage.is_initialized());

    let p2 = storage.process_chunks_batch(2).unwrap();
    assert_eq!(p2.processed, 1);
    assert_eq!(p2.next_ordinal, 3);
    assert!(storage.is_initialized());

    // The artifact is the concatenation in ordinal order, not arrival order.
    let mut expected = bytes(0xAA, 100);
    expected.extend_from_slice(&bytes(0xBB, 100));
    expected.extend_from_slice(&bytes(0xCC, 100));
    assert_eq!(storage.get_model_data().unwrap(), &expected);
    assert_eq!(
        storage.get_artifact_digest().unwrap(),
        &calculate_hash(&expected)
    );
}

#[test]
fn missing_fragment_fails_whole_batch() {
    // Declare 3 fragments, upload only ordinals 0 and 2.
    let mut storage = ModelStorage::new();
    storage.store_metadata(metadata(3, 300)).unwrap();
    storage.store_chunk(chunk(0, bytes(1, 100))).unwrap();
    storage.store_chunk(chunk(2, bytes(3, 100))).unwrap();
    storage.start_initialization().unwrap();

    let r = storage.process_chunks_batch(3);
    assert!(matches!(r, Err(CoreError::MissingFragment(1))));
    // No partial commit: the cursor stays at zero.
    let (processed, total) = storage.get_initialization_progress();
    assert_eq!(processed, 0);
    assert_eq!(total, 3);
    assert_eq!(storage.current_size_bytes(), 0);
    assert!(!storage.is_initialized());
}

#[test]
fn integrity_mismatch_rejects_without_mutation() {
    let mut storage = ModelStorage::new();
    storage.store_metadata(metadata(2, 8)).unwrap();
    let bad = ModelChunk {
        id: 0,
        data: vec![1, 2, 3, 4],
        hash: calculate_hash(&[9, 9, 9]),
    };
    let r = storage.store_chunk(bad);
    assert!(matches!(r, Err(CoreError::IntegrityMismatch)));
    let (_, uploaded, missing, complete, _) = storage.get_upload_stats();
    assert_eq!(uploaded, 0);
    assert_eq!(missing, vec![0, 1]);
    assert!(!complete);
}

#[test]
fn reupload_same_fragment_yields_same_artifact() {
    let mut once = ModelStorage::new();
    let mut twice = ModelStorage::new();
    for storage in [&mut once, &mut twice] {
        storage.store_metadata(metadata(2, 6)).unwrap();
        storage.store_chunk(chunk(0, vec![1, 2, 3])).unwrap();
        storage.store_chunk(chunk(1, vec![4, 5, 6])).unwrap();
    }
    // A retried upload of the same ordinal with identical bytes is accepted.
    twice.store_chunk(chunk(0, vec![1, 2, 3])).unwrap();

    once.start_initialization().unwrap();
    twice.start_initialization().unwrap();
    once.process_chunks_batch(2).unwrap();
    twice.process_chunks_batch(2).unwrap();
    assert_eq!(once.get_model_data().unwrap(), twice.get_model_data().unwrap());
    assert_eq!(once.get_model_data().unwrap(), &vec![1, 2, 3, 4, 5, 6]);
}

#[test]
fn assembly_is_batch_size_invariant() {
    let payloads: Vec<Vec<u8>> = (0..4u8).map(|i| vec![i; 10]).collect();
    let mut one_batch = ModelStorage::new();
    let mut many_batches = ModelStorage::new();
    for storage in [&mut one_batch, &mut many_batches] {
        storage.store_metadata(metadata(4, 40)).unwrap();
        for (i, p) in payloads.iter().enumerate() {
            storage.store_chunk(chunk(i as u32, p.clone())).unwrap();
        }
        storage.start_initialization().unwrap();
    }
    one_batch.process_chunks_batch(4).unwrap();
    for _ in 0..4 {
        many_batches.process_chunks_batch(1).unwrap();
    }
    assert!(one_batch.is_initialized());
    assert!(many_batches.is_initialized());
    assert_eq!(
        one_batch.get_model_data().unwrap(),
        many_batches.get_model_data().unwrap()
    );
    assert_eq!(
        one_batch.get_artifact_digest().unwrap(),
        many_batches.get_artifact_digest().unwrap()
    );
}

#[test]
fn size_mismatch_never_reaches_complete() {
    // Fragments sum to 300 bytes but the declaration promises 250.
    let mut storage = ModelStorage::new();
    storage.store_metadata(metadata(3, 250)).unwrap();
    for i in 0..3u32 {
        storage.store_chunk(chunk(i, bytes(i as u8, 100))).unwrap();
    }
    storage.start_initialization().unwrap();
    let r = storage.process_chunks_batch(3);
    assert!(matches!(r, Err(CoreError::SizeMismatch)));
    assert!(!storage.is_initialized());
    let status = storage.status();
    assert!(status.is_streaming);
    assert!(!status.is_initialized);
    assert_eq!(status.processed_chunks, 3);
    assert_eq!(status.current_size_bytes, 300);
    // Retrying at the boundary reports the same cause and stays in progress.
    let again = storage.process_chunks_batch(1);
    assert!(matches!(again, Err(CoreError::SizeMismatch)));
    assert!(!storage.is_initialized());
}

#[test]
fn batch_size_outside_range_is_rejected() {
    let mut storage = ModelStorage::new();
    storage.store_metadata(metadata(1, 4)).unwrap();
    storage.store_chunk(chunk(0, vec![1, 2, 3, 4])).unwrap();
    storage.start_initialization().unwrap();
    assert!(matches!(
        storage.process_chunks_batch(0),
        Err(CoreError::InvalidBatchSize)
    ));
    assert!(matches!(
        storage.process_chunks_batch(201),
        Err(CoreError::InvalidBatchSize)
    ));
    // 200 itself is accepted.
    assert!(storage.process_chunks_batch(200).is_ok());
}

#[test]
fn state_machine_misuse_is_reported() {
    let mut storage = ModelStorage::new();
    assert!(matches!(
        storage.process_chunks_batch(1),
        Err(CoreError::NotStarted)
    ));
    assert!(matches!(
        storage.start_initialization(),
        Err(CoreError::ModelNotReady)
    ));
    storage.store_metadata(metadata(1, 2)).unwrap();
    storage.store_chunk(chunk(0, vec![7, 8])).unwrap();
    storage.start_initialization().unwrap();
    assert!(matches!(
        storage.start_initialization(),
        Err(CoreError::AlreadyInProgress)
    ));
    assert!(matches!(
        storage.store_chunk(chunk(0, vec![7, 8])),
        Err(CoreError::AlreadyInProgress)
    ));
    assert!(matches!(
        storage.store_metadata(metadata(1, 2)),
        Err(CoreError::AlreadyInProgress)
    ));
    storage.process_chunks_batch(1).unwrap();
    assert!(storage.is_initialized());
    assert!(matches!(
        storage.start_initialization(),
        Err(CoreError::AlreadyComplete)
    ));
    assert!(matches!(
        storage.store_chunk(chunk(0, vec![7, 8])),
        Err(CoreError::AlreadyComplete)
    ));
    assert!(matches!(
        storage.process_chunks_batch(1),
        Err(CoreError::AlreadyComplete)
    ));
}

#[test]
fn out_of_range_ordinal_is_rejected() {
    let mut storage = ModelStorage::new();
    storage.store_metadata(metadata(2, 10)).unwrap();
    let r = storage.store_chunk(chunk(2, vec![1]));
    assert!(matches!(r, Err(CoreError::InvalidOrdinal(2))));
    // Without a declaration any ordinal is accepted.
    let mut free = ModelStorage::new();
    assert!(free.store_chunk(chunk(7, vec![1])).is_ok());
}

#[test]
fn upload_status_reports_missing_ordinals_in_order() {
    let mut storage = ModelStorage::new();
    storage.store_metadata(metadata(5, 50)).unwrap();
    storage.store_chunk(chunk(1, bytes(1, 10))).unwrap();
    storage.store_chunk(chunk(3, bytes(3, 10))).unwrap();
    let (total, uploaded, missing, complete, size) = storage.get_upload_stats();
    assert_eq!(total, 5);
    assert_eq!(uploaded, 2);
    assert_eq!(missing, vec![0, 2, 4]);
    assert!(!complete);
    assert_eq!(size, 50);
}

#[test]
fn empty_storage_status() {
    let storage = ModelStorage::new();
    assert!(!storage.is_upload_complete());
    assert!(storage.get_missing_chunks().is_empty());
    assert!(storage.get_metadata().is_none());
    assert!(storage.get_model_data().is_none());
    let status = storage.status();
    assert!(!status.initialization_started);
    assert!(!status.is_streaming);
    assert!(!status.is_initialized);
    assert_eq!(status.total_chunks, 0);
    assert_eq!(status.current_size_bytes, 0);
}
