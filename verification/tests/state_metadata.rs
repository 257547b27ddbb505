//! Tests of the durable canister state and the fragment-set metadata types.

use verichain_core::{
    calculate_hash, CanisterState, ChunkInfo, CoreError, ModelChunk, ModelMetadata,
    PremiumSubscription, StoredModelMetadata, SubscriptionPlan, UserUsage,
};

fn make_chunk(id: u32, data: Vec<u8>) -> ModelChunk {
    let hash = calculate_hash(&data);
    ModelChunk { id, data, hash }
}

fn stored_metadata(total: u32) -> StoredModelMetadata {
    StoredModelMetadata {
        original_file: "model.onnx".to_string(),
        original_size: 100,
        total_chunks: total,
        chunk_size_mb: 1,
        uploaded_chunks: Vec::new(),
    }
}

#[test]
fn chunk_round_trip() {
    let mut state = CanisterState::initialize_canister();
    assert!(state.get_model_chunk(0).is_none());
    state.store_model_chunk(make_chunk(0, vec![1, 2])).unwrap();
    state.store_model_chunk(make_chunk(5, vec![9])).unwrap();
    assert_eq!(state.get_model_chunk(0).unwrap().data, vec![1, 2]);
    assert_eq!(state.get_model_chunk(5).unwrap().data, vec![9]);
    assert!(state.get_model_chunk(1).is_none());
    // Overwriting an ordinal keeps the newest bytes.
    state.store_model_chunk(make_chunk(0, vec![7, 7])).unwrap();
    assert_eq!(state.get_model_chunk(0).unwrap().data, vec![7, 7]);
}

#[test]
fn metadata_round_trip_and_completion() {
    let mut state = CanisterState::initialize_canister();
    assert!(state.get_model_metadata().is_none());
    assert!(!state.are_all_chunks_uploaded());
    let mut m = stored_metadata(2);
    m.uploaded_chunks.push(0);
    state.store_model_metadata(m);
    assert!(!state.are_all_chunks_uploaded());
    let mut m2 = stored_metadata(2);
    m2.uploaded_chunks.push(0);
    m2.uploaded_chunks.push(1);
    state.store_model_metadata(m2);
    assert!(state.are_all_chunks_uploaded());
    assert_eq!(state.get_model_metadata().unwrap().total_chunks, 2);
}

#[test]
fn collecting_all_chunks_requires_every_ordinal() {
    let mut state = CanisterState::initialize_canister();
    assert!(matches!(
        state.get_all_model_chunks(),
        Err(CoreError::ModelNotReady)
    ));
    state.store_model_metadata(stored_metadata(3));
    state.store_model_chunk(make_chunk(0, vec![0])).unwrap();
    state.store_model_chunk(make_chunk(2, vec![2])).unwrap();
    assert!(matches!(
        state.get_all_model_chunks(),
        Err(CoreError::MissingFragment(1))
    ));
    state.store_model_chunk(make_chunk(1, vec![1])).unwrap();
    let all = state.get_all_model_chunks().unwrap();
    assert_eq!(all.len(), 3);
    for (i, c) in all.iter().enumerate() {
        assert_eq!(c.id, i as u32);
        assert_eq!(c.data, vec![i as u8]);
    }
}

#[test]
fn usage_book_keeps_latest_record() {
    let mut state = CanisterState::initialize_canister();
    assert!(state.get_usage("alice").is_none());
    state.update_usage("alice".to_string(), UserUsage { count: 1, last_reset: 10 });
    state.update_usage("bob".to_string(), UserUsage { count: 5, last_reset: 20 });
    state.update_usage("alice".to_string(), UserUsage { count: 2, last_reset: 10 });
    assert_eq!(state.get_usage("alice").unwrap().count, 2);
    assert_eq!(state.get_usage("bob").unwrap().count, 5);
    assert!(state.get_usage("carol").is_none());
}

#[test]
fn premium_requires_active_and_unexpired() {
    let mut state = CanisterState::initialize_canister();
    assert!(!state.is_premium_user("alice", 50));
    state.add_premium_user(
        "alice".to_string(),
        PremiumSubscription { active: true, expires_at: 100, plan: SubscriptionPlan::Monthly },
    );
    assert!(state.is_premium_user("alice", 50));
    assert!(!state.is_premium_user("alice", 100));
    state.add_premium_user(
        "alice".to_string(),
        PremiumSubscription { active: false, expires_at: 1000, plan: SubscriptionPlan::Yearly },
    );
    // The newest record wins, and it is inactive.
    assert!(!state.is_premium_user("alice", 50));
}

#[test]
fn fragment_set_metadata_bookkeeping() {
    let mut meta = ModelMetadata::new("weights.onnx".to_string(), 1000, 2, 1);
    assert!(!meta.is_complete());
    assert_eq!(meta.chunks_uploaded(), 0);
    let h0 = calculate_hash(&[0]);
    meta.add_chunk(ChunkInfo::new(0, "weights.part0".to_string(), 500, h0.clone()));
    meta.add_chunk(ChunkInfo::new(
        1,
        "weights.part1".to_string(),
        500,
        calculate_hash(&[1]),
    ));
    assert!(meta.is_complete());
    assert_eq!(meta.chunks_uploaded(), 2);
    assert!(meta.validate_chunk(0, &h0));
    assert!(!meta.validate_chunk(0, &calculate_hash(&[9])));
    assert!(!meta.validate_chunk(7, &h0));
}

#[test]
fn duplicate_copies_every_field() {
    let c = make_chunk(3, vec![1, 2, 3]);
    let d = c.duplicate();
    assert_eq!(d.id, c.id);
    assert_eq!(d.data, c.data);
    assert_eq!(d.hash, c.hash);
}
