use ghostpages::state::{ChunkState, PressureState, StateMachine};
use ghostpages::types::ChunkId;

#[test]
fn test_allocated_to_stored() {
    assert!(ChunkState::Allocated.is_valid_transition(ChunkState::Stored));
}

#[test]
fn test_stored_to_cached() {
    assert!(ChunkState::Stored.is_valid_transition(ChunkState::Cached));
}

#[test]
fn test_stored_to_migrating() {
    assert!(ChunkState::Stored.is_valid_transition(ChunkState::Migrating));
}

#[test]
fn test_cached_to_migrating() {
    assert!(ChunkState::Cached.is_valid_transition(ChunkState::Migrating));
}

#[test]
fn test_cached_to_stored() {
    assert!(ChunkState::Cached.is_valid_transition(ChunkState::Stored));
}

#[test]
fn test_migrating_to_stored() {
    assert!(ChunkState::Migrating.is_valid_transition(ChunkState::Stored));
}

#[test]
fn test_migrating_to_failed() {
    assert!(ChunkState::Migrating.is_valid_transition(ChunkState::Failed));
}

#[test]
fn test_migrating_to_evicted() {
    assert!(ChunkState::Migrating.is_valid_transition(ChunkState::Evicted));
}

#[test]
fn test_failed_to_stored() {
    assert!(ChunkState::Failed.is_valid_transition(ChunkState::Stored));
}

#[test]
fn test_failed_to_evicted() {
    assert!(ChunkState::Failed.is_valid_transition(ChunkState::Evicted));
}

#[test]
fn test_stored_to_evicted() {
    assert!(ChunkState::Stored.is_valid_transition(ChunkState::Evicted));
}

// ── Invalid transitions ──

#[test]
fn test_allocated_to_cached_invalid() {
    assert!(!ChunkState::Allocated.is_valid_transition(ChunkState::Cached));
}

#[test]
fn test_allocated_to_migrating_invalid() {
    assert!(!ChunkState::Allocated.is_valid_transition(ChunkState::Migrating));
}

#[test]
fn test_allocated_to_evicted_invalid() {
    assert!(!ChunkState::Allocated.is_valid_transition(ChunkState::Evicted));
}

#[test]
fn test_allocated_to_failed_invalid() {
    assert!(!ChunkState::Allocated.is_valid_transition(ChunkState::Failed));
}

#[test]
fn test_stored_to_allocated_invalid() {
    assert!(!ChunkState::Stored.is_valid_transition(ChunkState::Allocated));
}

#[test]
fn test_stored_to_failed_invalid() {
    assert!(!ChunkState::Stored.is_valid_transition(ChunkState::Failed));
}

#[test]
fn test_cached_to_allocated_invalid() {
    assert!(!ChunkState::Cached.is_valid_transition(ChunkState::Allocated));
}

#[test]
fn test_cached_to_evicted_invalid() {
    assert!(!ChunkState::Cached.is_valid_transition(ChunkState::Evicted));
}

#[test]
fn test_cached_to_failed_invalid() {
    assert!(!ChunkState::Cached.is_valid_transition(ChunkState::Failed));
}

#[test]
fn test_migrating_to_allocated_invalid() {
    assert!(!ChunkState::Migrating.is_valid_transition(ChunkState::Allocated));
}

#[test]
fn test_migrating_to_cached_invalid() {
    assert!(!ChunkState::Migrating.is_valid_transition(ChunkState::Cached));
}

#[test]
fn test_evicted_to_any_invalid() {
    // Evicted is terminal — no transitions out
    assert!(!ChunkState::Evicted.is_valid_transition(ChunkState::Allocated));
    assert!(!ChunkState::Evicted.is_valid_transition(ChunkState::Stored));
    assert!(!ChunkState::Evicted.is_valid_transition(ChunkState::Cached));
    assert!(!ChunkState::Evicted.is_valid_transition(ChunkState::Migrating));
    assert!(!ChunkState::Evicted.is_valid_transition(ChunkState::Failed));
}

#[test]
fn test_failed_to_allocated_invalid() {
    assert!(!ChunkState::Failed.is_valid_transition(ChunkState::Allocated));
}

#[test]
fn test_failed_to_cached_invalid() {
    assert!(!ChunkState::Failed.is_valid_transition(ChunkState::Cached));
}

#[test]
fn test_failed_to_migrating_invalid() {
    assert!(!ChunkState::Failed.is_valid_transition(ChunkState::Migrating));
}

// ── transition_to returns correct state ──

#[test]
fn test_transition_to_returns_new_state() {
    let result = ChunkState::Allocated.transition_to(ChunkState::Stored);
    assert_eq!(result.unwrap(), ChunkState::Stored);
}

#[test]
fn test_transition_to_invalid_returns_error_in_release() {
    // In release mode, invalid transitions return an error.
    // In debug mode, they panic — so we test is_valid_transition instead
    // for the error case.
    assert!(!ChunkState::Evicted.is_valid_transition(ChunkState::Stored));
}

// ── Helper method tests ──

#[test]
fn test_is_terminal() {
    assert!(ChunkState::Evicted.is_terminal());
    assert!(!ChunkState::Stored.is_terminal());
    assert!(!ChunkState::Allocated.is_terminal());
    assert!(!ChunkState::Migrating.is_terminal());
    assert!(!ChunkState::Failed.is_terminal());
    assert!(!ChunkState::Cached.is_terminal());
}

#[test]
fn test_is_readable() {
    assert!(ChunkState::Stored.is_readable());
    assert!(ChunkState::Cached.is_readable());
    assert!(!ChunkState::Allocated.is_readable());
    assert!(!ChunkState::Migrating.is_readable());
    assert!(!ChunkState::Evicted.is_readable());
    assert!(!ChunkState::Failed.is_readable());
}

#[test]
fn test_is_migrating() {
    assert!(ChunkState::Migrating.is_migrating());
    assert!(!ChunkState::Stored.is_migrating());
    assert!(!ChunkState::Allocated.is_migrating());
}

#[test]
fn test_chunk_state_display() {
    assert_eq!(ChunkState::Allocated.as_str(), "allocated");
    assert_eq!(ChunkState::Stored.as_str(), "stored");
    assert_eq!(ChunkState::Cached.as_str(), "cached");
    assert_eq!(ChunkState::Migrating.as_str(), "migrating");
    assert_eq!(ChunkState::Evicted.as_str(), "evicted");
    assert_eq!(ChunkState::Failed.as_str(), "failed");
}

// ── StateMachine tests ──

#[test]
fn test_state_machine_new() {
    let sm = StateMachine::new();
    assert!(sm.is_empty());
    assert_eq!(sm.len(), 0);
}

#[test]
fn test_state_machine_register() {
    let mut sm = StateMachine::new();
    let id = ChunkId::from_data(b"test");
    sm.register(id).unwrap();
    assert_eq!(sm.get_state(&id), Some(ChunkState::Allocated));
    assert_eq!(sm.len(), 1);
}

#[test]
fn test_state_machine_register_duplicate_fails() {
    let mut sm = StateMachine::new();
    let id = ChunkId::from_data(b"test");
    sm.register(id).unwrap();
    assert!(sm.register(id).is_err());
}

#[test]
fn test_state_machine_transition() {
    let mut sm = StateMachine::new();
    let id = ChunkId::from_data(b"test");
    sm.register(id).unwrap();

    let state = sm.transition(&id, ChunkState::Stored).unwrap();
    assert_eq!(state, ChunkState::Stored);
    assert_eq!(sm.get_state(&id), Some(ChunkState::Stored));
}

#[test]
fn test_state_machine_transition_invalid() {
    let mut sm = StateMachine::new();
    let id = ChunkId::from_data(b"test");
    sm.register(id).unwrap();

    // Allocated → Cached is not valid — verify using is_valid_transition
    // (transition_to panics in debug on invalid transitions, so we test
    // the validation function directly)
    assert!(!ChunkState::Allocated.is_valid_transition(ChunkState::Cached));

    // State should not have changed (no transition was attempted)
    assert_eq!(sm.get_state(&id), Some(ChunkState::Allocated));
}

#[test]
fn test_state_machine_transition_unregistered() {
    let mut sm = StateMachine::new();
    let id = ChunkId::from_data(b"test");
    let result = sm.transition(&id, ChunkState::Stored);
    assert!(result.is_err());
}

#[test]
fn test_state_machine_remove() {
    let mut sm = StateMachine::new();
    let id = ChunkId::from_data(b"test");
    sm.register(id).unwrap();
    let removed = sm.remove(&id);
    assert_eq!(removed, Some(ChunkState::Allocated));
    assert!(sm.is_empty());
}

#[test]
fn test_state_machine_chunks_in_state() {
    let mut sm = StateMachine::new();
    let id1 = ChunkId::from_data(b"chunk1");
    let id2 = ChunkId::from_data(b"chunk2");
    let id3 = ChunkId::from_data(b"chunk3");

    sm.register(id1).unwrap();
    sm.register(id2).unwrap();
    sm.register(id3).unwrap();

    sm.transition(&id1, ChunkState::Stored).unwrap();
    sm.transition(&id2, ChunkState::Stored).unwrap();

    let stored = sm.chunks_in_state(ChunkState::Stored);
    assert_eq!(stored.len(), 2);
    assert!(stored.contains(&id1));
    assert!(stored.contains(&id2));

    let allocated = sm.chunks_in_state(ChunkState::Allocated);
    assert_eq!(allocated.len(), 1);
    assert!(allocated.contains(&id3));
}

#[test]
fn test_state_machine_snapshot() {
    let mut sm = StateMachine::new();
    let id = ChunkId::from_data(b"test");
    sm.register(id).unwrap();
    sm.transition(&id, ChunkState::Stored).unwrap();

    let snapshot = sm.snapshot();
    let found = snapshot.iter().find(|(k, _)| *k == id).map(|(_, v)| v);
    assert_eq!(found, Some(&ChunkState::Stored));
}

#[test]
fn test_state_machine_full_lifecycle() {
    let mut sm = StateMachine::new();
    let id = ChunkId::from_data(b"lifecycle");

    // Allocated
    sm.register(id).unwrap();
    assert_eq!(sm.get_state(&id), Some(ChunkState::Allocated));

    // Allocated → Stored
    sm.transition(&id, ChunkState::Stored).unwrap();
    assert_eq!(sm.get_state(&id), Some(ChunkState::Stored));

    // Stored → Cached
    sm.transition(&id, ChunkState::Cached).unwrap();
    assert_eq!(sm.get_state(&id), Some(ChunkState::Cached));

    // Cached → Migrating
    sm.transition(&id, ChunkState::Migrating).unwrap();
    assert_eq!(sm.get_state(&id), Some(ChunkState::Migrating));

    // Migrating → Stored (success)
    sm.transition(&id, ChunkState::Stored).unwrap();
    assert_eq!(sm.get_state(&id), Some(ChunkState::Stored));

    // Stored → Evicted
    sm.transition(&id, ChunkState::Evicted).unwrap();
    assert_eq!(sm.get_state(&id), Some(ChunkState::Evicted));
}

#[test]
fn test_state_machine_migration_failure_and_retry() {
    let mut sm = StateMachine::new();
    let id = ChunkId::from_data(b"retry");

    sm.register(id).unwrap();
    sm.transition(&id, ChunkState::Stored).unwrap();
    sm.transition(&id, ChunkState::Migrating).unwrap();

    // Migration fails
    sm.transition(&id, ChunkState::Failed).unwrap();
    assert_eq!(sm.get_state(&id), Some(ChunkState::Failed));

    // Retry succeeds
    sm.transition(&id, ChunkState::Stored).unwrap();
    assert_eq!(sm.get_state(&id), Some(ChunkState::Stored));
}

// ── PressureState tests ──

#[test]
fn test_pressure_state_new() {
    let p = PressureState::new();
    assert_eq!(f32::from_bits(p.memory_pressure.0), 0.0);
    assert_eq!(f32::from_bits(p.vram_pressure.0), 0.0);
    assert_eq!(f32::from_bits(p.io_pressure.0), 0.0);
    assert_eq!(p.queue_depth, 0);
    assert_eq!(p.throughput_bps, 0);
}

#[test]
fn chunks_in_state_come_out_sorted_and_remove_shrinks_by_one() {
    let mut sm = StateMachine::new();
    let ids = [ChunkId([9u8; 32]), ChunkId([1u8; 32]), ChunkId([5u8; 32])];
    for id in ids {
        sm.register(id).unwrap();
    }
    sm.transition(&ids[2], ChunkState::Stored).unwrap();
    let allocated = sm.chunks_in_state(ChunkState::Allocated);
    assert_eq!(allocated, vec![ChunkId([1u8; 32]), ChunkId([9u8; 32])]);
    assert_eq!(sm.chunks_in_state(ChunkState::Stored), vec![ChunkId([5u8; 32])]);
    assert_eq!(sm.len(), 3);
    assert_eq!(sm.remove(&ids[0]), Some(ChunkState::Allocated));
    assert_eq!(sm.len(), 2);
    assert_eq!(sm.remove(&ids[0]), None);
    assert_eq!(sm.len(), 2);
}
