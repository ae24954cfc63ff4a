use ghostpages::error::GhostError;
use ghostpages::state::ChunkState;
use ghostpages::types::TierId;

#[test]
fn error_messages_follow_each_variant() {
    assert_eq!(GhostError::ChunkNotFound("abc".to_string()).display_string(), "chunk not found: abc");
    assert_eq!(GhostError::TierFull(TierId::GpuVram).display_string(), "tier GpuVram is full");
    assert_eq!(GhostError::TierUnavailable(TierId::Disk).display_string(), "tier Disk unavailable");
    assert_eq!(GhostError::ChecksumMismatch("c".to_string()).display_string(), "checksum mismatch for chunk c");
    assert_eq!(GhostError::CorruptionDetected("x".to_string()).display_string(), "corruption detected in x");
    assert_eq!(GhostError::CompressionError("z".to_string()).display_string(), "compression error: z");
    assert_eq!(GhostError::BackendError("b".to_string()).display_string(), "backend error: b");
    assert_eq!(GhostError::IpcError("i".to_string()).display_string(), "IPC error: i");
    assert_eq!(GhostError::OutOfMemory.display_string(), "out of memory");
    assert_eq!(GhostError::Timeout.display_string(), "operation timed out");
    assert_eq!(GhostError::PipelineError("p".to_string()).display_string(), "pipeline error: p");
    assert_eq!(GhostError::Cancelled.display_string(), "operation cancelled");
    assert_eq!(GhostError::ReplayError("r".to_string()).display_string(), "trace replay error: r");
    assert_eq!(GhostError::InvalidConfig("k".to_string()).display_string(), "invalid configuration: k");
    assert_eq!(GhostError::Internal("oops".to_string()).display_string(), "internal error: oops");
}

#[test]
fn invalid_transition_error_names_both_states() {
    match ChunkState::Evicted.transition_to(ChunkState::Stored) {
        Err(e @ GhostError::InvalidStateTransition { .. }) => {
            assert_eq!(e.display_string(), "invalid state transition from \"Evicted\" to \"Stored\"");
        }
        other => panic!("unexpected {:?}", other),
    }
    assert_eq!(ChunkState::Allocated.transition_to(ChunkState::Stored).unwrap(), ChunkState::Stored);
}

#[test]
fn state_machine_refusal_names_current_and_requested_state() {
    use_state_machine();
}

fn use_state_machine() {
    let mut sm = ghostpages::state::StateMachine::new();
    let id = ghostpages::types::ChunkId([3u8; 32]);
    sm.register(id).unwrap();
    match sm.transition(&id, ChunkState::Cached) {
        Err(GhostError::InvalidStateTransition { from, to }) => {
            assert_eq!(from, "Allocated");
            assert_eq!(to, "Cached");
        }
        other => panic!("unexpected {:?}", other),
    }
    assert_eq!(sm.get_state(&id), Some(ChunkState::Allocated));
}

#[test]
fn state_machine_internal_errors_name_the_chunk() {
    let mut sm = ghostpages::state::StateMachine::new();
    let id = ghostpages::types::ChunkId([3u8; 32]);
    sm.register(id).unwrap();
    match sm.register(id) {
        Err(GhostError::Internal(m)) => assert_eq!(m, "chunk 0303030303030303 is already registered in the state machine"),
        other => panic!("unexpected {:?}", other),
    }
    let other_id = ghostpages::types::ChunkId([0xabu8; 32]);
    match sm.transition(&other_id, ChunkState::Stored) {
        Err(GhostError::Internal(m)) => assert_eq!(m, "chunk abababababababab not found in state machine"),
        other => panic!("unexpected {:?}", other),
    }
}
