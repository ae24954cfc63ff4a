use std::collections::BTreeMap;
use std::sync::Arc;
use std::time::Duration;

use ghostpages::emitter::EventEmitter;
use ghostpages::error::GhostError;
use ghostpages::events::{BackendHealth, Event};
use ghostpages::invariant_registry::{
    io_buffer_within_capacity, io_completion_bounded, io_failure_eventual, io_flush_completeness,
    io_no_double_complete, io_request_id_monotonic, no_dangling_allocations, no_illegal_transitions,
    no_missing_completions, no_orphaned_transfers, no_timestamp_regression, state_machine_consistency, GhostState,
    InvariantRegistry, TransferQueue,
};
use ghostpages::io_abstraction::{IoCompletion, IoRequest, IoScheduler};
use ghostpages::io_events::IoOperation;
use ghostpages::state::PressureState;
use ghostpages::time::DeterministicTimeProvider;
use ghostpages::types::{ChunkId, ChunkMeta, TierId};

fn test_scheduler(max: usize) -> (IoScheduler<DeterministicTimeProvider>, tokio::sync::mpsc::Receiver<Event>) {
    let (tx, rx) = tokio::sync::mpsc::channel(256);
    let emitter = EventEmitter::new(tx);
    let clock = DeterministicTimeProvider::new(1_700_000_000, Duration::from_millis(1));
    let scheduler = IoScheduler::new(Arc::new(clock), emitter, max);
    (scheduler, rx)
}

#[test]
fn test_issue_returns_incrementing_ids() {
    let (mut scheduler, _rx) = test_scheduler(64);
    let id1 = scheduler.issue(IoOperation::Read, ChunkId::from_data(b"a"), TierId::Ram).unwrap();
    let id2 = scheduler.issue(IoOperation::Write, ChunkId::from_data(b"b"), TierId::Disk).unwrap();
    assert!(id1 < id2);
    assert_eq!(scheduler.pending_count(), 2);
}

#[test]
fn test_complete_moves_to_completed() {
    let (mut scheduler, _rx) = test_scheduler(64);
    let id = scheduler.issue(IoOperation::Read, ChunkId::from_data(b"a"), TierId::Ram).unwrap();
    assert_eq!(scheduler.pending_count(), 1);
    assert_eq!(scheduler.completed_count(), 0);

    scheduler.complete(id, Ok(()));
    assert_eq!(scheduler.pending_count(), 0);
    assert_eq!(scheduler.completed_count(), 1);
}

#[test]
fn test_complete_with_error() {
    let (mut scheduler, _rx) = test_scheduler(64);
    let id = scheduler.issue(IoOperation::Write, ChunkId::from_data(b"a"), TierId::Disk).unwrap();
    scheduler.complete(id, Err("device failure".to_string()));

    let completed = scheduler.completed();
    assert_eq!(completed.len(), 1);
    match &completed[0].completion {
        IoCompletion::Failed { error } => assert_eq!(error, "device failure"),
        other => panic!("expected Failed, got {:?}", other),
    }
}

#[test]
fn test_flush_completes_all_pending() {
    let (mut scheduler, _rx) = test_scheduler(64);
    for i in 0..5 {
        let _ = scheduler.issue(IoOperation::Read, ChunkId::from_data(format!("chunk-{}", i).as_bytes()), TierId::Ram);
    }
    assert_eq!(scheduler.pending_count(), 5);

    scheduler.flush();
    assert_eq!(scheduler.pending_count(), 0);
    assert_eq!(scheduler.completed_count(), 5);
}

#[test]
fn test_flush_empty_is_noop() {
    let (mut scheduler, _rx) = test_scheduler(64);
    scheduler.flush();
    assert_eq!(scheduler.pending_count(), 0);
    assert_eq!(scheduler.completed_count(), 0);
}

#[test]
fn test_backpressure_at_capacity() {
    let (mut scheduler, _rx) = test_scheduler(4);
    assert_eq!(scheduler.max_pending(), 4);
    assert!(!scheduler.is_at_capacity());

    for i in 0..4 {
        scheduler
            .issue(IoOperation::Read, ChunkId::from_data(format!("chunk-{}", i).as_bytes()), TierId::Ram)
            .unwrap();
    }
    assert!(scheduler.is_at_capacity());
    assert_eq!(scheduler.pending_count(), 4);

    let result = scheduler.issue(IoOperation::Read, ChunkId::from_data(b"overflow"), TierId::Ram);
    assert!(result.is_err());
}

#[test]
fn test_capacity_accessors() {
    let (scheduler, _rx) = test_scheduler(32);
    assert_eq!(scheduler.max_pending(), 32);
    assert!(!scheduler.is_at_capacity());
}

// ─── Further cases ─────────────────────────────────────────────────────────────

#[test]
fn capacity_error_message_and_events() {
    let (mut scheduler, mut rx) = test_scheduler(1);
    let id = scheduler.issue(IoOperation::Write, ChunkId::from_data(b"x"), TierId::Disk).unwrap();
    match scheduler.issue(IoOperation::Read, ChunkId::from_data(b"y"), TierId::Disk) {
        Err(GhostError::Internal(m)) => assert_eq!(m, "I/O scheduler at capacity: 1 pending requests (max: 1)"),
        other => panic!("unexpected {:?}", other),
    }
    assert_eq!(scheduler.pending_operation_count(IoOperation::Write), 1);
    assert_eq!(scheduler.pending_operation_count(IoOperation::Read), 0);
    scheduler.complete(id, Ok(()));
    let names: Vec<&str> = std::iter::from_fn(|| rx.try_recv().ok()).map(|e| e.event_name()).collect();
    assert_eq!(names, vec!["io_request_issued", "io_request_completed"]);
}

#[test]
fn completion_keeps_the_request_identity() {
    let (mut scheduler, _rx) = test_scheduler(8);
    let a = scheduler.issue(IoOperation::Read, ChunkId::from_data(b"a"), TierId::Ram).unwrap();
    let b = scheduler.issue(IoOperation::Delete, ChunkId::from_data(b"b"), TierId::Disk).unwrap();
    scheduler.complete(b, Ok(()));
    assert_eq!(scheduler.pending()[0].0, a);
    let done = &scheduler.completed()[0];
    assert_eq!(done.id, b);
    assert_eq!(done.operation, IoOperation::Delete);
    assert_eq!(done.chunk_id, ChunkId::from_data(b"b"));
    assert!(matches!(done.completion, IoCompletion::Completed { .. }));
}

fn empty_chunks() -> BTreeMap<ChunkId, ChunkMeta> {
    BTreeMap::new()
}

fn request(id: u64, completion: IoCompletion) -> IoRequest {
    IoRequest {
        id,
        operation: IoOperation::Read,
        chunk_id: ChunkId::from_data(b"r"),
        tier: TierId::Ram,
        issued_at: std::time::Instant::now(),
        completion,
    }
}

#[test]
fn io_invariants_on_a_scheduler_state() {
    let (mut scheduler, _rx) = test_scheduler(8);
    let a = scheduler.issue(IoOperation::Read, ChunkId::from_data(b"a"), TierId::Ram).unwrap();
    let _b = scheduler.issue(IoOperation::Read, ChunkId::from_data(b"b"), TierId::Ram).unwrap();
    scheduler.complete(a, Err("boom".to_string()));
    let chunks = empty_chunks();
    let queue = TransferQueue;
    let health = BackendHealth::Healthy;
    let pressure = PressureState::new();
    let state = GhostState {
        chunks: &chunks,
        transfer_queue: &queue,
        health: &health,
        pressure: &pressure,
        io_pending: scheduler.pending(),
        io_completed: scheduler.completed(),
        io_in_flight: scheduler.pending_count(),
    };
    assert!(io_no_double_complete(&state).is_ok());
    assert!(io_flush_completeness(&state).is_ok());
    assert!(io_completion_bounded(&state).is_ok());
    assert!(io_buffer_within_capacity(&state).is_ok());
    assert!(io_request_id_monotonic(&state).is_ok());
    assert!(io_failure_eventual(&state).is_ok());
    assert!(InvariantRegistry::new().check_all(&state).is_ok());
    for check in [
        no_orphaned_transfers,
        no_illegal_transitions,
        no_dangling_allocations,
        no_timestamp_regression,
        no_missing_completions,
        state_machine_consistency,
    ] {
        assert!(check(&state).is_ok());
    }
}

fn message(r: Result<(), GhostError>) -> String {
    match r {
        Err(GhostError::Internal(m)) => m,
        other => panic!("expected an internal error, got {:?}", other),
    }
}

#[test]
fn io_invariant_violations() {
    let chunks = empty_chunks();
    let queue = TransferQueue;
    let health = BackendHealth::Degraded;
    let pressure = PressureState::new();
    let pending = vec![(3u64, request(3, IoCompletion::Pending)), (9u64, request(9, IoCompletion::Pending))];
    let completed = vec![request(4, IoCompletion::Completed { duration_ticks: 1 }), request(9, IoCompletion::Completed { duration_ticks: 2 })];
    let state = GhostState {
        chunks: &chunks,
        transfer_queue: &queue,
        health: &health,
        pressure: &pressure,
        io_pending: &pending,
        io_completed: &completed,
        io_in_flight: 0,
    };
    assert_eq!(message(io_no_double_complete(&state)), "I/O invariant violation: request 9 is both completed and pending");
    assert_eq!(
        message(io_flush_completeness(&state)),
        "I/O invariant violation: 2 pending requests but io_in_flight is 0 — indicates missed flush or bookkeeping error"
    );
    assert_eq!(message(io_completion_bounded(&state)), "I/O invariant violation: io_in_flight (0) != io_pending.len() (2)");
    assert_eq!(
        message(io_request_id_monotonic(&state)),
        "I/O invariant violation: min pending ID (3) <= max completed ID (9) — violates monotonic ID allocation"
    );

    let many: Vec<IoRequest> = (0..257).map(|i| request(i, IoCompletion::Failed { error: "e".to_string() })).collect();
    let big: Vec<(u64, IoRequest)> = (0..4097).map(|i| (i, request(i, IoCompletion::Pending))).collect();
    let state2 = GhostState {
        chunks: &chunks,
        transfer_queue: &queue,
        health: &health,
        pressure: &pressure,
        io_pending: &big,
        io_completed: &many,
        io_in_flight: 4097,
    };
    assert_eq!(
        message(io_failure_eventual(&state2)),
        "I/O invariant violation: 257 consecutive completed failures exceeds bound of 256 — backend may be stuck"
    );
    assert_eq!(
        message(io_buffer_within_capacity(&state2)),
        "I/O invariant violation: 4097 pending requests exceeds capacity bound of 4096"
    );
}

#[test]
fn isolated_failures_do_not_count_as_a_run() {
    let chunks = empty_chunks();
    let queue = TransferQueue;
    let health = BackendHealth::Healthy;
    let pressure = PressureState::new();
    let alternating: Vec<IoRequest> = (0..600)
        .map(|i| {
            if i % 2 == 0 {
                request(i, IoCompletion::Failed { error: "e".to_string() })
            } else {
                request(i, IoCompletion::Completed { duration_ticks: 1 })
            }
        })
        .collect();
    let none: Vec<(u64, IoRequest)> = Vec::new();
    let state = GhostState {
        chunks: &chunks,
        transfer_queue: &queue,
        health: &health,
        pressure: &pressure,
        io_pending: &none,
        io_completed: &alternating,
        io_in_flight: 0,
    };
    assert!(io_failure_eventual(&state).is_ok());

    // A run of 257 after a success trips the bound, whatever came before.
    let mut runs: Vec<IoRequest> = vec![request(0, IoCompletion::Completed { duration_ticks: 1 })];
    runs.extend((1..258).map(|i| request(i, IoCompletion::Failed { error: "e".to_string() })));
    runs.push(request(300, IoCompletion::Completed { duration_ticks: 1 }));
    let state2 = GhostState { io_completed: &runs, ..state };
    assert_eq!(
        message(io_failure_eventual(&state2)),
        "I/O invariant violation: 257 consecutive completed failures exceeds bound of 256 — backend may be stuck"
    );
}
