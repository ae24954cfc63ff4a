use ghostpages::events::{BackendHealth, Event, EventRecord, InvariantSeverity};
use ghostpages::io_events::{IoEvent, IoOperation};
use ghostpages::state::{F64Bits, PressureState};
use ghostpages::types::{ChunkId, TierId};

#[test]
fn test_event_chunk_id() {
    let id = ChunkId::from_data(b"test");

    let event = Event::AllocationCreated { chunk_id: id, tier: TierId::Ram, size: 1024, sequence_id: 0 };
    assert_eq!(event.chunk_id(), Some(id));

    let event = Event::MigrationStarted { chunk_id: id, from: TierId::Ram, to: TierId::Disk, sequence_id: 0 };
    assert_eq!(event.chunk_id(), Some(id));

    let event = Event::PressureChanged {
        tier: TierId::Ram,
        old: PressureState::new(),
        new: PressureState::new(),
        sequence_id: 0,
    };
    assert_eq!(event.chunk_id(), None);
}

#[test]
fn test_event_tier() {
    let event = Event::AllocationCreated {
        chunk_id: ChunkId::from_data(b"test"),
        tier: TierId::GpuVram,
        size: 1024,
        sequence_id: 0,
    };
    assert_eq!(event.tier(), Some(TierId::GpuVram));

    let event = Event::BackendHealthChanged {
        tier: TierId::Disk,
        old: BackendHealth::Healthy,
        new: BackendHealth::Degraded,
        sequence_id: 0,
    };
    assert_eq!(event.tier(), Some(TierId::Disk));

    let event = Event::OperationFailed { operation: "store".to_string(), reason: "full".to_string(), sequence_id: 0 };
    assert_eq!(event.tier(), None);
}

#[test]
fn test_event_category() {
    assert_eq!(
        Event::AllocationCreated { chunk_id: ChunkId::from_data(b"t"), tier: TierId::Ram, size: 1, sequence_id: 0 }
            .category(),
        "allocation"
    );
    assert_eq!(
        Event::MigrationStarted { chunk_id: ChunkId::from_data(b"t"), from: TierId::Ram, to: TierId::Disk, sequence_id: 0 }
            .category(),
        "migration"
    );
    assert_eq!(Event::ReplayStarted { trace_path: "trace.bin".to_string(), sequence_id: 0 }.category(), "replay");
    assert_eq!(
        Event::PressureChanged { tier: TierId::Ram, old: PressureState::new(), new: PressureState::new(), sequence_id: 0 }
            .category(),
        "pressure"
    );
    assert_eq!(
        Event::OperationFailed { operation: "store".to_string(), reason: "err".to_string(), sequence_id: 0 }.category(),
        "failure"
    );
    assert_eq!(
        Event::InvariantViolation {
            rule: "test".to_string(),
            details: "bad".to_string(),
            severity: InvariantSeverity::Error,
            sequence_id: 0,
        }
        .category(),
        "invariant_violation"
    );
}

#[test]
fn test_event_name() {
    assert_eq!(
        Event::AllocationCreated { chunk_id: ChunkId::from_data(b"t"), tier: TierId::Ram, size: 1, sequence_id: 0 }
            .event_name(),
        "allocation_created"
    );
    assert_eq!(
        Event::MigrationRolledBack { chunk_id: ChunkId::from_data(b"t"), from: TierId::Ram, to: TierId::Disk, sequence_id: 0 }
            .event_name(),
        "migration_rolled_back"
    );
}

#[test]
fn test_invariant_severity_ordering() {
    assert!(InvariantSeverity::Info < InvariantSeverity::Warning);
    assert!(InvariantSeverity::Warning < InvariantSeverity::Error);
    assert!(InvariantSeverity::Error < InvariantSeverity::Critical);
}

#[test]
fn test_invariant_severity_display() {
    assert_eq!(InvariantSeverity::Info.as_str(), "info");
    assert_eq!(InvariantSeverity::Warning.as_str(), "warning");
    assert_eq!(InvariantSeverity::Error.as_str(), "error");
    assert_eq!(InvariantSeverity::Critical.as_str(), "critical");
}

#[test]
fn test_backend_health_display() {
    assert_eq!(BackendHealth::Healthy.as_str(), "healthy");
    assert_eq!(BackendHealth::Degraded.as_str(), "degraded");
    assert_eq!(BackendHealth::Unavailable.as_str(), "unavailable");
    assert_eq!(BackendHealth::Recovering.as_str(), "recovering");
}

#[test]
fn test_all_event_variants_constructible() {
    let id = ChunkId::from_data(b"test");
    let events: Vec<Event> = vec![
        Event::AllocationCreated { chunk_id: id, tier: TierId::Ram, size: 1024, sequence_id: 0 },
        Event::AllocationFreed { chunk_id: id, tier: TierId::Ram, sequence_id: 0 },
        Event::AllocationFailed { chunk_id: id, reason: "out of memory".to_string(), sequence_id: 0 },
        Event::MigrationDecided {
            chunk_id: id,
            from: TierId::Ram,
            to: TierId::Disk,
            cost_score: F64Bits(1.5f64.to_bits()),
            sequence_id: 0,
        },
        Event::MigrationDeferred {
            chunk_id: id,
            from: TierId::Ram,
            to: TierId::Disk,
            reason: "high io pressure".to_string(),
            sequence_id: 0,
        },
        Event::MigrationRejected {
            chunk_id: id,
            from: TierId::Ram,
            to: TierId::Disk,
            cost_score: F64Bits(9.5f64.to_bits()),
            threshold: F64Bits(5.0f64.to_bits()),
            sequence_id: 0,
        },
        Event::MigrationStarted { chunk_id: id, from: TierId::Ram, to: TierId::Disk, sequence_id: 0 },
        Event::MigrationCompleted { chunk_id: id, from: TierId::Ram, to: TierId::Disk, duration_ms: 100, sequence_id: 0 },
        Event::MigrationFailed {
            chunk_id: id,
            from: TierId::Ram,
            to: TierId::Disk,
            reason: "timeout".to_string(),
            sequence_id: 0,
        },
        Event::MigrationRolledBack { chunk_id: id, from: TierId::Ram, to: TierId::Disk, sequence_id: 0 },
        Event::ReplayStarted { trace_path: "trace.bin".to_string(), sequence_id: 0 },
        Event::ReplayCompleted { trace_path: "trace.bin".to_string(), events: 100, duration_ms: 50, sequence_id: 0 },
        Event::ReplayDivergence {
            trace_path: "trace.bin".to_string(),
            expected: "stored".to_string(),
            actual: "failed".to_string(),
            sequence_id: 0,
        },
        Event::ReplayInvariantViolation {
            rule: "no_orphans".to_string(),
            details: "orphaned transfer".to_string(),
            sequence_id: 0,
        },
        Event::PressureChanged { tier: TierId::Ram, old: PressureState::new(), new: PressureState::new(), sequence_id: 0 },
        Event::BackpressureActivated { tier: TierId::Ram, level: "soft".to_string(), sequence_id: 0 },
        Event::BackpressureDeactivated { tier: TierId::Ram, sequence_id: 0 },
        Event::BackendHealthChanged {
            tier: TierId::Disk,
            old: BackendHealth::Healthy,
            new: BackendHealth::Degraded,
            sequence_id: 0,
        },
        Event::RetryAttempted { chunk_id: id, attempt: 2, max_attempts: 3, sequence_id: 0 },
        Event::OperationFailed {
            operation: "store".to_string(),
            reason: "backend unavailable".to_string(),
            sequence_id: 0,
        },
        Event::InvariantViolation {
            rule: "no_illegal_transitions".to_string(),
            details: "Allocated -> Cached".to_string(),
            severity: InvariantSeverity::Error,
            sequence_id: 0,
        },
    ];
    assert_eq!(events.len(), 21);
}

// ─── Further cases ─────────────────────────────────────────────────────────────

#[test]
fn with_sequence_id_reads_back_and_keeps_payload() {
    let id = ChunkId::from_data(b"seq");
    let e = Event::MigrationDecided {
        chunk_id: id,
        from: TierId::GpuVram,
        to: TierId::Disk,
        cost_score: F64Bits(2.0f64.to_bits()),
        sequence_id: 0,
    };
    let s = e.with_sequence_id(17);
    assert_eq!(s.sequence_id(), 17);
    assert_eq!(s.chunk_id(), Some(id));
    assert_eq!(s.tier(), Some(TierId::GpuVram));
    assert_eq!(s.category(), "migration");
    assert_eq!(s.event_name(), "migration_decided");
    let t = s.with_sequence_id(3).with_sequence_id(4);
    assert_eq!(t.sequence_id(), 4);
}

#[test]
fn io_and_scheduler_categories() {
    let e = Event::IoFlushCompleted { tier: TierId::Disk, duration_ticks: 5, sequence_id: 9 };
    assert_eq!(e.category(), "io");
    assert_eq!(e.tier(), Some(TierId::Disk));
    assert_eq!(e.sequence_id(), 9);
    let q = Event::QueueEnqueue { task_id: 1, sequence_id: 0 };
    assert_eq!(q.category(), "scheduler");
    assert_eq!(q.tier(), None);
    let r = Event::Retrieve { key: "k".to_string(), hit: true, sequence_id: 0 };
    assert_eq!(r.category(), "orchestration");
    assert!(InvariantSeverity::Critical.is_more_severe_than(InvariantSeverity::Error));
    assert!(!InvariantSeverity::Info.is_more_severe_than(InvariantSeverity::Info));
}

#[test]
fn event_record_delegates_to_its_event() {
    let id = ChunkId::from_data(b"rec");
    let record = EventRecord {
        sequence_id: 5,
        timestamp: 10,
        event: Event::IoRequestIssued { operation: IoOperation::Read, chunk_id: id, tier: TierId::Ram, sequence_id: 5 },
    };
    assert_eq!(record.chunk_id(), Some(id));
    assert_eq!(record.tier(), Some(TierId::Ram));
    assert_eq!(record.category(), "io");
    assert_eq!(record.event_name(), "io_request_issued");
    assert_eq!(record.event().sequence_id(), 5);
}

#[test]
fn test_io_operation_display() {
    assert_eq!(IoOperation::Read.as_str(), "read");
    assert_eq!(IoOperation::Write.as_str(), "write");
    assert_eq!(IoOperation::Delete.as_str(), "delete");
    assert_eq!(IoOperation::Flush.as_str(), "flush");
}

#[test]
fn test_io_event_chunk_id() {
    let id = ChunkId::from_data(b"test");
    let event = IoEvent::IoRequestIssued { operation: IoOperation::Read, chunk_id: id, tier: TierId::Disk };
    assert_eq!(event.chunk_id(), Some(id));
    let event = IoEvent::IoFlushIssued { tier: TierId::Disk };
    assert_eq!(event.chunk_id(), None);
}

#[test]
fn test_io_event_tier() {
    let id = ChunkId::from_data(b"test");
    let event = IoEvent::IoRequestCompleted {
        operation: IoOperation::Write,
        chunk_id: id,
        tier: TierId::Ram,
        duration_ticks: 100,
    };
    assert_eq!(event.tier(), Some(TierId::Ram));
    let event = IoEvent::IoBufferStateChange { tier: TierId::Disk, buffered: 512, capacity: 4096 };
    assert_eq!(event.tier(), Some(TierId::Disk));
}

#[test]
fn test_io_event_category() {
    let event = IoEvent::IoRequestIssued { operation: IoOperation::Read, chunk_id: ChunkId::from_data(b"t"), tier: TierId::Ram };
    assert_eq!(event.category(), "io");
}

#[test]
fn test_io_event_name() {
    let event = IoEvent::IoRequestIssued { operation: IoOperation::Read, chunk_id: ChunkId::from_data(b"t"), tier: TierId::Ram };
    assert_eq!(event.event_name(), "io_request_issued");
    let event = IoEvent::IoFlushCompleted { tier: TierId::Disk, duration_ticks: 50 };
    assert_eq!(event.event_name(), "io_flush_completed");
}

#[test]
fn test_all_io_event_variants_constructible() {
    let id = ChunkId::from_data(b"test");
    let events: Vec<IoEvent> = vec![
        IoEvent::IoRequestIssued { operation: IoOperation::Read, chunk_id: id, tier: TierId::Ram },
        IoEvent::IoRequestCompleted { operation: IoOperation::Write, chunk_id: id, tier: TierId::Disk, duration_ticks: 100 },
        IoEvent::IoRequestFailed {
            operation: IoOperation::Delete,
            chunk_id: id,
            tier: TierId::Simulation,
            error: "device lost".to_string(),
        },
        IoEvent::IoFlushIssued { tier: TierId::Disk },
        IoEvent::IoFlushCompleted { tier: TierId::Disk, duration_ticks: 50 },
        IoEvent::IoBufferStateChange { tier: TierId::Ram, buffered: 1024, capacity: 8192 },
    ];
    assert_eq!(events.len(), 6);
}

#[test]
fn every_event_carrying_a_chunk_reports_it() {
    let id = ChunkId([7u8; 32]);
    let e = Event::TransferCompleted { sequence_id: 0, chunk_id: id, from: TierId::Ram, to: TierId::GpuVram, duration_ms: 5 };
    assert_eq!(e.chunk_id(), Some(id));
    assert_eq!(e.tier(), Some(TierId::Ram));
    let e = Event::Eviction { sequence_id: 0, chunk_id: id, tier: TierId::Disk, reason: "cold".to_string() };
    assert_eq!(e.chunk_id(), Some(id));
    assert_eq!(e.tier(), Some(TierId::Disk));
    let e = Event::TransferFailed { sequence_id: 0, chunk_id: id, from: TierId::Disk, to: TierId::Ram, reason: "io".to_string() };
    assert_eq!(e.chunk_id(), Some(id));
    assert_eq!(e.tier(), Some(TierId::Disk));
    let e = Event::MigrationDecision { sequence_id: 0, chunk_id: id, from: TierId::GpuVram, to: TierId::Ram, decision: "go".to_string() };
    assert_eq!(e.chunk_id(), Some(id));
    assert_eq!(e.tier(), Some(TierId::GpuVram));
    let r = EventRecord { sequence_id: 1, timestamp: 2, event: e };
    assert_eq!(r.chunk_id(), Some(id));
}
