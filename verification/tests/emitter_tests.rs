use ghostpages::emitter::EventEmitter;
use ghostpages::event_multiplexer::{report_violation, violation_record, SequenceTracker};
use ghostpages::events::{Event, InvariantSeverity};
use ghostpages::types::{ChunkId, TierId};

#[test]
fn try_emit_stamps_increasing_sequence_ids() {
    let (tx, mut rx) = tokio::sync::mpsc::channel(8);
    let emitter = EventEmitter::new(tx);
    let clone = emitter.clone();
    emitter
        .try_emit(Event::AllocationCreated { chunk_id: ChunkId::from_data(b"a"), tier: TierId::Ram, size: 1, sequence_id: 0 })
        .unwrap();
    clone.try_emit(Event::AllocationFreed { chunk_id: ChunkId::from_data(b"b"), tier: TierId::Disk, sequence_id: 0 }).unwrap();
    let first = rx.try_recv().unwrap();
    let second = rx.try_recv().unwrap();
    assert_eq!(first.sequence_id(), 1);
    assert_eq!(second.sequence_id(), 2);
    assert_eq!(first.event_name(), "allocation_created");
    assert_eq!(second.tier(), Some(TierId::Disk));
    assert_eq!(emitter.next_sequence_id(), 3);
}

#[test]
fn try_emit_on_a_full_channel_hands_the_event_back() {
    let (tx, _rx) = tokio::sync::mpsc::channel(1);
    let emitter = EventEmitter::new(tx);
    emitter.try_emit(Event::QueueEnqueue { task_id: 1, sequence_id: 0 }).unwrap();
    match emitter.try_emit(Event::QueueEnqueue { task_id: 2, sequence_id: 0 }) {
        Err(tokio::sync::mpsc::error::TrySendError::Full(e)) => assert_eq!(e.sequence_id(), 2),
        other => panic!("expected a full channel, got {:?}", other),
    }
}

#[test]
fn stamp_keeps_the_payload() {
    let (tx, _rx) = tokio::sync::mpsc::channel(1);
    let emitter = EventEmitter::new(tx);
    let e = emitter.stamp(Event::RetryAttempted { chunk_id: ChunkId::from_data(b"r"), attempt: 2, max_attempts: 3, sequence_id: 0 });
    assert_eq!(e.sequence_id(), 1);
    assert_eq!(e.event_name(), "retry_attempted");
    assert!(!emitter.sender().is_closed());
}

#[test]
fn tracker_accepts_consecutive_ids() {
    let mut t = SequenceTracker::new();
    assert_eq!(t.last_sequence_id(), 0);
    for i in 1..=5 {
        assert!(t.observe(i).is_none());
    }
    assert_eq!(t.last_sequence_id(), 5);
}

#[test]
fn tracker_reports_a_gap() {
    let mut t = SequenceTracker::new();
    assert!(t.observe(1).is_none());
    assert!(t.observe(2).is_none());
    let v = t.observe(5).unwrap();
    assert_eq!(v.rule, "event_ordering_gap");
    assert_eq!(v.details, "Event sequence gap detected: expected 3, got 5 (gap of 2)");
    assert_eq!(v.severity, InvariantSeverity::Error);
    assert_eq!(t.last_sequence_id(), 5);
}

#[test]
fn tracker_reports_a_reordering() {
    let mut t = SequenceTracker::new();
    assert!(t.observe(2).is_none());
    let v = t.observe(1).unwrap();
    assert_eq!(v.rule, "event_ordering_monotonic");
    assert!(v.details.contains("reordering"));
    assert_eq!(v.details, "Event reordering detected: sequence_id 1 <= last 2");
    assert_eq!(v.severity, InvariantSeverity::Critical);
}

#[test]
fn violations_travel_as_records() {
    let mut t = SequenceTracker::new();
    t.observe(1);
    let v = t.observe(9).unwrap();
    let r = violation_record(v.clone(), 77);
    assert_eq!(r.timestamp, 77);
    assert_eq!(r.sequence_id, 0);
    match &r.event {
        Event::InvariantViolation { rule, details, severity, .. } => {
            assert_eq!(rule, "event_ordering_gap");
            assert!(details.contains("gap"));
            assert_eq!(*severity, InvariantSeverity::Error);
        }
        other => panic!("unexpected {:?}", other),
    }
    let (tx, mut rx) = tokio::sync::mpsc::channel(4);
    report_violation(Some(&tx), v);
    let got = rx.try_recv().unwrap();
    assert_eq!(got.event_name(), "invariant_violation");
    assert!(got.timestamp > 1_600_000_000);
    report_violation(None, t.observe(1).unwrap());
}
