use ghostpages::transfer::{TransferJob, TransferPriority, TransferState};
use ghostpages::types::{ChunkId, TierId};

#[test]
fn test_transfer_priority_value() {
    assert_eq!(TransferPriority::Low.value(), 0);
    assert_eq!(TransferPriority::Normal.value(), 1);
    assert_eq!(TransferPriority::High.value(), 2);
    assert_eq!(TransferPriority::Critical.value(), 3);
}

#[test]
fn test_transfer_priority_ordering() {
    assert!(TransferPriority::Critical.is_higher_than(TransferPriority::High));
    assert!(TransferPriority::High.is_higher_than(TransferPriority::Normal));
    assert!(TransferPriority::Normal.is_higher_than(TransferPriority::Low));
    assert!(!TransferPriority::Low.is_higher_than(TransferPriority::Normal));
}

#[test]
fn test_transfer_state_terminal() {
    assert!(TransferState::Complete.is_terminal());
    assert!(TransferState::Failed.is_terminal());
    assert!(TransferState::Cancelled.is_terminal());
    assert!(!TransferState::Queued.is_terminal());
    assert!(!TransferState::Transferring.is_terminal());
}

#[test]
fn test_transfer_state_active() {
    assert!(TransferState::Compressing.is_active());
    assert!(TransferState::Transferring.is_active());
    assert!(TransferState::Writing.is_active());
    assert!(TransferState::Verifying.is_active());
    assert!(!TransferState::Queued.is_active());
    assert!(!TransferState::Complete.is_active());
    assert!(!TransferState::Failed.is_active());
}

#[test]
fn test_transfer_job_creation() {
    let chunk_id = ChunkId::from_data(b"test");
    let job = TransferJob::new(chunk_id, TierId::Ram, TierId::GpuVram, 1024, TransferPriority::Normal);

    assert_eq!(job.chunk_id, chunk_id);
    assert_eq!(job.from_tier, TierId::Ram);
    assert_eq!(job.to_tier, TierId::GpuVram);
    assert_eq!(job.size, 1024);
    assert_eq!(job.priority, TransferPriority::Normal);
    assert_eq!(job.state, TransferState::Queued);
    assert_eq!(job.attempts, 0);
}

#[test]
fn test_transfer_job_record_attempt() {
    let mut job = TransferJob::new(
        ChunkId::from_data(b"test"),
        TierId::Ram,
        TierId::Disk,
        512,
        TransferPriority::Low,
    );

    assert_eq!(job.attempts, 0);
    job.record_attempt();
    assert_eq!(job.attempts, 1);
    job.record_attempt();
    assert_eq!(job.attempts, 2);
}

#[test]
fn test_transfer_job_transition_state() {
    let mut job = TransferJob::new(
        ChunkId::from_data(b"test"),
        TierId::Ram,
        TierId::Disk,
        512,
        TransferPriority::Normal,
    );

    assert_eq!(job.state, TransferState::Queued);
    job.transition_state(TransferState::Compressing);
    assert_eq!(job.state, TransferState::Compressing);
    job.transition_state(TransferState::Transferring);
    assert_eq!(job.state, TransferState::Transferring);
    job.transition_state(TransferState::Complete);
    assert_eq!(job.state, TransferState::Complete);
}

#[test]
fn test_transfer_job_is_urgent() {
    let critical = TransferJob::new(ChunkId::from_data(b"c"), TierId::Ram, TierId::Disk, 100, TransferPriority::Critical);
    assert!(critical.is_urgent());

    let high = TransferJob::new(ChunkId::from_data(b"h"), TierId::Ram, TierId::Disk, 100, TransferPriority::High);
    assert!(high.is_urgent());

    let normal = TransferJob::new(ChunkId::from_data(b"n"), TierId::Ram, TierId::Disk, 100, TransferPriority::Normal);
    assert!(!normal.is_urgent());

    let low = TransferJob::new(ChunkId::from_data(b"l"), TierId::Ram, TierId::Disk, 100, TransferPriority::Low);
    assert!(!low.is_urgent());
}

#[test]
fn test_transfer_job_elapsed() {
    let job = TransferJob::new(ChunkId::from_data(b"test"), TierId::Ram, TierId::Disk, 512, TransferPriority::Normal);
    let elapsed = job.elapsed();
    assert!(elapsed.as_nanos() > 0);
}

#[test]
fn test_transfer_priority_display() {
    assert_eq!(TransferPriority::Low.as_str(), "low");
    assert_eq!(TransferPriority::Normal.as_str(), "normal");
    assert_eq!(TransferPriority::High.as_str(), "high");
    assert_eq!(TransferPriority::Critical.as_str(), "critical");
}

#[test]
fn test_transfer_state_display() {
    assert_eq!(TransferState::Queued.as_str(), "queued");
    assert_eq!(TransferState::Compressing.as_str(), "compressing");
    assert_eq!(TransferState::Transferring.as_str(), "transferring");
    assert_eq!(TransferState::Writing.as_str(), "writing");
    assert_eq!(TransferState::Verifying.as_str(), "verifying");
    assert_eq!(TransferState::Complete.as_str(), "complete");
    assert_eq!(TransferState::Failed.as_str(), "failed");
    assert_eq!(TransferState::Cancelled.as_str(), "cancelled");
}

// ─── Further cases ─────────────────────────────────────────────────────────────

#[test]
fn fresh_job_is_not_timed_out_against_a_long_timeout() {
    let job = TransferJob::new(ChunkId::from_data(b"t"), TierId::Ram, TierId::Disk, 1, TransferPriority::Low);
    assert!(!job.is_timed_out(std::time::Duration::from_secs(3600)));
    assert!(job.created_at_secs > 1_600_000_000);
}

#[test]
fn job_times_out_against_a_zero_timeout() {
    let job = TransferJob::new(ChunkId::from_data(b"t"), TierId::Ram, TierId::Disk, 1, TransferPriority::Low);
    while job.elapsed().as_nanos() == 0 {}
    assert!(job.is_timed_out(std::time::Duration::from_nanos(0)));
}

#[test]
fn transfer_job_takes_the_given_reading() {
    let id = ChunkId::from_data(b"job");
    let at = std::time::Instant::now();
    let j = TransferJob::new_at(id, TierId::Ram, TierId::GpuVram, 1024, TransferPriority::Normal, at, 1_700_000_000);
    assert_eq!(j.created_at_secs, 1_700_000_000);
    assert_eq!(j.created_at, at);
    assert_eq!(j.state, TransferState::Queued);
    assert_eq!(j.attempts, 0);
}
