//! The unified event taxonomy: one structured event type that every subsystem
//! emits, grouped into allocation, orchestration, scheduler, migration, replay,
//! pressure, failure, invariant-violation and I/O categories.
use vstd::prelude::*;

use crate::io_events::IoOperation;
use crate::state::{F64Bits, PressureState};
use crate::types::{ChunkId, TierId};

verus! {

// ─── Invariant severity ────────────────────────────────────────────────────────

/// Severity of an invariant violation detected during replay validation,
/// ordered from `Info` (least severe) to `Critical`.
#[derive(Debug, Clone, Copy, PartialEq, Eq, Structural, PartialOrd, Ord)]
pub enum InvariantSeverity {
    /// Informational — not a correctness issue.
    Info,
    /// Warning — potential issue worth investigating.
    Warning,
    /// Error — correctness issue that should be addressed.
    Error,
    /// Critical — data corruption or safety issue.
    Critical,
}

/// The rank of a severity in its declared order (0 = `Info`).
pub open spec fn severity_rank(s: InvariantSeverity) -> int {
    match s {
        InvariantSeverity::Info => 0,
        InvariantSeverity::Warning => 1,
        InvariantSeverity::Error => 2,
        InvariantSeverity::Critical => 3,
    }
}

impl InvariantSeverity {
    /// The display name of this severity.
    pub fn as_str(&self) -> (s: &'static str)
        ensures
            s@ == (match *self {
                InvariantSeverity::Info => "info"@,
                InvariantSeverity::Warning => "warning"@,
                InvariantSeverity::Error => "error"@,
                InvariantSeverity::Critical => "critical"@,
            }),
    {
        match self {
            InvariantSeverity::Info => "info",
            InvariantSeverity::Warning => "warning",
            InvariantSeverity::Error => "error",
            InvariantSeverity::Critical => "critical",
        }
    }

    /// Whether this severity is strictly more severe than `other`, in the
    /// declared order of the variants.
    pub fn is_more_severe_than(&self, other: InvariantSeverity) -> (r: bool)
        ensures
            r == (severity_rank(*self) > severity_rank(other)),
    {
        let a: u8 = match self {
            InvariantSeverity::Info => 0,
            InvariantSeverity::Warning => 1,
            InvariantSeverity::Error => 2,
            InvariantSeverity::Critical => 3,
        };
        let b: u8 = match other {
            InvariantSeverity::Info => 0,
            InvariantSeverity::Warning => 1,
            InvariantSeverity::Error => 2,
            InvariantSeverity::Critical => 3,
        };
        a > b
    }
}

// ─── Backend health ────────────────────────────────────────────────────────────

/// Health status of a storage backend.
#[derive(Debug, Clone, Copy, PartialEq, Eq, Structural)]
pub enum BackendHealth {
    /// Backend is operating normally.
    Healthy,
    /// Backend is experiencing degraded performance or reliability.
    Degraded,
    /// Backend is unavailable.
    Unavailable,
    /// Backend is recovering from a degraded/unavailable state.
    Recovering,
}

impl BackendHealth {
    /// The display name of this health status.
    pub fn as_str(&self) -> (s: &'static str)
        ensures
            s@ == (match *self {
                BackendHealth::Healthy => "healthy"@,
                BackendHealth::Degraded => "degraded"@,
                BackendHealth::Unavailable => "unavailable"@,
                BackendHealth::Recovering => "recovering"@,
            }),
    {
        match self {
            BackendHealth::Healthy => "healthy",
            BackendHealth::Degraded => "degraded",
            BackendHealth::Unavailable => "unavailable",
            BackendHealth::Recovering => "recovering",
        }
    }
}

// ─── The event enum ────────────────────────────────────────────────────────────

/// A structured event emitted by any subsystem. Every variant carries the
/// sequence id that the emitter stamps on it. Float-valued scores are carried
/// as their bit patterns.
#[derive(Debug, Clone)]
pub enum Event {
    /// A new chunk was allocated in a tier.
    AllocationCreated {
        sequence_id: u64,
        chunk_id: ChunkId,
        tier: TierId,
        size: usize,
    },
    /// A chunk was freed from a tier.
    AllocationFreed {
        sequence_id: u64,
        chunk_id: ChunkId,
        tier: TierId,
    },
    /// An allocation operation failed.
    AllocationFailed {
        sequence_id: u64,
        chunk_id: ChunkId,
        reason: String,
    },
    /// A chunk eviction occurred.
    Eviction {
        sequence_id: u64,
        chunk_id: ChunkId,
        tier: TierId,
        reason: String,
    },
    /// A retrieve operation was performed.
    Retrieve {
        sequence_id: u64,
        key: String,
        hit: bool,
    },
    /// A transfer completed successfully.
    TransferCompleted {
        sequence_id: u64,
        chunk_id: ChunkId,
        from: TierId,
        to: TierId,
        duration_ms: u64,
    },
    /// A transfer failed.
    TransferFailed {
        sequence_id: u64,
        chunk_id: ChunkId,
        from: TierId,
        to: TierId,
        reason: String,
    },
    /// A store operation was performed (state mutation).
    Store {
        sequence_id: u64,
        key: String,
        value_size: usize,
    },
    /// An evict operation was performed.
    Evict {
        sequence_id: u64,
        key: String,
    },
    /// An item was enqueued in the scheduler queue.
    QueueEnqueue {
        sequence_id: u64,
        task_id: u64,
    },
    /// An item was dequeued from the scheduler queue.
    QueueDequeue {
        sequence_id: u64,
        task_id: u64,
    },
    /// A migration decision was made.
    MigrationDecision {
        sequence_id: u64,
        chunk_id: ChunkId,
        from: TierId,
        to: TierId,
        decision: String,
    },
    /// A migration was approved and will proceed.
    MigrationDecided {
        sequence_id: u64,
        chunk_id: ChunkId,
        from: TierId,
        to: TierId,
        cost_score: F64Bits,
    },
    /// A migration was deferred due to I/O pressure or queue depth.
    MigrationDeferred {
        sequence_id: u64,
        chunk_id: ChunkId,
        from: TierId,
        to: TierId,
        reason: String,
    },
    /// A migration was rejected due to physical cost exceeding threshold.
    MigrationRejected {
        sequence_id: u64,
        chunk_id: ChunkId,
        from: TierId,
        to: TierId,
        cost_score: F64Bits,
        threshold: F64Bits,
    },
    /// A chunk migration between tiers was started.
    MigrationStarted {
        sequence_id: u64,
        chunk_id: ChunkId,
        from: TierId,
        to: TierId,
    },
    /// A chunk migration completed successfully.
    MigrationCompleted {
        sequence_id: u64,
        chunk_id: ChunkId,
        from: TierId,
        to: TierId,
        duration_ms: u64,
    },
    /// A chunk migration failed.
    MigrationFailed {
        sequence_id: u64,
        chunk_id: ChunkId,
        from: TierId,
        to: TierId,
        reason: String,
    },
    /// A failed migration was rolled back to the source tier.
    MigrationRolledBack {
        sequence_id: u64,
        chunk_id: ChunkId,
        from: TierId,
        to: TierId,
    },
    /// A trace replay was started.
    ReplayStarted {
        sequence_id: u64,
        trace_path: String,
    },
    /// A trace replay completed successfully.
    ReplayCompleted {
        sequence_id: u64,
        trace_path: String,
        events: usize,
        duration_ms: u64,
    },
    /// A replay diverged from the expected trace.
    ReplayDivergence {
        sequence_id: u64,
        trace_path: String,
        expected: String,
        actual: String,
    },
    /// An invariant violation was detected during replay.
    ReplayInvariantViolation {
        sequence_id: u64,
        rule: String,
        details: String,
    },
    /// System pressure changed for a tier.
    PressureChanged {
        sequence_id: u64,
        tier: TierId,
        old: PressureState,
        new: PressureState,
    },
    /// Backpressure was activated for a tier.
    BackpressureActivated {
        sequence_id: u64,
        tier: TierId,
        level: String,
    },
    /// Backpressure was deactivated for a tier.
    BackpressureDeactivated {
        sequence_id: u64,
        tier: TierId,
    },
    /// A backend's health status changed.
    BackendHealthChanged {
        sequence_id: u64,
        tier: TierId,
        old: BackendHealth,
        new: BackendHealth,
    },
    /// A transfer is being retried.
    RetryAttempted {
        sequence_id: u64,
        chunk_id: ChunkId,
        attempt: u32,
        max_attempts: u32,
    },
    /// An operation failed irrecoverably.
    OperationFailed {
        sequence_id: u64,
        operation: String,
        reason: String,
    },
    /// An invariant was violated during replay validation.
    InvariantViolation {
        sequence_id: u64,
        rule: String,
        details: String,
        severity: InvariantSeverity,
    },
    /// An I/O request was issued to a tier.
    IoRequestIssued {
        sequence_id: u64,
        operation: IoOperation,
        chunk_id: ChunkId,
        tier: TierId,
    },
    /// An I/O request completed successfully.
    IoRequestCompleted {
        sequence_id: u64,
        operation: IoOperation,
        chunk_id: ChunkId,
        tier: TierId,
        duration_ticks: u64,
    },
    /// An I/O request failed.
    IoRequestFailed {
        sequence_id: u64,
        operation: IoOperation,
        chunk_id: ChunkId,
        tier: TierId,
        error: String,
    },
    /// A flush (fsync) was issued for a tier.
    IoFlushIssued {
        sequence_id: u64,
        tier: TierId,
    },
    /// A flush (fsync) completed for a tier.
    IoFlushCompleted {
        sequence_id: u64,
        tier: TierId,
        duration_ticks: u64,
    },
    /// The buffer fill level changed for a tier.
    IoBufferStateChange {
        sequence_id: u64,
        tier: TierId,
        buffered: usize,
        capacity: usize,
    },
}

/// The sequence id stamped on an event.
pub open spec fn event_seq(e: Event) -> u64 {
    match e {
        Event::AllocationCreated { sequence_id, .. } => sequence_id,
        Event::AllocationFreed { sequence_id, .. } => sequence_id,
        Event::AllocationFailed { sequence_id, .. } => sequence_id,
        Event::Eviction { sequence_id, .. } => sequence_id,
        Event::Retrieve { sequence_id, .. } => sequence_id,
        Event::TransferCompleted { sequence_id, .. } => sequence_id,
        Event::TransferFailed { sequence_id, .. } => sequence_id,
        Event::Store { sequence_id, .. } => sequence_id,
        Event::Evict { sequence_id, .. } => sequence_id,
        Event::QueueEnqueue { sequence_id, .. } => sequence_id,
        Event::QueueDequeue { sequence_id, .. } => sequence_id,
        Event::MigrationDecision { sequence_id, .. } => sequence_id,
        Event::MigrationDecided { sequence_id, .. } => sequence_id,
        Event::MigrationDeferred { sequence_id, .. } => sequence_id,
        Event::MigrationRejected { sequence_id, .. } => sequence_id,
        Event::MigrationStarted { sequence_id, .. } => sequence_id,
        Event::MigrationCompleted { sequence_id, .. } => sequence_id,
        Event::MigrationFailed { sequence_id, .. } => sequence_id,
        Event::MigrationRolledBack { sequence_id, .. } => sequence_id,
        Event::ReplayStarted { sequence_id, .. } => sequence_id,
        Event::ReplayCompleted { sequence_id, .. } => sequence_id,
        Event::ReplayDivergence { sequence_id, .. } => sequence_id,
        Event::ReplayInvariantViolation { sequence_id, .. } => sequence_id,
        Event::PressureChanged { sequence_id, .. } => sequence_id,
        Event::BackpressureActivated { sequence_id, .. } => sequence_id,
        Event::BackpressureDeactivated { sequence_id, .. } => sequence_id,
        Event::BackendHealthChanged { sequence_id, .. } => sequence_id,
        Event::RetryAttempted { sequence_id, .. } => sequence_id,
        Event::OperationFailed { sequence_id, .. } => sequence_id,
        Event::InvariantViolation { sequence_id, .. } => sequence_id,
        Event::IoRequestIssued { sequence_id, .. } => sequence_id,
        Event::IoRequestCompleted { sequence_id, .. } => sequence_id,
        Event::IoRequestFailed { sequence_id, .. } => sequence_id,
        Event::IoFlushIssued { sequence_id, .. } => sequence_id,
        Event::IoFlushCompleted { sequence_id, .. } => sequence_id,
        Event::IoBufferStateChange { sequence_id, .. } => sequence_id,
    }
}

/// The event `e` with its sequence id replaced by `s` and every other field
/// unchanged.
pub open spec fn event_with_seq(e: Event, s: u64) -> Event {
    match e {
        Event::AllocationCreated { chunk_id, tier, size, .. } => Event::AllocationCreated { sequence_id: s, chunk_id, tier, size },
        Event::AllocationFreed { chunk_id, tier, .. } => Event::AllocationFreed { sequence_id: s, chunk_id, tier },
        Event::AllocationFailed { chunk_id, reason, .. } => Event::AllocationFailed { sequence_id: s, chunk_id, reason },
        Event::Eviction { chunk_id, tier, reason, .. } => Event::Eviction { sequence_id: s, chunk_id, tier, reason },
        Event::Retrieve { key, hit, .. } => Event::Retrieve { sequence_id: s, key, hit },
        Event::TransferCompleted { chunk_id, from, to, duration_ms, .. } => Event::TransferCompleted { sequence_id: s, chunk_id, from, to, duration_ms },
        Event::TransferFailed { chunk_id, from, to, reason, .. } => Event::TransferFailed { sequence_id: s, chunk_id, from, to, reason },
        Event::Store { key, value_size, .. } => Event::Store { sequence_id: s, key, value_size },
        Event::Evict { key, .. } => Event::Evict { sequence_id: s, key },
        Event::QueueEnqueue { task_id, .. } => Event::QueueEnqueue { sequence_id: s, task_id },
        Event::QueueDequeue { task_id, .. } => Event::QueueDequeue { sequence_id: s, task_id },
        Event::MigrationDecision { chunk_id, from, to, decision, .. } => Event::MigrationDecision { sequence_id: s, chunk_id, from, to, decision },
        Event::MigrationDecided { chunk_id, from, to, cost_score, .. } => Event::MigrationDecided { sequence_id: s, chunk_id, from, to, cost_score },
        Event::MigrationDeferred { chunk_id, from, to, reason, .. } => Event::MigrationDeferred { sequence_id: s, chunk_id, from, to, reason },
        Event::MigrationRejected { chunk_id, from, to, cost_score, threshold, .. } => Event::MigrationRejected { sequence_id: s, chunk_id, from, to, cost_score, threshold },
        Event::MigrationStarted { chunk_id, from, to, .. } => Event::MigrationStarted { sequence_id: s, chunk_id, from, to },
        Event::MigrationCompleted { chunk_id, from, to, duration_ms, .. } => Event::MigrationCompleted { sequence_id: s, chunk_id, from, to, duration_ms },
        Event::MigrationFailed { chunk_id, from, to, reason, .. } => Event::MigrationFailed { sequence_id: s, chunk_id, from, to, reason },
        Event::MigrationRolledBack { chunk_id, from, to, .. } => Event::MigrationRolledBack { sequence_id: s, chunk_id, from, to },
        Event::ReplayStarted { trace_path, .. } => Event::ReplayStarted { sequence_id: s, trace_path },
        Event::ReplayCompleted { trace_path, events, duration_ms, .. } => Event::ReplayCompleted { sequence_id: s, trace_path, events, duration_ms },
        Event::ReplayDivergence { trace_path, expected, actual, .. } => Event::ReplayDivergence { sequence_id: s, trace_path, expected, actual },
        Event::ReplayInvariantViolation { rule, details, .. } => Event::ReplayInvariantViolation { sequence_id: s, rule, details },
        Event::PressureChanged { tier, old, new, .. } => Event::PressureChanged { sequence_id: s, tier, old, new },
        Event::BackpressureActivated { tier, level, .. } => Event::BackpressureActivated { sequence_id: s, tier, level },
        Event::BackpressureDeactivated { tier, .. } => Event::BackpressureDeactivated { sequence_id: s, tier },
        Event::BackendHealthChanged { tier, old, new, .. } => Event::BackendHealthChanged { sequence_id: s, tier, old, new },
        Event::RetryAttempted { chunk_id, attempt, max_attempts, .. } => Event::RetryAttempted { sequence_id: s, chunk_id, attempt, max_attempts },
        Event::OperationFailed { operation, reason, .. } => Event::OperationFailed { sequence_id: s, operation, reason },
        Event::InvariantViolation { rule, details, severity, .. } => Event::InvariantViolation { sequence_id: s, rule, details, severity },
        Event::IoRequestIssued { operation, chunk_id, tier, .. } => Event::IoRequestIssued { sequence_id: s, operation, chunk_id, tier },
        Event::IoRequestCompleted { operation, chunk_id, tier, duration_ticks, .. } => Event::IoRequestCompleted { sequence_id: s, operation, chunk_id, tier, duration_ticks },
        Event::IoRequestFailed { operation, chunk_id, tier, error, .. } => Event::IoRequestFailed { sequence_id: s, operation, chunk_id, tier, error },
        Event::IoFlushIssued { tier, .. } => Event::IoFlushIssued { sequence_id: s, tier },
        Event::IoFlushCompleted { tier, duration_ticks, .. } => Event::IoFlushCompleted { sequence_id: s, tier, duration_ticks },
        Event::IoBufferStateChange { tier, buffered, capacity, .. } => Event::IoBufferStateChange { sequence_id: s, tier, buffered, capacity },
    }
}

/// The chunk an event concerns, for every variant that carries one.
pub open spec fn event_chunk(e: Event) -> Option<ChunkId> {
    match e {
        Event::AllocationCreated { chunk_id, .. } => Some(chunk_id),
        Event::AllocationFreed { chunk_id, .. } => Some(chunk_id),
        Event::AllocationFailed { chunk_id, .. } => Some(chunk_id),
        Event::Eviction { chunk_id, .. } => Some(chunk_id),
        Event::TransferCompleted { chunk_id, .. } => Some(chunk_id),
        Event::TransferFailed { chunk_id, .. } => Some(chunk_id),
        Event::MigrationDecision { chunk_id, .. } => Some(chunk_id),
        Event::MigrationDecided { chunk_id, .. } => Some(chunk_id),
        Event::MigrationDeferred { chunk_id, .. } => Some(chunk_id),
        Event::MigrationRejected { chunk_id, .. } => Some(chunk_id),
        Event::MigrationStarted { chunk_id, .. } => Some(chunk_id),
        Event::MigrationCompleted { chunk_id, .. } => Some(chunk_id),
        Event::MigrationFailed { chunk_id, .. } => Some(chunk_id),
        Event::MigrationRolledBack { chunk_id, .. } => Some(chunk_id),
        Event::RetryAttempted { chunk_id, .. } => Some(chunk_id),
        Event::IoRequestIssued { chunk_id, .. } => Some(chunk_id),
        Event::IoRequestCompleted { chunk_id, .. } => Some(chunk_id),
        Event::IoRequestFailed { chunk_id, .. } => Some(chunk_id),
        _ => None,
    }
}

/// The tier an event concerns, for every variant that carries one; a transfer
/// or migration reports its source tier.
pub open spec fn event_tier(e: Event) -> Option<TierId> {
    match e {
        Event::AllocationCreated { tier, .. } => Some(tier),
        Event::AllocationFreed { tier, .. } => Some(tier),
        Event::Eviction { tier, .. } => Some(tier),
        Event::TransferCompleted { from, .. } => Some(from),
        Event::TransferFailed { from, .. } => Some(from),
        Event::MigrationDecision { from, .. } => Some(from),
        Event::MigrationDecided { from, .. } => Some(from),
        Event::MigrationDeferred { from, .. } => Some(from),
        Event::MigrationRejected { from, .. } => Some(from),
        Event::MigrationStarted { from, .. } => Some(from),
        Event::MigrationCompleted { from, .. } => Some(from),
        Event::MigrationFailed { from, .. } => Some(from),
        Event::MigrationRolledBack { from, .. } => Some(from),
        Event::PressureChanged { tier, .. } => Some(tier),
        Event::BackpressureActivated { tier, .. } => Some(tier),
        Event::BackpressureDeactivated { tier, .. } => Some(tier),
        Event::BackendHealthChanged { tier, .. } => Some(tier),
        Event::IoRequestIssued { tier, .. } => Some(tier),
        Event::IoRequestCompleted { tier, .. } => Some(tier),
        Event::IoRequestFailed { tier, .. } => Some(tier),
        Event::IoFlushIssued { tier, .. } => Some(tier),
        Event::IoFlushCompleted { tier, .. } => Some(tier),
        Event::IoBufferStateChange { tier, .. } => Some(tier),
        _ => None,
    }
}

/// The category an event belongs to.
pub open spec fn event_category(e: Event) -> Seq<char> {
    match e {
        Event::AllocationCreated { .. } => "allocation"@,
        Event::AllocationFreed { .. } => "allocation"@,
        Event::AllocationFailed { .. } => "allocation"@,
        Event::Eviction { .. } => "orchestration"@,
        Event::Retrieve { .. } => "orchestration"@,
        Event::TransferCompleted { .. } => "orchestration"@,
        Event::TransferFailed { .. } => "orchestration"@,
        Event::Store { .. } => "orchestration"@,
        Event::Evict { .. } => "orchestration"@,
        Event::QueueEnqueue { .. } => "scheduler"@,
        Event::QueueDequeue { .. } => "scheduler"@,
        Event::MigrationDecision { .. } => "migration"@,
        Event::MigrationDecided { .. } => "migration"@,
        Event::MigrationDeferred { .. } => "migration"@,
        Event::MigrationRejected { .. } => "migration"@,
        Event::MigrationStarted { .. } => "migration"@,
        Event::MigrationCompleted { .. } => "migration"@,
        Event::MigrationFailed { .. } => "migration"@,
        Event::MigrationRolledBack { .. } => "migration"@,
        Event::ReplayStarted { .. } => "replay"@,
        Event::ReplayCompleted { .. } => "replay"@,
        Event::ReplayDivergence { .. } => "replay"@,
        Event::ReplayInvariantViolation { .. } => "replay"@,
        Event::PressureChanged { .. } => "pressure"@,
        Event::BackpressureActivated { .. } => "pressure"@,
        Event::BackpressureDeactivated { .. } => "pressure"@,
        Event::BackendHealthChanged { .. } => "failure"@,
        Event::RetryAttempted { .. } => "failure"@,
        Event::OperationFailed { .. } => "failure"@,
        Event::InvariantViolation { .. } => "invariant_violation"@,
        Event::IoRequestIssued { .. } => "io"@,
        Event::IoRequestCompleted { .. } => "io"@,
        Event::IoRequestFailed { .. } => "io"@,
        Event::IoFlushIssued { .. } => "io"@,
        Event::IoFlushCompleted { .. } => "io"@,
        Event::IoBufferStateChange { .. } => "io"@,
    }
}

/// The name of an event's variant.
pub open spec fn event_name_of(e: Event) -> Seq<char> {
    match e {
        Event::AllocationCreated { .. } => "allocation_created"@,
        Event::AllocationFreed { .. } => "allocation_freed"@,
        Event::AllocationFailed { .. } => "allocation_failed"@,
        Event::Eviction { .. } => "eviction"@,
        Event::Retrieve { .. } => "retrieve"@,
        Event::TransferCompleted { .. } => "transfer_completed"@,
        Event::TransferFailed { .. } => "transfer_failed"@,
        Event::Store { .. } => "store"@,
        Event::Evict { .. } => "evict"@,
        Event::QueueEnqueue { .. } => "queue_enqueue"@,
        Event::QueueDequeue { .. } => "queue_dequeue"@,
        Event::MigrationDecision { .. } => "migration_decision"@,
        Event::MigrationDecided { .. } => "migration_decided"@,
        Event::MigrationDeferred { .. } => "migration_deferred"@,
        Event::MigrationRejected { .. } => "migration_rejected"@,
        Event::MigrationStarted { .. } => "migration_started"@,
        Event::MigrationCompleted { .. } => "migration_completed"@,
        Event::MigrationFailed { .. } => "migration_failed"@,
        Event::MigrationRolledBack { .. } => "migration_rolled_back"@,
        Event::ReplayStarted { .. } => "replay_started"@,
        Event::ReplayCompleted { .. } => "replay_completed"@,
        Event::ReplayDivergence { .. } => "replay_divergence"@,
        Event::ReplayInvariantViolation { .. } => "replay_invariant_violation"@,
        Event::PressureChanged { .. } => "pressure_changed"@,
        Event::BackpressureActivated { .. } => "backpressure_activated"@,
        Event::BackpressureDeactivated { .. } => "backpressure_deactivated"@,
        Event::BackendHealthChanged { .. } => "backend_health_changed"@,
        Event::RetryAttempted { .. } => "retry_attempted"@,
        Event::OperationFailed { .. } => "operation_failed"@,
        Event::InvariantViolation { .. } => "invariant_violation"@,
        Event::IoRequestIssued { .. } => "io_request_issued"@,
        Event::IoRequestCompleted { .. } => "io_request_completed"@,
        Event::IoRequestFailed { .. } => "io_request_failed"@,
        Event::IoFlushIssued { .. } => "io_flush_issued"@,
        Event::IoFlushCompleted { .. } => "io_flush_completed"@,
        Event::IoBufferStateChange { .. } => "io_buffer_state_change"@,
    }
}

impl Event {
    /// The sequence id stamped on this event.
    pub fn sequence_id(&self) -> (s: u64)
        ensures
            s == event_seq(*self),
    {
        match self {
            Event::AllocationCreated { sequence_id, .. } => *sequence_id,
            Event::AllocationFreed { sequence_id, .. } => *sequence_id,
            Event::AllocationFailed { sequence_id, .. } => *sequence_id,
            Event::Eviction { sequence_id, .. } => *sequence_id,
            Event::Retrieve { sequence_id, .. } => *sequence_id,
            Event::TransferCompleted { sequence_id, .. } => *sequence_id,
            Event::TransferFailed { sequence_id, .. } => *sequence_id,
            Event::Store { sequence_id, .. } => *sequence_id,
            Event::Evict { sequence_id, .. } => *sequence_id,
            Event::QueueEnqueue { sequence_id, .. } => *sequence_id,
            Event::QueueDequeue { sequence_id, .. } => *sequence_id,
            Event::MigrationDecision { sequence_id, .. } => *sequence_id,
            Event::MigrationDecided { sequence_id, .. } => *sequence_id,
            Event::MigrationDeferred { sequence_id, .. } => *sequence_id,
            Event::MigrationRejected { sequence_id, .. } => *sequence_id,
            Event::MigrationStarted { sequence_id, .. } => *sequence_id,
            Event::MigrationCompleted { sequence_id, .. } => *sequence_id,
            Event::MigrationFailed { sequence_id, .. } => *sequence_id,
            Event::MigrationRolledBack { sequence_id, .. } => *sequence_id,
            Event::ReplayStarted { sequence_id, .. } => *sequence_id,
            Event::ReplayCompleted { sequence_id, .. } => *sequence_id,
            Event::ReplayDivergence { sequence_id, .. } => *sequence_id,
            Event::ReplayInvariantViolation { sequence_id, .. } => *sequence_id,
            Event::PressureChanged { sequence_id, .. } => *sequence_id,
            Event::BackpressureActivated { sequence_id, .. } => *sequence_id,
            Event::BackpressureDeactivated { sequence_id, .. } => *sequence_id,
            Event::BackendHealthChanged { sequence_id, .. } => *sequence_id,
            Event::RetryAttempted { sequence_id, .. } => *sequence_id,
            Event::OperationFailed { sequence_id, .. } => *sequence_id,
            Event::InvariantViolation { sequence_id, .. } => *sequence_id,
            Event::IoRequestIssued { sequence_id, .. } => *sequence_id,
            Event::IoRequestCompleted { sequence_id, .. } => *sequence_id,
            Event::IoRequestFailed { sequence_id, .. } => *sequence_id,
            Event::IoFlushIssued { sequence_id, .. } => *sequence_id,
            Event::IoFlushCompleted { sequence_id, .. } => *sequence_id,
            Event::IoBufferStateChange { sequence_id, .. } => *sequence_id,
        }
    }

    /// This event with its sequence id set to `sequence_id`; every other field
    /// is kept.
    pub fn with_sequence_id(self, sequence_id: u64) -> (r: Event)
        ensures
            r == event_with_seq(self, sequence_id),
    {
        match self {
            Event::AllocationCreated { chunk_id, tier, size, .. } => Event::AllocationCreated { sequence_id, chunk_id, tier, size },
            Event::AllocationFreed { chunk_id, tier, .. } => Event::AllocationFreed { sequence_id, chunk_id, tier },
            Event::AllocationFailed { chunk_id, reason, .. } => Event::AllocationFailed { sequence_id, chunk_id, reason },
            Event::Eviction { chunk_id, tier, reason, .. } => Event::Eviction { sequence_id, chunk_id, tier, reason },
            Event::Retrieve { key, hit, .. } => Event::Retrieve { sequence_id, key, hit },
            Event::TransferCompleted { chunk_id, from, to, duration_ms, .. } => Event::TransferCompleted { sequence_id, chunk_id, from, to, duration_ms },
            Event::TransferFailed { chunk_id, from, to, reason, .. } => Event::TransferFailed { sequence_id, chunk_id, from, to, reason },
            Event::Store { key, value_size, .. } => Event::Store { sequence_id, key, value_size },
            Event::Evict { key, .. } => Event::Evict { sequence_id, key },
            Event::QueueEnqueue { task_id, .. } => Event::QueueEnqueue { sequence_id, task_id },
            Event::QueueDequeue { task_id, .. } => Event::QueueDequeue { sequence_id, task_id },
            Event::MigrationDecision { chunk_id, from, to, decision, .. } => Event::MigrationDecision { sequence_id, chunk_id, from, to, decision },
            Event::MigrationDecided { chunk_id, from, to, cost_score, .. } => Event::MigrationDecided { sequence_id, chunk_id, from, to, cost_score },
            Event::MigrationDeferred { chunk_id, from, to, reason, .. } => Event::MigrationDeferred { sequence_id, chunk_id, from, to, reason },
            Event::MigrationRejected { chunk_id, from, to, cost_score, threshold, .. } => Event::MigrationRejected { sequence_id, chunk_id, from, to, cost_score, threshold },
            Event::MigrationStarted { chunk_id, from, to, .. } => Event::MigrationStarted { sequence_id, chunk_id, from, to },
            Event::MigrationCompleted { chunk_id, from, to, duration_ms, .. } => Event::MigrationCompleted { sequence_id, chunk_id, from, to, duration_ms },
            Event::MigrationFailed { chunk_id, from, to, reason, .. } => Event::MigrationFailed { sequence_id, chunk_id, from, to, reason },
            Event::MigrationRolledBack { chunk_id, from, to, .. } => Event::MigrationRolledBack { sequence_id, chunk_id, from, to },
            Event::ReplayStarted { trace_path, .. } => Event::ReplayStarted { sequence_id, trace_path },
            Event::ReplayCompleted { trace_path, events, duration_ms, .. } => Event::ReplayCompleted { sequence_id, trace_path, events, duration_ms },
            Event::ReplayDivergence { trace_path, expected, actual, .. } => Event::ReplayDivergence { sequence_id, trace_path, expected, actual },
            Event::ReplayInvariantViolation { rule, details, .. } => Event::ReplayInvariantViolation { sequence_id, rule, details },
            Event::PressureChanged { tier, old, new, .. } => Event::PressureChanged { sequence_id, tier, old, new },
            Event::BackpressureActivated { tier, level, .. } => Event::BackpressureActivated { sequence_id, tier, level },
            Event::BackpressureDeactivated { tier, .. } => Event::BackpressureDeactivated { sequence_id, tier },
            Event::BackendHealthChanged { tier, old, new, .. } => Event::BackendHealthChanged { sequence_id, tier, old, new },
            Event::RetryAttempted { chunk_id, attempt, max_attempts, .. } => Event::RetryAttempted { sequence_id, chunk_id, attempt, max_attempts },
            Event::OperationFailed { operation, reason, .. } => Event::OperationFailed { sequence_id, operation, reason },
            Event::InvariantViolation { rule, details, severity, .. } => Event::InvariantViolation { sequence_id, rule, details, severity },
            Event::IoRequestIssued { operation, chunk_id, tier, .. } => Event::IoRequestIssued { sequence_id, operation, chunk_id, tier },
            Event::IoRequestCompleted { operation, chunk_id, tier, duration_ticks, .. } => Event::IoRequestCompleted { sequence_id, operation, chunk_id, tier, duration_ticks },
            Event::IoRequestFailed { operation, chunk_id, tier, error, .. } => Event::IoRequestFailed { sequence_id, operation, chunk_id, tier, error },
            Event::IoFlushIssued { tier, .. } => Event::IoFlushIssued { sequence_id, tier },
            Event::IoFlushCompleted { tier, duration_ticks, .. } => Event::IoFlushCompleted { sequence_id, tier, duration_ticks },
            Event::IoBufferStateChange { tier, buffered, capacity, .. } => Event::IoBufferStateChange { sequence_id, tier, buffered, capacity },
        }
    }

    /// The chunk this event concerns, if any.
    pub fn chunk_id(&self) -> (r: Option<ChunkId>)
        ensures
            r == event_chunk(*self),
    {
        match self {
            Event::AllocationCreated { chunk_id, .. } => Some(*chunk_id),
            Event::AllocationFreed { chunk_id, .. } => Some(*chunk_id),
            Event::AllocationFailed { chunk_id, .. } => Some(*chunk_id),
            Event::Eviction { chunk_id, .. } => Some(*chunk_id),
            Event::TransferCompleted { chunk_id, .. } => Some(*chunk_id),
            Event::TransferFailed { chunk_id, .. } => Some(*chunk_id),
            Event::MigrationDecision { chunk_id, .. } => Some(*chunk_id),
            Event::MigrationDecided { chunk_id, .. } => Some(*chunk_id),
            Event::MigrationDeferred { chunk_id, .. } => Some(*chunk_id),
            Event::MigrationRejected { chunk_id, .. } => Some(*chunk_id),
            Event::MigrationStarted { chunk_id, .. } => Some(*chunk_id),
            Event::MigrationCompleted { chunk_id, .. } => Some(*chunk_id),
            Event::MigrationFailed { chunk_id, .. } => Some(*chunk_id),
            Event::MigrationRolledBack { chunk_id, .. } => Some(*chunk_id),
            Event::RetryAttempted { chunk_id, .. } => Some(*chunk_id),
            Event::IoRequestIssued { chunk_id, .. } => Some(*chunk_id),
            Event::IoRequestCompleted { chunk_id, .. } => Some(*chunk_id),
            Event::IoRequestFailed { chunk_id, .. } => Some(*chunk_id),
            _ => None,
        }
    }

    /// The tier this event concerns, if any (the source tier of a transfer or migration).
    pub fn tier(&self) -> (r: Option<TierId>)
        ensures
            r == event_tier(*self),
    {
        match self {
            Event::AllocationCreated { tier, .. } => Some(*tier),
            Event::AllocationFreed { tier, .. } => Some(*tier),
            Event::Eviction { tier, .. } => Some(*tier),
            Event::TransferCompleted { from, .. } => Some(*from),
            Event::TransferFailed { from, .. } => Some(*from),
            Event::MigrationDecision { from, .. } => Some(*from),
            Event::MigrationDecided { from, .. } => Some(*from),
            Event::MigrationDeferred { from, .. } => Some(*from),
            Event::MigrationRejected { from, .. } => Some(*from),
            Event::MigrationStarted { from, .. } => Some(*from),
            Event::MigrationCompleted { from, .. } => Some(*from),
            Event::MigrationFailed { from, .. } => Some(*from),
            Event::MigrationRolledBack { from, .. } => Some(*from),
            Event::PressureChanged { tier, .. } => Some(*tier),
            Event::BackpressureActivated { tier, .. } => Some(*tier),
            Event::BackpressureDeactivated { tier, .. } => Some(*tier),
            Event::BackendHealthChanged { tier, .. } => Some(*tier),
            Event::IoRequestIssued { tier, .. } => Some(*tier),
            Event::IoRequestCompleted { tier, .. } => Some(*tier),
            Event::IoRequestFailed { tier, .. } => Some(*tier),
            Event::IoFlushIssued { tier, .. } => Some(*tier),
            Event::IoFlushCompleted { tier, .. } => Some(*tier),
            Event::IoBufferStateChange { tier, .. } => Some(*tier),
            _ => None,
        }
    }

    /// The category this event belongs to.
    pub fn category(&self) -> (s: &'static str)
        ensures
            s@ == event_category(*self),
    {
        match self {
            Event::AllocationCreated { .. }
            | Event::AllocationFreed { .. }
            | Event::AllocationFailed { .. } => "allocation",
            Event::Eviction { .. }
            | Event::Retrieve { .. }
            | Event::TransferCompleted { .. }
            | Event::TransferFailed { .. }
            | Event::Store { .. }
            | Event::Evict { .. } => "orchestration",
            Event::QueueEnqueue { .. }
            | Event::QueueDequeue { .. } => "scheduler",
            Event::MigrationDecision { .. }
            | Event::MigrationDecided { .. }
            | Event::MigrationDeferred { .. }
            | Event::MigrationRejected { .. }
            | Event::MigrationStarted { .. }
            | Event::MigrationCompleted { .. }
            | Event::MigrationFailed { .. }
            | Event::MigrationRolledBack { .. } => "migration",
            Event::ReplayStarted { .. }
            | Event::ReplayCompleted { .. }
            | Event::ReplayDivergence { .. }
            | Event::ReplayInvariantViolation { .. } => "replay",
            Event::PressureChanged { .. }
            | Event::BackpressureActivated { .. }
            | Event::BackpressureDeactivated { .. } => "pressure",
            Event::BackendHealthChanged { .. }
            | Event::RetryAttempted { .. }
            | Event::OperationFailed { .. } => "failure",
            Event::InvariantViolation { .. } => "invariant_violation",
            Event::IoRequestIssued { .. }
            | Event::IoRequestCompleted { .. }
            | Event::IoRequestFailed { .. }
            | Event::IoFlushIssued { .. }
            | Event::IoFlushCompleted { .. }
            | Event::IoBufferStateChange { .. } => "io",
        }
    }

    /// The name of this event's variant.
    pub fn event_name(&self) -> (s: &'static str)
        ensures
            s@ == event_name_of(*self),
    {
        match self {
            Event::AllocationCreated { .. } => "allocation_created",
            Event::AllocationFreed { .. } => "allocation_freed",
            Event::AllocationFailed { .. } => "allocation_failed",
            Event::Eviction { .. } => "eviction",
            Event::Retrieve { .. } => "retrieve",
            Event::TransferCompleted { .. } => "transfer_completed",
            Event::TransferFailed { .. } => "transfer_failed",
            Event::Store { .. } => "store",
            Event::Evict { .. } => "evict",
            Event::QueueEnqueue { .. } => "queue_enqueue",
            Event::QueueDequeue { .. } => "queue_dequeue",
            Event::MigrationDecision { .. } => "migration_decision",
            Event::MigrationDecided { .. } => "migration_decided",
            Event::MigrationDeferred { .. } => "migration_deferred",
            Event::MigrationRejected { .. } => "migration_rejected",
            Event::MigrationStarted { .. } => "migration_started",
            Event::MigrationCompleted { .. } => "migration_completed",
            Event::MigrationFailed { .. } => "migration_failed",
            Event::MigrationRolledBack { .. } => "migration_rolled_back",
            Event::ReplayStarted { .. } => "replay_started",
            Event::ReplayCompleted { .. } => "replay_completed",
            Event::ReplayDivergence { .. } => "replay_divergence",
            Event::ReplayInvariantViolation { .. } => "replay_invariant_violation",
            Event::PressureChanged { .. } => "pressure_changed",
            Event::BackpressureActivated { .. } => "backpressure_activated",
            Event::BackpressureDeactivated { .. } => "backpressure_deactivated",
            Event::BackendHealthChanged { .. } => "backend_health_changed",
            Event::RetryAttempted { .. } => "retry_attempted",
            Event::OperationFailed { .. } => "operation_failed",
            Event::InvariantViolation { .. } => "invariant_violation",
            Event::IoRequestIssued { .. } => "io_request_issued",
            Event::IoRequestCompleted { .. } => "io_request_completed",
            Event::IoRequestFailed { .. } => "io_request_failed",
            Event::IoFlushIssued { .. } => "io_flush_issued",
            Event::IoFlushCompleted { .. } => "io_flush_completed",
            Event::IoBufferStateChange { .. } => "io_buffer_state_change",
        }
    }
}

/// Stamping a sequence id is a pure field update: reading it back gives the
/// stamped id, restamping keeps only the last stamp, and stamping an event with
/// its own id changes nothing.
pub proof fn lemma_with_sequence_id_laws(e: Event, a: u64, b: u64)
    ensures
        event_seq(event_with_seq(e, a)) == a,
        event_with_seq(event_with_seq(e, a), b) == event_with_seq(e, b),
        event_with_seq(e, event_seq(e)) == e,
{
    match e {
        Event::AllocationCreated { .. } => {}
        Event::AllocationFreed { .. } => {}
        Event::AllocationFailed { .. } => {}
        Event::Eviction { .. } => {}
        Event::Retrieve { .. } => {}
        Event::TransferCompleted { .. } => {}
        Event::TransferFailed { .. } => {}
        Event::Store { .. } => {}
        Event::Evict { .. } => {}
        Event::QueueEnqueue { .. } => {}
        Event::QueueDequeue { .. } => {}
        Event::MigrationDecision { .. } => {}
        Event::MigrationDecided { .. } => {}
        Event::MigrationDeferred { .. } => {}
        Event::MigrationRejected { .. } => {}
        Event::MigrationStarted { .. } => {}
        Event::MigrationCompleted { .. } => {}
        Event::MigrationFailed { .. } => {}
        Event::MigrationRolledBack { .. } => {}
        Event::ReplayStarted { .. } => {}
        Event::ReplayCompleted { .. } => {}
        Event::ReplayDivergence { .. } => {}
        Event::ReplayInvariantViolation { .. } => {}
        Event::PressureChanged { .. } => {}
        Event::BackpressureActivated { .. } => {}
        Event::BackpressureDeactivated { .. } => {}
        Event::BackendHealthChanged { .. } => {}
        Event::RetryAttempted { .. } => {}
        Event::OperationFailed { .. } => {}
        Event::InvariantViolation { .. } => {}
        Event::IoRequestIssued { .. } => {}
        Event::IoRequestCompleted { .. } => {}
        Event::IoRequestFailed { .. } => {}
        Event::IoFlushIssued { .. } => {}
        Event::IoFlushCompleted { .. } => {}
        Event::IoBufferStateChange { .. } => {}
    }
}

/// Stamping a sequence id keeps the event's category, name, chunk and tier.
pub proof fn lemma_with_sequence_id_keeps_payload(e: Event, a: u64)
    ensures
        event_category(event_with_seq(e, a)) == event_category(e),
        event_name_of(event_with_seq(e, a)) == event_name_of(e),
        event_chunk(event_with_seq(e, a)) == event_chunk(e),
        event_tier(event_with_seq(e, a)) == event_tier(e),
{
    match e {
        Event::AllocationCreated { .. } => {}
        Event::AllocationFreed { .. } => {}
        Event::AllocationFailed { .. } => {}
        Event::Eviction { .. } => {}
        Event::Retrieve { .. } => {}
        Event::TransferCompleted { .. } => {}
        Event::TransferFailed { .. } => {}
        Event::Store { .. } => {}
        Event::Evict { .. } => {}
        Event::QueueEnqueue { .. } => {}
        Event::QueueDequeue { .. } => {}
        Event::MigrationDecision { .. } => {}
        Event::MigrationDecided { .. } => {}
        Event::MigrationDeferred { .. } => {}
        Event::MigrationRejected { .. } => {}
        Event::MigrationStarted { .. } => {}
        Event::MigrationCompleted { .. } => {}
        Event::MigrationFailed { .. } => {}
        Event::MigrationRolledBack { .. } => {}
        Event::ReplayStarted { .. } => {}
        Event::ReplayCompleted { .. } => {}
        Event::ReplayDivergence { .. } => {}
        Event::ReplayInvariantViolation { .. } => {}
        Event::PressureChanged { .. } => {}
        Event::BackpressureActivated { .. } => {}
        Event::BackpressureDeactivated { .. } => {}
        Event::BackendHealthChanged { .. } => {}
        Event::RetryAttempted { .. } => {}
        Event::OperationFailed { .. } => {}
        Event::InvariantViolation { .. } => {}
        Event::IoRequestIssued { .. } => {}
        Event::IoRequestCompleted { .. } => {}
        Event::IoRequestFailed { .. } => {}
        Event::IoFlushIssued { .. } => {}
        Event::IoFlushCompleted { .. } => {}
        Event::IoBufferStateChange { .. } => {}
    }
}

// ─── Event record ──────────────────────────────────────────────────────────────

/// An event with its ordering metadata: the sequence id that gives a total
/// order over one run, and the emission timestamp in seconds since the epoch.
#[derive(Debug, Clone)]
pub struct EventRecord {
    /// Monotonically increasing sequence id assigned at emission.
    pub sequence_id: u64,
    /// Emission timestamp (seconds since the Unix epoch).
    pub timestamp: u64,
    /// The inner event payload.
    pub event: Event,
}

impl EventRecord {
    /// The inner event.
    pub fn event(&self) -> (e: &Event)
        ensures
            *e == self.event,
    {
        &self.event
    }

    /// The chunk the inner event concerns, if any.
    pub fn chunk_id(&self) -> (r: Option<ChunkId>)
        ensures
            r == event_chunk(self.event),
    {
        self.event.chunk_id()
    }

    /// The tier the inner event concerns, if any.
    pub fn tier(&self) -> (r: Option<TierId>)
        ensures
            r == event_tier(self.event),
    {
        self.event.tier()
    }

    /// The category of the inner event.
    pub fn category(&self) -> (s: &'static str)
        ensures
            s@ == event_category(self.event),
    {
        self.event.category()
    }

    /// The name of the inner event's variant.
    pub fn event_name(&self) -> (s: &'static str)
        ensures
            s@ == event_name_of(self.event),
    {
        self.event.event_name()
    }
}

} // verus!
