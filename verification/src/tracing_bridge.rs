//! How events are reported to a structured log: the level and the message of
//! each kind of event.
use vstd::prelude::*;

use crate::events::Event;

verus! {

/// The severity at which an event is logged, from least to most severe.
#[derive(Debug, Clone, Copy, PartialEq, Eq, Structural)]
pub enum LogLevel {
    /// Fine-grained diagnostics.
    Debug,
    /// Normal operation.
    Info,
    /// Something unexpected that the system recovers from.
    Warn,
    /// A failure.
    Error,
}

/// The rank of a level (0 = `Debug`).
pub open spec fn log_level_rank(l: LogLevel) -> int {
    match l {
        LogLevel::Debug => 0,
        LogLevel::Info => 1,
        LogLevel::Warn => 2,
        LogLevel::Error => 3,
    }
}

/// The lower-case name of a level.
pub open spec fn log_level_name(l: LogLevel) -> Seq<char> {
    match l {
        LogLevel::Debug => "debug"@,
        LogLevel::Info => "info"@,
        LogLevel::Warn => "warn"@,
        LogLevel::Error => "error"@,
    }
}

impl LogLevel {
    /// The lower-case name of this level.
    pub fn as_str(&self) -> (s: &'static str)
        ensures
            s@ == log_level_name(*self),
    {
        match self {
            LogLevel::Debug => "debug",
            LogLevel::Info => "info",
            LogLevel::Warn => "warn",
            LogLevel::Error => "error",
        }
    }

    /// Whether this level is at least as severe as `other`.
    pub fn at_least(&self, other: LogLevel) -> (r: bool)
        ensures
            r == (log_level_rank(*self) >= log_level_rank(other)),
    {
        self.rank() >= other.rank()
    }

    fn rank(&self) -> (r: u8)
        ensures
            r == log_level_rank(*self),
    {
        match self {
            LogLevel::Debug => 0,
            LogLevel::Info => 1,
            LogLevel::Warn => 2,
            LogLevel::Error => 3,
        }
    }
}

/// The level at which an event is logged.
pub open spec fn event_log_level(e: Event) -> LogLevel {
    match e {
        Event::AllocationCreated { .. } => LogLevel::Info,
        Event::AllocationFreed { .. } => LogLevel::Info,
        Event::AllocationFailed { .. } => LogLevel::Warn,
        Event::Eviction { .. } => LogLevel::Info,
        Event::Retrieve { .. } => LogLevel::Info,
        Event::TransferCompleted { .. } => LogLevel::Info,
        Event::TransferFailed { .. } => LogLevel::Error,
        Event::Store { .. } => LogLevel::Info,
        Event::Evict { .. } => LogLevel::Info,
        Event::QueueEnqueue { .. } => LogLevel::Info,
        Event::QueueDequeue { .. } => LogLevel::Info,
        Event::MigrationDecision { .. } => LogLevel::Info,
        Event::MigrationDecided { .. } => LogLevel::Info,
        Event::MigrationDeferred { .. } => LogLevel::Info,
        Event::MigrationRejected { .. } => LogLevel::Warn,
        Event::MigrationStarted { .. } => LogLevel::Info,
        Event::MigrationCompleted { .. } => LogLevel::Info,
        Event::MigrationFailed { .. } => LogLevel::Error,
        Event::MigrationRolledBack { .. } => LogLevel::Warn,
        Event::ReplayStarted { .. } => LogLevel::Info,
        Event::ReplayCompleted { .. } => LogLevel::Info,
        Event::ReplayDivergence { .. } => LogLevel::Error,
        Event::ReplayInvariantViolation { .. } => LogLevel::Warn,
        Event::PressureChanged { .. } => LogLevel::Info,
        Event::BackpressureActivated { .. } => LogLevel::Warn,
        Event::BackpressureDeactivated { .. } => LogLevel::Info,
        Event::BackendHealthChanged { .. } => LogLevel::Warn,
        Event::RetryAttempted { .. } => LogLevel::Warn,
        Event::OperationFailed { .. } => LogLevel::Error,
        Event::InvariantViolation { .. } => LogLevel::Error,
        Event::IoRequestIssued { .. } => LogLevel::Info,
        Event::IoRequestCompleted { .. } => LogLevel::Info,
        Event::IoRequestFailed { .. } => LogLevel::Error,
        Event::IoFlushIssued { .. } => LogLevel::Info,
        Event::IoFlushCompleted { .. } => LogLevel::Info,
        Event::IoBufferStateChange { .. } => LogLevel::Debug,
    }
}

/// The message with which an event is logged.
pub open spec fn event_log_message(e: Event) -> Seq<char> {
    match e {
        Event::AllocationCreated { .. } => "Chunk allocated"@,
        Event::AllocationFreed { .. } => "Chunk freed"@,
        Event::AllocationFailed { .. } => "Allocation failed"@,
        Event::Eviction { .. } => "Chunk evicted"@,
        Event::Retrieve { .. } => "Retrieve operation"@,
        Event::TransferCompleted { .. } => "Transfer completed"@,
        Event::TransferFailed { .. } => "Transfer failed"@,
        Event::Store { .. } => "Store operation"@,
        Event::Evict { .. } => "Evict operation"@,
        Event::QueueEnqueue { .. } => "Task enqueued"@,
        Event::QueueDequeue { .. } => "Task dequeued"@,
        Event::MigrationDecision { .. } => "Migration decision"@,
        Event::MigrationDecided { .. } => "Migration decided"@,
        Event::MigrationDeferred { .. } => "Migration deferred"@,
        Event::MigrationRejected { .. } => "Migration rejected"@,
        Event::MigrationStarted { .. } => "Migration started"@,
        Event::MigrationCompleted { .. } => "Migration completed"@,
        Event::MigrationFailed { .. } => "Migration failed"@,
        Event::MigrationRolledBack { .. } => "Migration rolled back"@,
        Event::ReplayStarted { .. } => "Replay started"@,
        Event::ReplayCompleted { .. } => "Replay completed"@,
        Event::ReplayDivergence { .. } => "Replay diverged"@,
        Event::ReplayInvariantViolation { .. } => "Replay invariant violation"@,
        Event::PressureChanged { .. } => "Pressure changed"@,
        Event::BackpressureActivated { .. } => "Backpressure activated"@,
        Event::BackpressureDeactivated { .. } => "Backpressure deactivated"@,
        Event::BackendHealthChanged { .. } => "Backend health changed"@,
        Event::RetryAttempted { .. } => "Retry attempted"@,
        Event::OperationFailed { .. } => "Operation failed"@,
        Event::InvariantViolation { .. } => "Invariant violation"@,
        Event::IoRequestIssued { .. } => "I/O request issued"@,
        Event::IoRequestCompleted { .. } => "I/O request completed"@,
        Event::IoRequestFailed { .. } => "I/O request failed"@,
        Event::IoFlushIssued { .. } => "I/O flush issued"@,
        Event::IoFlushCompleted { .. } => "I/O flush completed"@,
        Event::IoBufferStateChange { .. } => "I/O buffer state changed"@,
    }
}

/// The level at which `event` is logged.
pub fn log_level(event: &Event) -> (l: LogLevel)
    ensures
        l == event_log_level(*event),
{
    match event {
        Event::AllocationCreated { .. } => LogLevel::Info,
        Event::AllocationFreed { .. } => LogLevel::Info,
        Event::AllocationFailed { .. } => LogLevel::Warn,
        Event::Eviction { .. } => LogLevel::Info,
        Event::Retrieve { .. } => LogLevel::Info,
        Event::TransferCompleted { .. } => LogLevel::Info,
        Event::TransferFailed { .. } => LogLevel::Error,
        Event::Store { .. } => LogLevel::Info,
        Event::Evict { .. } => LogLevel::Info,
        Event::QueueEnqueue { .. } => LogLevel::Info,
        Event::QueueDequeue { .. } => LogLevel::Info,
        Event::MigrationDecision { .. } => LogLevel::Info,
        Event::MigrationDecided { .. } => LogLevel::Info,
        Event::MigrationDeferred { .. } => LogLevel::Info,
        Event::MigrationRejected { .. } => LogLevel::Warn,
        Event::MigrationStarted { .. } => LogLevel::Info,
        Event::MigrationCompleted { .. } => LogLevel::Info,
        Event::MigrationFailed { .. } => LogLevel::Error,
        Event::MigrationRolledBack { .. } => LogLevel::Warn,
        Event::ReplayStarted { .. } => LogLevel::Info,
        Event::ReplayCompleted { .. } => LogLevel::Info,
        Event::ReplayDivergence { .. } => LogLevel::Error,
        Event::ReplayInvariantViolation { .. } => LogLevel::Warn,
        Event::PressureChanged { .. } => LogLevel::Info,
        Event::BackpressureActivated { .. } => LogLevel::Warn,
        Event::BackpressureDeactivated { .. } => LogLevel::Info,
        Event::BackendHealthChanged { .. } => LogLevel::Warn,
        Event::RetryAttempted { .. } => LogLevel::Warn,
        Event::OperationFailed { .. } => LogLevel::Error,
        Event::InvariantViolation { .. } => LogLevel::Error,
        Event::IoRequestIssued { .. } => LogLevel::Info,
        Event::IoRequestCompleted { .. } => LogLevel::Info,
        Event::IoRequestFailed { .. } => LogLevel::Error,
        Event::IoFlushIssued { .. } => LogLevel::Info,
        Event::IoFlushCompleted { .. } => LogLevel::Info,
        Event::IoBufferStateChange { .. } => LogLevel::Debug,
    }
}

/// The message with which `event` is logged.
pub fn log_message(event: &Event) -> (s: &'static str)
    ensures
        s@ == event_log_message(*event),
{
    match event {
        Event::AllocationCreated { .. } => "Chunk allocated",
        Event::AllocationFreed { .. } => "Chunk freed",
        Event::AllocationFailed { .. } => "Allocation failed",
        Event::Eviction { .. } => "Chunk evicted",
        Event::Retrieve { .. } => "Retrieve operation",
        Event::TransferCompleted { .. } => "Transfer completed",
        Event::TransferFailed { .. } => "Transfer failed",
        Event::Store { .. } => "Store operation",
        Event::Evict { .. } => "Evict operation",
        Event::QueueEnqueue { .. } => "Task enqueued",
        Event::QueueDequeue { .. } => "Task dequeued",
        Event::MigrationDecision { .. } => "Migration decision",
        Event::MigrationDecided { .. } => "Migration decided",
        Event::MigrationDeferred { .. } => "Migration deferred",
        Event::MigrationRejected { .. } => "Migration rejected",
        Event::MigrationStarted { .. } => "Migration started",
        Event::MigrationCompleted { .. } => "Migration completed",
        Event::MigrationFailed { .. } => "Migration failed",
        Event::MigrationRolledBack { .. } => "Migration rolled back",
        Event::ReplayStarted { .. } => "Replay started",
        Event::ReplayCompleted { .. } => "Replay completed",
        Event::ReplayDivergence { .. } => "Replay diverged",
        Event::ReplayInvariantViolation { .. } => "Replay invariant violation",
        Event::PressureChanged { .. } => "Pressure changed",
        Event::BackpressureActivated { .. } => "Backpressure activated",
        Event::BackpressureDeactivated { .. } => "Backpressure deactivated",
        Event::BackendHealthChanged { .. } => "Backend health changed",
        Event::RetryAttempted { .. } => "Retry attempted",
        Event::OperationFailed { .. } => "Operation failed",
        Event::InvariantViolation { .. } => "Invariant violation",
        Event::IoRequestIssued { .. } => "I/O request issued",
        Event::IoRequestCompleted { .. } => "I/O request completed",
        Event::IoRequestFailed { .. } => "I/O request failed",
        Event::IoFlushIssued { .. } => "I/O flush issued",
        Event::IoFlushCompleted { .. } => "I/O flush completed",
        Event::IoBufferStateChange { .. } => "I/O buffer state changed",
    }
}

} // verus!
