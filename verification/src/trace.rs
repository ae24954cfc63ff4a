//! Events of the append-only trace log, each stamped with a millisecond
//! timestamp for ordering and replay.
use vstd::prelude::*;

use crate::clock::unix_now_millis;
use crate::state::{ChunkState, F32Bits, PressureState};
use crate::transfer::{TransferJob, TransferPriority};
use crate::types::{ChunkId, TierId};

verus! {

/// Reason for chunk eviction.
#[derive(Debug, Clone, Copy, PartialEq, Eq, Structural)]
pub enum EvictionReason {
    /// Tier is at capacity.
    Capacity,
    /// System pressure forced eviction.
    Pressure,
    /// Placement policy decided to evict.
    Policy,
    /// Manual/user-requested eviction.
    Manual,
}

impl EvictionReason {
    /// The display name of this reason.
    pub fn as_str(&self) -> (s: &'static str)
        ensures
            s@ == (match *self {
                EvictionReason::Capacity => "capacity"@,
                EvictionReason::Pressure => "pressure"@,
                EvictionReason::Policy => "policy"@,
                EvictionReason::Manual => "manual"@,
            }),
    {
        match self {
            EvictionReason::Capacity => "capacity",
            EvictionReason::Pressure => "pressure",
            EvictionReason::Policy => "policy",
            EvictionReason::Manual => "manual",
        }
    }
}

/// An event in the append-only trace log.
#[derive(Debug, Clone)]
pub enum TraceEvent {
    /// A new chunk was created.
    ChunkCreated {
        chunk_id: ChunkId,
        size: usize,
        tier: TierId,
        timestamp: u64,
    },
    /// A chunk was deleted from a tier.
    ChunkDeleted {
        chunk_id: ChunkId,
        tier: TierId,
        timestamp: u64,
    },
    /// A chunk's state changed.
    ChunkStateChanged {
        chunk_id: ChunkId,
        from: ChunkState,
        to: ChunkState,
        timestamp: u64,
    },
    /// A transfer job was queued.
    TransferQueued {
        chunk_id: ChunkId,
        from: TierId,
        to: TierId,
        priority: TransferPriority,
        timestamp: u64,
    },
    /// A transfer job was started.
    TransferStarted {
        job: TransferJob,
        timestamp: u64,
    },
    /// A transfer completed successfully.
    TransferCompleted {
        chunk_id: ChunkId,
        from: TierId,
        to: TierId,
        size: usize,
        duration_ms: u64,
        timestamp: u64,
    },
    /// A transfer failed.
    TransferFailed {
        chunk_id: ChunkId,
        from: TierId,
        to: TierId,
        error: String,
        attempt: u32,
        timestamp: u64,
    },
    /// A transfer is being retried.
    TransferRetry {
        chunk_id: ChunkId,
        from: TierId,
        to: TierId,
        attempt: u32,
        timestamp: u64,
    },
    /// A transfer was cancelled.
    TransferCancelled {
        chunk_id: ChunkId,
        from: TierId,
        to: TierId,
        timestamp: u64,
    },
    /// A pressure sample was recorded.
    PressureSample {
        state: PressureState,
        timestamp: u64,
    },
    /// A pressure alert was triggered; pressures are carried as float bit patterns.
    PressureAlert {
        memory_pressure: F32Bits,
        vram_pressure: F32Bits,
        io_pressure: F32Bits,
        timestamp: u64,
    },
    /// A chunk was evicted from a tier.
    Eviction {
        chunk_id: ChunkId,
        tier: TierId,
        reason: EvictionReason,
        timestamp: u64,
    },
    /// A placement policy decision was made.
    PolicyDecision {
        chunk_id: ChunkId,
        from: TierId,
        to: TierId,
        reason: String,
        timestamp: u64,
    },
    /// The daemon was started.
    DaemonStarted {
        timestamp: u64,
    },
    /// The daemon is stopping.
    DaemonStopping {
        timestamp: u64,
    },
    /// A storage backend was registered.
    BackendRegistered {
        tier: TierId,
        timestamp: u64,
    },
    /// A worker was spawned.
    WorkerSpawned {
        worker_id: usize,
        timestamp: u64,
    },
    /// A worker was stopped.
    WorkerStopped {
        worker_id: usize,
        timestamp: u64,
    },
    /// An IPC request was received.
    IpcRequestReceived {
        request_type: String,
        timestamp: u64,
    },
    /// An IPC response was sent.
    IpcResponseSent {
        request_type: String,
        success: bool,
        timestamp: u64,
    },
    /// An IPC connection was accepted.
    IpcConnectionAccepted {
        timestamp: u64,
    },
    /// An IPC connection was closed.
    IpcConnectionClosed {
        timestamp: u64,
    },
    /// Compression started for a chunk.
    CompressionStarted {
        chunk_id: ChunkId,
        original_size: usize,
        timestamp: u64,
    },
    /// Compression completed for a chunk.
    CompressionCompleted {
        chunk_id: ChunkId,
        original_size: usize,
        compressed_size: usize,
        timestamp: u64,
    },
    /// Decompression started for a chunk.
    DecompressionStarted {
        chunk_id: ChunkId,
        compressed_size: usize,
        timestamp: u64,
    },
    /// Decompression completed for a chunk.
    DecompressionCompleted {
        chunk_id: ChunkId,
        compressed_size: usize,
        decompressed_size: usize,
        timestamp: u64,
    },
}

/// The timestamp of a trace event.
pub open spec fn trace_timestamp(e: TraceEvent) -> u64 {
    match e {
        TraceEvent::ChunkCreated { timestamp, .. } => timestamp,
        TraceEvent::ChunkDeleted { timestamp, .. } => timestamp,
        TraceEvent::ChunkStateChanged { timestamp, .. } => timestamp,
        TraceEvent::TransferQueued { timestamp, .. } => timestamp,
        TraceEvent::TransferStarted { timestamp, .. } => timestamp,
        TraceEvent::TransferCompleted { timestamp, .. } => timestamp,
        TraceEvent::TransferFailed { timestamp, .. } => timestamp,
        TraceEvent::TransferRetry { timestamp, .. } => timestamp,
        TraceEvent::TransferCancelled { timestamp, .. } => timestamp,
        TraceEvent::PressureSample { timestamp, .. } => timestamp,
        TraceEvent::PressureAlert { timestamp, .. } => timestamp,
        TraceEvent::Eviction { timestamp, .. } => timestamp,
        TraceEvent::PolicyDecision { timestamp, .. } => timestamp,
        TraceEvent::DaemonStarted { timestamp, .. } => timestamp,
        TraceEvent::DaemonStopping { timestamp, .. } => timestamp,
        TraceEvent::BackendRegistered { timestamp, .. } => timestamp,
        TraceEvent::WorkerSpawned { timestamp, .. } => timestamp,
        TraceEvent::WorkerStopped { timestamp, .. } => timestamp,
        TraceEvent::IpcRequestReceived { timestamp, .. } => timestamp,
        TraceEvent::IpcResponseSent { timestamp, .. } => timestamp,
        TraceEvent::IpcConnectionAccepted { timestamp, .. } => timestamp,
        TraceEvent::IpcConnectionClosed { timestamp, .. } => timestamp,
        TraceEvent::CompressionStarted { timestamp, .. } => timestamp,
        TraceEvent::CompressionCompleted { timestamp, .. } => timestamp,
        TraceEvent::DecompressionStarted { timestamp, .. } => timestamp,
        TraceEvent::DecompressionCompleted { timestamp, .. } => timestamp,
    }
}

/// The event `e` with its timestamp replaced by `ts`, all else unchanged.
pub open spec fn trace_with_timestamp(e: TraceEvent, ts: u64) -> TraceEvent {
    match e {
        TraceEvent::ChunkCreated { chunk_id, size, tier, .. } => TraceEvent::ChunkCreated { chunk_id, size, tier, timestamp: ts },
        TraceEvent::ChunkDeleted { chunk_id, tier, .. } => TraceEvent::ChunkDeleted { chunk_id, tier, timestamp: ts },
        TraceEvent::ChunkStateChanged { chunk_id, from, to, .. } => TraceEvent::ChunkStateChanged { chunk_id, from, to, timestamp: ts },
        TraceEvent::TransferQueued { chunk_id, from, to, priority, .. } => TraceEvent::TransferQueued { chunk_id, from, to, priority, timestamp: ts },
        TraceEvent::TransferStarted { job, .. } => TraceEvent::TransferStarted { job, timestamp: ts },
        TraceEvent::TransferCompleted { chunk_id, from, to, size, duration_ms, .. } => TraceEvent::TransferCompleted { chunk_id, from, to, size, duration_ms, timestamp: ts },
        TraceEvent::TransferFailed { chunk_id, from, to, error, attempt, .. } => TraceEvent::TransferFailed { chunk_id, from, to, error, attempt, timestamp: ts },
        TraceEvent::TransferRetry { chunk_id, from, to, attempt, .. } => TraceEvent::TransferRetry { chunk_id, from, to, attempt, timestamp: ts },
        TraceEvent::TransferCancelled { chunk_id, from, to, .. } => TraceEvent::TransferCancelled { chunk_id, from, to, timestamp: ts },
        TraceEvent::PressureSample { state, .. } => TraceEvent::PressureSample { state, timestamp: ts },
        TraceEvent::PressureAlert { memory_pressure, vram_pressure, io_pressure, .. } => TraceEvent::PressureAlert { memory_pressure, vram_pressure, io_pressure, timestamp: ts },
        TraceEvent::Eviction { chunk_id, tier, reason, .. } => TraceEvent::Eviction { chunk_id, tier, reason, timestamp: ts },
        TraceEvent::PolicyDecision { chunk_id, from, to, reason, .. } => TraceEvent::PolicyDecision { chunk_id, from, to, reason, timestamp: ts },
        TraceEvent::DaemonStarted { .. } => TraceEvent::DaemonStarted { timestamp: ts },
        TraceEvent::DaemonStopping { .. } => TraceEvent::DaemonStopping { timestamp: ts },
        TraceEvent::BackendRegistered { tier, .. } => TraceEvent::BackendRegistered { tier, timestamp: ts },
        TraceEvent::WorkerSpawned { worker_id, .. } => TraceEvent::WorkerSpawned { worker_id, timestamp: ts },
        TraceEvent::WorkerStopped { worker_id, .. } => TraceEvent::WorkerStopped { worker_id, timestamp: ts },
        TraceEvent::IpcRequestReceived { request_type, .. } => TraceEvent::IpcRequestReceived { request_type, timestamp: ts },
        TraceEvent::IpcResponseSent { request_type, success, .. } => TraceEvent::IpcResponseSent { request_type, success, timestamp: ts },
        TraceEvent::IpcConnectionAccepted { .. } => TraceEvent::IpcConnectionAccepted { timestamp: ts },
        TraceEvent::IpcConnectionClosed { .. } => TraceEvent::IpcConnectionClosed { timestamp: ts },
        TraceEvent::CompressionStarted { chunk_id, original_size, .. } => TraceEvent::CompressionStarted { chunk_id, original_size, timestamp: ts },
        TraceEvent::CompressionCompleted { chunk_id, original_size, compressed_size, .. } => TraceEvent::CompressionCompleted { chunk_id, original_size, compressed_size, timestamp: ts },
        TraceEvent::DecompressionStarted { chunk_id, compressed_size, .. } => TraceEvent::DecompressionStarted { chunk_id, compressed_size, timestamp: ts },
        TraceEvent::DecompressionCompleted { chunk_id, compressed_size, decompressed_size, .. } => TraceEvent::DecompressionCompleted { chunk_id, compressed_size, decompressed_size, timestamp: ts },
    }
}

/// The chunk a trace event concerns, if any; a started transfer reports its
/// job's chunk.
pub open spec fn trace_chunk(e: TraceEvent) -> Option<ChunkId> {
    match e {
        TraceEvent::ChunkCreated { chunk_id, .. } => Some(chunk_id),
        TraceEvent::ChunkDeleted { chunk_id, .. } => Some(chunk_id),
        TraceEvent::ChunkStateChanged { chunk_id, .. } => Some(chunk_id),
        TraceEvent::TransferQueued { chunk_id, .. } => Some(chunk_id),
        TraceEvent::TransferStarted { job, .. } => Some(job.chunk_id),
        TraceEvent::TransferCompleted { chunk_id, .. } => Some(chunk_id),
        TraceEvent::TransferFailed { chunk_id, .. } => Some(chunk_id),
        TraceEvent::TransferRetry { chunk_id, .. } => Some(chunk_id),
        TraceEvent::TransferCancelled { chunk_id, .. } => Some(chunk_id),
        TraceEvent::Eviction { chunk_id, .. } => Some(chunk_id),
        TraceEvent::PolicyDecision { chunk_id, .. } => Some(chunk_id),
        TraceEvent::CompressionStarted { chunk_id, .. } => Some(chunk_id),
        TraceEvent::CompressionCompleted { chunk_id, .. } => Some(chunk_id),
        TraceEvent::DecompressionStarted { chunk_id, .. } => Some(chunk_id),
        TraceEvent::DecompressionCompleted { chunk_id, .. } => Some(chunk_id),
        _ => None,
    }
}

/// The type name of a trace event.
pub open spec fn trace_type(e: TraceEvent) -> Seq<char> {
    match e {
        TraceEvent::ChunkCreated { .. } => "chunk_created"@,
        TraceEvent::ChunkDeleted { .. } => "chunk_deleted"@,
        TraceEvent::ChunkStateChanged { .. } => "chunk_state_changed"@,
        TraceEvent::TransferQueued { .. } => "transfer_queued"@,
        TraceEvent::TransferStarted { .. } => "transfer_started"@,
        TraceEvent::TransferCompleted { .. } => "transfer_completed"@,
        TraceEvent::TransferFailed { .. } => "transfer_failed"@,
        TraceEvent::TransferRetry { .. } => "transfer_retry"@,
        TraceEvent::TransferCancelled { .. } => "transfer_cancelled"@,
        TraceEvent::PressureSample { .. } => "pressure_sample"@,
        TraceEvent::PressureAlert { .. } => "pressure_alert"@,
        TraceEvent::Eviction { .. } => "eviction"@,
        TraceEvent::PolicyDecision { .. } => "policy_decision"@,
        TraceEvent::DaemonStarted { .. } => "daemon_started"@,
        TraceEvent::DaemonStopping { .. } => "daemon_stopping"@,
        TraceEvent::BackendRegistered { .. } => "backend_registered"@,
        TraceEvent::WorkerSpawned { .. } => "worker_spawned"@,
        TraceEvent::WorkerStopped { .. } => "worker_stopped"@,
        TraceEvent::IpcRequestReceived { .. } => "ipc_request_received"@,
        TraceEvent::IpcResponseSent { .. } => "ipc_response_sent"@,
        TraceEvent::IpcConnectionAccepted { .. } => "ipc_connection_accepted"@,
        TraceEvent::IpcConnectionClosed { .. } => "ipc_connection_closed"@,
        TraceEvent::CompressionStarted { .. } => "compression_started"@,
        TraceEvent::CompressionCompleted { .. } => "compression_completed"@,
        TraceEvent::DecompressionStarted { .. } => "decompression_started"@,
        TraceEvent::DecompressionCompleted { .. } => "decompression_completed"@,
    }
}

impl TraceEvent {
    /// The timestamp of this event.
    pub fn timestamp(&self) -> (t: u64)
        ensures
            t == trace_timestamp(*self),
    {
        match self {
            TraceEvent::ChunkCreated { timestamp, .. } => *timestamp,
            TraceEvent::ChunkDeleted { timestamp, .. } => *timestamp,
            TraceEvent::ChunkStateChanged { timestamp, .. } => *timestamp,
            TraceEvent::TransferQueued { timestamp, .. } => *timestamp,
            TraceEvent::TransferStarted { timestamp, .. } => *timestamp,
            TraceEvent::TransferCompleted { timestamp, .. } => *timestamp,
            TraceEvent::TransferFailed { timestamp, .. } => *timestamp,
            TraceEvent::TransferRetry { timestamp, .. } => *timestamp,
            TraceEvent::TransferCancelled { timestamp, .. } => *timestamp,
            TraceEvent::PressureSample { timestamp, .. } => *timestamp,
            TraceEvent::PressureAlert { timestamp, .. } => *timestamp,
            TraceEvent::Eviction { timestamp, .. } => *timestamp,
            TraceEvent::PolicyDecision { timestamp, .. } => *timestamp,
            TraceEvent::DaemonStarted { timestamp, .. } => *timestamp,
            TraceEvent::DaemonStopping { timestamp, .. } => *timestamp,
            TraceEvent::BackendRegistered { timestamp, .. } => *timestamp,
            TraceEvent::WorkerSpawned { timestamp, .. } => *timestamp,
            TraceEvent::WorkerStopped { timestamp, .. } => *timestamp,
            TraceEvent::IpcRequestReceived { timestamp, .. } => *timestamp,
            TraceEvent::IpcResponseSent { timestamp, .. } => *timestamp,
            TraceEvent::IpcConnectionAccepted { timestamp, .. } => *timestamp,
            TraceEvent::IpcConnectionClosed { timestamp, .. } => *timestamp,
            TraceEvent::CompressionStarted { timestamp, .. } => *timestamp,
            TraceEvent::CompressionCompleted { timestamp, .. } => *timestamp,
            TraceEvent::DecompressionStarted { timestamp, .. } => *timestamp,
            TraceEvent::DecompressionCompleted { timestamp, .. } => *timestamp,
        }
    }

    /// This event with its timestamp set to `ts`; every other field is kept.
    pub fn with_timestamp(self, ts: u64) -> (r: TraceEvent)
        ensures
            r == trace_with_timestamp(self, ts),
    {
        match self {
            TraceEvent::ChunkCreated { chunk_id, size, tier, .. } => TraceEvent::ChunkCreated { chunk_id, size, tier, timestamp: ts },
            TraceEvent::ChunkDeleted { chunk_id, tier, .. } => TraceEvent::ChunkDeleted { chunk_id, tier, timestamp: ts },
            TraceEvent::ChunkStateChanged { chunk_id, from, to, .. } => TraceEvent::ChunkStateChanged { chunk_id, from, to, timestamp: ts },
            TraceEvent::TransferQueued { chunk_id, from, to, priority, .. } => TraceEvent::TransferQueued { chunk_id, from, to, priority, timestamp: ts },
            TraceEvent::TransferStarted { job, .. } => TraceEvent::TransferStarted { job, timestamp: ts },
            TraceEvent::TransferCompleted { chunk_id, from, to, size, duration_ms, .. } => TraceEvent::TransferCompleted { chunk_id, from, to, size, duration_ms, timestamp: ts },
            TraceEvent::TransferFailed { chunk_id, from, to, error, attempt, .. } => TraceEvent::TransferFailed { chunk_id, from, to, error, attempt, timestamp: ts },
            TraceEvent::TransferRetry { chunk_id, from, to, attempt, .. } => TraceEvent::TransferRetry { chunk_id, from, to, attempt, timestamp: ts },
            TraceEvent::TransferCancelled { chunk_id, from, to, .. } => TraceEvent::TransferCancelled { chunk_id, from, to, timestamp: ts },
            TraceEvent::PressureSample { state, .. } => TraceEvent::PressureSample { state, timestamp: ts },
            TraceEvent::PressureAlert { memory_pressure, vram_pressure, io_pressure, .. } => TraceEvent::PressureAlert { memory_pressure, vram_pressure, io_pressure, timestamp: ts },
            TraceEvent::Eviction { chunk_id, tier, reason, .. } => TraceEvent::Eviction { chunk_id, tier, reason, timestamp: ts },
            TraceEvent::PolicyDecision { chunk_id, from, to, reason, .. } => TraceEvent::PolicyDecision { chunk_id, from, to, reason, timestamp: ts },
            TraceEvent::DaemonStarted { .. } => TraceEvent::DaemonStarted { timestamp: ts },
            TraceEvent::DaemonStopping { .. } => TraceEvent::DaemonStopping { timestamp: ts },
            TraceEvent::BackendRegistered { tier, .. } => TraceEvent::BackendRegistered { tier, timestamp: ts },
            TraceEvent::WorkerSpawned { worker_id, .. } => TraceEvent::WorkerSpawned { worker_id, timestamp: ts },
            TraceEvent::WorkerStopped { worker_id, .. } => TraceEvent::WorkerStopped { worker_id, timestamp: ts },
            TraceEvent::IpcRequestReceived { request_type, .. } => TraceEvent::IpcRequestReceived { request_type, timestamp: ts },
            TraceEvent::IpcResponseSent { request_type, success, .. } => TraceEvent::IpcResponseSent { request_type, success, timestamp: ts },
            TraceEvent::IpcConnectionAccepted { .. } => TraceEvent::IpcConnectionAccepted { timestamp: ts },
            TraceEvent::IpcConnectionClosed { .. } => TraceEvent::IpcConnectionClosed { timestamp: ts },
            TraceEvent::CompressionStarted { chunk_id, original_size, .. } => TraceEvent::CompressionStarted { chunk_id, original_size, timestamp: ts },
            TraceEvent::CompressionCompleted { chunk_id, original_size, compressed_size, .. } => TraceEvent::CompressionCompleted { chunk_id, original_size, compressed_size, timestamp: ts },
            TraceEvent::DecompressionStarted { chunk_id, compressed_size, .. } => TraceEvent::DecompressionStarted { chunk_id, compressed_size, timestamp: ts },
            TraceEvent::DecompressionCompleted { chunk_id, compressed_size, decompressed_size, .. } => TraceEvent::DecompressionCompleted { chunk_id, compressed_size, decompressed_size, timestamp: ts },
        }
    }

    /// The chunk this event concerns, if any.
    pub fn chunk_id(&self) -> (r: Option<ChunkId>)
        ensures
            r == trace_chunk(*self),
    {
        match self {
            TraceEvent::ChunkCreated { chunk_id, .. } => Some(*chunk_id),
            TraceEvent::ChunkDeleted { chunk_id, .. } => Some(*chunk_id),
            TraceEvent::ChunkStateChanged { chunk_id, .. } => Some(*chunk_id),
            TraceEvent::TransferQueued { chunk_id, .. } => Some(*chunk_id),
            TraceEvent::TransferStarted { job, .. } => Some(job.chunk_id),
            TraceEvent::TransferCompleted { chunk_id, .. } => Some(*chunk_id),
            TraceEvent::TransferFailed { chunk_id, .. } => Some(*chunk_id),
            TraceEvent::TransferRetry { chunk_id, .. } => Some(*chunk_id),
            TraceEvent::TransferCancelled { chunk_id, .. } => Some(*chunk_id),
            TraceEvent::PressureSample { .. } => None,
            TraceEvent::PressureAlert { .. } => None,
            TraceEvent::Eviction { chunk_id, .. } => Some(*chunk_id),
            TraceEvent::PolicyDecision { chunk_id, .. } => Some(*chunk_id),
            TraceEvent::DaemonStarted { .. } => None,
            TraceEvent::DaemonStopping { .. } => None,
            TraceEvent::BackendRegistered { .. } => None,
            TraceEvent::WorkerSpawned { .. } => None,
            TraceEvent::WorkerStopped { .. } => None,
            TraceEvent::IpcRequestReceived { .. } => None,
            TraceEvent::IpcResponseSent { .. } => None,
            TraceEvent::IpcConnectionAccepted { .. } => None,
            TraceEvent::IpcConnectionClosed { .. } => None,
            TraceEvent::CompressionStarted { chunk_id, .. } => Some(*chunk_id),
            TraceEvent::CompressionCompleted { chunk_id, .. } => Some(*chunk_id),
            TraceEvent::DecompressionStarted { chunk_id, .. } => Some(*chunk_id),
            TraceEvent::DecompressionCompleted { chunk_id, .. } => Some(*chunk_id),
        }
    }

    /// The type name of this event.
    pub fn event_type(&self) -> (s: &'static str)
        ensures
            s@ == trace_type(*self),
    {
        match self {
            TraceEvent::ChunkCreated { .. } => "chunk_created",
            TraceEvent::ChunkDeleted { .. } => "chunk_deleted",
            TraceEvent::ChunkStateChanged { .. } => "chunk_state_changed",
            TraceEvent::TransferQueued { .. } => "transfer_queued",
            TraceEvent::TransferStarted { .. } => "transfer_started",
            TraceEvent::TransferCompleted { .. } => "transfer_completed",
            TraceEvent::TransferFailed { .. } => "transfer_failed",
            TraceEvent::TransferRetry { .. } => "transfer_retry",
            TraceEvent::TransferCancelled { .. } => "transfer_cancelled",
            TraceEvent::PressureSample { .. } => "pressure_sample",
            TraceEvent::PressureAlert { .. } => "pressure_alert",
            TraceEvent::Eviction { .. } => "eviction",
            TraceEvent::PolicyDecision { .. } => "policy_decision",
            TraceEvent::DaemonStarted { .. } => "daemon_started",
            TraceEvent::DaemonStopping { .. } => "daemon_stopping",
            TraceEvent::BackendRegistered { .. } => "backend_registered",
            TraceEvent::WorkerSpawned { .. } => "worker_spawned",
            TraceEvent::WorkerStopped { .. } => "worker_stopped",
            TraceEvent::IpcRequestReceived { .. } => "ipc_request_received",
            TraceEvent::IpcResponseSent { .. } => "ipc_response_sent",
            TraceEvent::IpcConnectionAccepted { .. } => "ipc_connection_accepted",
            TraceEvent::IpcConnectionClosed { .. } => "ipc_connection_closed",
            TraceEvent::CompressionStarted { .. } => "compression_started",
            TraceEvent::CompressionCompleted { .. } => "compression_completed",
            TraceEvent::DecompressionStarted { .. } => "decompression_started",
            TraceEvent::DecompressionCompleted { .. } => "decompression_completed",
        }
    }
}

/// Restamping is a pure field update: the new timestamp reads back, the last
/// stamp wins, restamping with the same timestamp changes nothing, and the
/// chunk and type are kept.
pub proof fn lemma_with_timestamp_laws(e: TraceEvent, a: u64, b: u64)
    ensures
        trace_timestamp(trace_with_timestamp(e, a)) == a,
        trace_with_timestamp(trace_with_timestamp(e, a), b) == trace_with_timestamp(e, b),
        trace_with_timestamp(e, trace_timestamp(e)) == e,
        trace_chunk(trace_with_timestamp(e, a)) == trace_chunk(e),
        trace_type(trace_with_timestamp(e, a)) == trace_type(e),
{
    match e {
        TraceEvent::ChunkCreated { .. } => {}
        TraceEvent::ChunkDeleted { .. } => {}
        TraceEvent::ChunkStateChanged { .. } => {}
        TraceEvent::TransferQueued { .. } => {}
        TraceEvent::TransferStarted { .. } => {}
        TraceEvent::TransferCompleted { .. } => {}
        TraceEvent::TransferFailed { .. } => {}
        TraceEvent::TransferRetry { .. } => {}
        TraceEvent::TransferCancelled { .. } => {}
        TraceEvent::PressureSample { .. } => {}
        TraceEvent::PressureAlert { .. } => {}
        TraceEvent::Eviction { .. } => {}
        TraceEvent::PolicyDecision { .. } => {}
        TraceEvent::DaemonStarted { .. } => {}
        TraceEvent::DaemonStopping { .. } => {}
        TraceEvent::BackendRegistered { .. } => {}
        TraceEvent::WorkerSpawned { .. } => {}
        TraceEvent::WorkerStopped { .. } => {}
        TraceEvent::IpcRequestReceived { .. } => {}
        TraceEvent::IpcResponseSent { .. } => {}
        TraceEvent::IpcConnectionAccepted { .. } => {}
        TraceEvent::IpcConnectionClosed { .. } => {}
        TraceEvent::CompressionStarted { .. } => {}
        TraceEvent::CompressionCompleted { .. } => {}
        TraceEvent::DecompressionStarted { .. } => {}
        TraceEvent::DecompressionCompleted { .. } => {}
    }
}

/// The current wall-clock time in milliseconds since the Unix epoch (zero if
/// the clock reads before the epoch).
pub fn current_timestamp() -> u64 {
    unix_now_millis()
}

/// The current wall-clock time in milliseconds since the Unix epoch; the same
/// reading as `current_timestamp`.
pub fn timestamp_now() -> u64 {
    current_timestamp()
}

/// `event` stamped with the current time: the result differs from `event` in
/// its timestamp only.
pub fn trace_event(event: TraceEvent) -> (r: TraceEvent)
    ensures
        r == trace_with_timestamp(event, trace_timestamp(r)),
{
    let ts = current_timestamp();
    let r = event.with_timestamp(ts);
    proof {
        lemma_with_timestamp_laws(event, ts, ts);
    }
    r
}

} // verus!
