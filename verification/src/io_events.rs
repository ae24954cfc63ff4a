//! I/O lifecycle events: what the I/O scheduler reports as requests are issued,
//! complete or fail, and as buffers fill.
use vstd::prelude::*;

use crate::types::{ChunkId, TierId};

verus! {

/// The type of I/O operation being performed.
#[derive(Debug, Clone, Copy, PartialEq, Eq, Structural)]
pub enum IoOperation {
    /// Read data from a tier.
    Read,
    /// Write data to a tier.
    Write,
    /// Delete data from a tier.
    Delete,
    /// Flush pending I/O for a tier (fsync simulation).
    Flush,
}

/// The display name of an I/O operation.
pub open spec fn io_operation_name(op: IoOperation) -> Seq<char> {
    match op {
        IoOperation::Read => "read"@,
        IoOperation::Write => "write"@,
        IoOperation::Delete => "delete"@,
        IoOperation::Flush => "flush"@,
    }
}

impl IoOperation {
    /// The display name of this operation.
    pub fn as_str(&self) -> (s: &'static str)
        ensures
            s@ == io_operation_name(*self),
    {
        match self {
            IoOperation::Read => "read",
            IoOperation::Write => "write",
            IoOperation::Delete => "delete",
            IoOperation::Flush => "flush",
        }
    }
}

/// An I/O lifecycle event emitted by the I/O scheduler.
#[derive(Debug, Clone)]
pub enum IoEvent {
    /// An I/O request was issued to a tier.
    IoRequestIssued {
        /// The type of operation.
        operation: IoOperation,
        /// The chunk being operated on.
        chunk_id: ChunkId,
        /// The tier the operation targets.
        tier: TierId,
    },
    /// An I/O request completed successfully.
    IoRequestCompleted {
        /// The type of operation.
        operation: IoOperation,
        /// The chunk that was operated on.
        chunk_id: ChunkId,
        /// The tier the operation targeted.
        tier: TierId,
        /// Duration in deterministic ticks.
        duration_ticks: u64,
    },
    /// An I/O request failed.
    IoRequestFailed {
        /// The type of operation that failed.
        operation: IoOperation,
        /// The chunk being operated on.
        chunk_id: ChunkId,
        /// The tier targeted.
        tier: TierId,
        /// Human-readable error description.
        error: String,
    },
    /// A flush (fsync) was issued for a tier.
    IoFlushIssued {
        /// The tier being flushed.
        tier: TierId,
    },
    /// A flush (fsync) completed for a tier.
    IoFlushCompleted {
        /// The tier that was flushed.
        tier: TierId,
        /// Duration in deterministic ticks.
        duration_ticks: u64,
    },
    /// The buffer fill level changed for a tier.
    IoBufferStateChange {
        /// The tier whose buffer changed.
        tier: TierId,
        /// Current number of buffered bytes.
        buffered: usize,
        /// Total buffer capacity in bytes.
        capacity: usize,
    },
}

/// The chunk an I/O event concerns: present for request events only.
pub open spec fn io_event_chunk(e: IoEvent) -> Option<ChunkId> {
    match e {
        IoEvent::IoRequestIssued { chunk_id, .. } => Some(chunk_id),
        IoEvent::IoRequestCompleted { chunk_id, .. } => Some(chunk_id),
        IoEvent::IoRequestFailed { chunk_id, .. } => Some(chunk_id),
        _ => None,
    }
}

/// The tier an I/O event concerns: every I/O event has one.
pub open spec fn io_event_tier(e: IoEvent) -> TierId {
    match e {
        IoEvent::IoRequestIssued { tier, .. } => tier,
        IoEvent::IoRequestCompleted { tier, .. } => tier,
        IoEvent::IoRequestFailed { tier, .. } => tier,
        IoEvent::IoFlushIssued { tier } => tier,
        IoEvent::IoFlushCompleted { tier, .. } => tier,
        IoEvent::IoBufferStateChange { tier, .. } => tier,
    }
}

/// The name of an I/O event's variant.
pub open spec fn io_event_name(e: IoEvent) -> Seq<char> {
    match e {
        IoEvent::IoRequestIssued { .. } => "io_request_issued"@,
        IoEvent::IoRequestCompleted { .. } => "io_request_completed"@,
        IoEvent::IoRequestFailed { .. } => "io_request_failed"@,
        IoEvent::IoFlushIssued { .. } => "io_flush_issued"@,
        IoEvent::IoFlushCompleted { .. } => "io_flush_completed"@,
        IoEvent::IoBufferStateChange { .. } => "io_buffer_state_change"@,
    }
}

impl IoEvent {
    /// The chunk this event concerns, if any.
    pub fn chunk_id(&self) -> (r: Option<ChunkId>)
        ensures
            r == io_event_chunk(*self),
    {
        match self {
            IoEvent::IoRequestIssued { chunk_id, .. } => Some(*chunk_id),
            IoEvent::IoRequestCompleted { chunk_id, .. } => Some(*chunk_id),
            IoEvent::IoRequestFailed { chunk_id, .. } => Some(*chunk_id),
            IoEvent::IoFlushIssued { .. }
            | IoEvent::IoFlushCompleted { .. }
            | IoEvent::IoBufferStateChange { .. } => None,
        }
    }

    /// The tier this event concerns (always present).
    pub fn tier(&self) -> (r: Option<TierId>)
        ensures
            r == Some(io_event_tier(*self)),
    {
        match self {
            IoEvent::IoRequestIssued { tier, .. } => Some(*tier),
            IoEvent::IoRequestCompleted { tier, .. } => Some(*tier),
            IoEvent::IoRequestFailed { tier, .. } => Some(*tier),
            IoEvent::IoFlushIssued { tier, .. } => Some(*tier),
            IoEvent::IoFlushCompleted { tier, .. } => Some(*tier),
            IoEvent::IoBufferStateChange { tier, .. } => Some(*tier),
        }
    }

    /// The category of every I/O event: `"io"`.
    pub fn category(&self) -> (s: &'static str)
        ensures
            s@ == "io"@,
    {
        "io"
    }

    /// The name of this event's variant.
    pub fn event_name(&self) -> (s: &'static str)
        ensures
            s@ == io_event_name(*self),
    {
        match self {
            IoEvent::IoRequestIssued { .. } => "io_request_issued",
            IoEvent::IoRequestCompleted { .. } => "io_request_completed",
            IoEvent::IoRequestFailed { .. } => "io_request_failed",
            IoEvent::IoFlushIssued { .. } => "io_flush_issued",
            IoEvent::IoFlushCompleted { .. } => "io_flush_completed",
            IoEvent::IoBufferStateChange { .. } => "io_buffer_state_change",
        }
    }
}

} // verus!
