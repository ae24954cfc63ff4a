//! Transfer jobs: the unit of work that moves a chunk from one tier to another.
use vstd::prelude::*;

use crate::clock::{duration_exceeds, instant_elapsed, instant_now, unix_now_secs};
use crate::types::{ChunkId, TierId};

verus! {

/// Priority level for a transfer job; higher priorities are processed first.
#[derive(Debug, Clone, Copy, PartialEq, Eq, Structural)]
pub enum TransferPriority {
    /// Background migration (lowest priority).
    Low,
    /// Standard operation.
    Normal,
    /// User-requested transfer.
    High,
    /// Pressure relief (highest priority).
    Critical,
}

/// The numeric value of a priority (higher = more important).
pub open spec fn priority_value(p: TransferPriority) -> u8 {
    match p {
        TransferPriority::Low => 0,
        TransferPriority::Normal => 1,
        TransferPriority::High => 2,
        TransferPriority::Critical => 3,
    }
}

impl TransferPriority {
    /// The numeric priority value (higher = more important).
    pub fn value(&self) -> (v: u8)
        ensures
            v == priority_value(*self),
    {
        match self {
            TransferPriority::Low => 0,
            TransferPriority::Normal => 1,
            TransferPriority::High => 2,
            TransferPriority::Critical => 3,
        }
    }

    /// Whether this priority is strictly higher than `other`.
    pub fn is_higher_than(&self, other: TransferPriority) -> (r: bool)
        ensures
            r == (priority_value(*self) > priority_value(other)),
    {
        self.value() > other.value()
    }

    /// The display name of this priority.
    pub fn as_str(&self) -> (s: &'static str)
        ensures
            s@ == (match *self {
                TransferPriority::Low => "low"@,
                TransferPriority::Normal => "normal"@,
                TransferPriority::High => "high"@,
                TransferPriority::Critical => "critical"@,
            }),
    {
        match self {
            TransferPriority::Low => "low",
            TransferPriority::Normal => "normal",
            TransferPriority::High => "high",
            TransferPriority::Critical => "critical",
        }
    }
}

/// "Higher than" is a strict total order on priorities: irreflexive,
/// transitive, and any two distinct priorities are comparable.
pub proof fn lemma_priority_strict_total_order(
    a: TransferPriority,
    b: TransferPriority,
    c: TransferPriority,
)
    ensures
        !(priority_value(a) > priority_value(a)),
        priority_value(a) > priority_value(b) && priority_value(b) > priority_value(c)
            ==> priority_value(a) > priority_value(c),
        a != b ==> (priority_value(a) > priority_value(b) || priority_value(b) > priority_value(a)),
{
}

/// Current state of a transfer job in the pipeline.
#[derive(Debug, Clone, Copy, PartialEq, Eq, Structural)]
pub enum TransferState {
    /// Waiting in queue to be processed.
    Queued,
    /// Being compressed before transfer.
    Compressing,
    /// Data is being moved between tiers.
    Transferring,
    /// Being written to destination tier.
    Writing,
    /// Integrity verification in progress.
    Verifying,
    /// Transfer completed successfully.
    Complete,
    /// Transfer failed (may be retried).
    Failed,
    /// Transfer was cancelled.
    Cancelled,
}

/// Terminal transfer states: no further transitions are expected.
pub open spec fn transfer_terminal(s: TransferState) -> bool {
    s == TransferState::Complete || s == TransferState::Failed || s == TransferState::Cancelled
}

/// Active (in-progress) transfer states.
pub open spec fn transfer_active(s: TransferState) -> bool {
    s == TransferState::Compressing || s == TransferState::Transferring || s
        == TransferState::Writing || s == TransferState::Verifying
}

impl TransferState {
    /// Whether this is a terminal state.
    pub fn is_terminal(&self) -> (r: bool)
        ensures
            r == transfer_terminal(*self),
    {
        match self {
            TransferState::Complete | TransferState::Failed | TransferState::Cancelled => true,
            _ => false,
        }
    }

    /// Whether this is an active (in-progress) state.
    pub fn is_active(&self) -> (r: bool)
        ensures
            r == transfer_active(*self),
    {
        match self {
            TransferState::Compressing
            | TransferState::Transferring
            | TransferState::Writing
            | TransferState::Verifying => true,
            _ => false,
        }
    }

    /// The display name of this state.
    pub fn as_str(&self) -> (s: &'static str)
        ensures
            s@ == (match *self {
                TransferState::Queued => "queued"@,
                TransferState::Compressing => "compressing"@,
                TransferState::Transferring => "transferring"@,
                TransferState::Writing => "writing"@,
                TransferState::Verifying => "verifying"@,
                TransferState::Complete => "complete"@,
                TransferState::Failed => "failed"@,
                TransferState::Cancelled => "cancelled"@,
            }),
    {
        match self {
            TransferState::Queued => "queued",
            TransferState::Compressing => "compressing",
            TransferState::Transferring => "transferring",
            TransferState::Writing => "writing",
            TransferState::Verifying => "verifying",
            TransferState::Complete => "complete",
            TransferState::Failed => "failed",
            TransferState::Cancelled => "cancelled",
        }
    }
}

/// No transfer state is both terminal and active, and exactly one state,
/// `Queued`, is neither.
pub proof fn lemma_transfer_state_partition(s: TransferState)
    ensures
        !(transfer_terminal(s) && transfer_active(s)),
        (!transfer_terminal(s) && !transfer_active(s)) <==> s == TransferState::Queued,
{
}

/// A transfer job tracking the movement of a chunk between tiers.
#[derive(Debug, Clone)]
pub struct TransferJob {
    /// The chunk being transferred.
    pub chunk_id: ChunkId,
    /// Source tier.
    pub from_tier: TierId,
    /// Destination tier.
    pub to_tier: TierId,
    /// Size of the data being transferred in bytes.
    pub size: usize,
    /// Priority of this transfer.
    pub priority: TransferPriority,
    /// Current state of the transfer.
    pub state: TransferState,
    /// When this job was created, on the monotonic clock.
    pub created_at: std::time::Instant,
    /// Creation time in whole seconds since the Unix epoch.
    pub created_at_secs: u64,
    /// Number of attempts made so far.
    pub attempts: u32,
}

/// An urgent priority: one that is processed before the others.
pub open spec fn priority_urgent(p: TransferPriority) -> bool {
    p == TransferPriority::High || p == TransferPriority::Critical
}

impl TransferJob {
    /// A new job, queued, with no attempts, stamped with the current time
    /// (as `new_at` with the monotonic and wall-clock readings of the call).
    pub fn new(
        chunk_id: ChunkId,
        from_tier: TierId,
        to_tier: TierId,
        size: usize,
        priority: TransferPriority,
    ) -> (job: TransferJob)
        ensures
            job.chunk_id == chunk_id,
            job.from_tier == from_tier,
            job.to_tier == to_tier,
            job.size == size,
            job.priority == priority,
            job.state == TransferState::Queued,
            job.attempts == 0,
    {
        let secs = unix_now_secs();
        TransferJob::new_at(chunk_id, from_tier, to_tier, size, priority, instant_now(), secs)
    }

    /// A new job, queued, with no attempts, created at the monotonic instant
    /// `created_at`, which the wall clock read as `created_at_secs` seconds
    /// since the Unix epoch.
    pub fn new_at(
        chunk_id: ChunkId,
        from_tier: TierId,
        to_tier: TierId,
        size: usize,
        priority: TransferPriority,
        created_at: std::time::Instant,
        created_at_secs: u64,
    ) -> (job: TransferJob)
        ensures
            job.chunk_id == chunk_id,
            job.from_tier == from_tier,
            job.to_tier == to_tier,
            job.size == size,
            job.priority == priority,
            job.state == TransferState::Queued,
            job.attempts == 0,
            job.created_at == created_at,
            job.created_at_secs == created_at_secs,
    {
        TransferJob {
            chunk_id,
            from_tier,
            to_tier,
            size,
            priority,
            state: TransferState::Queued,
            created_at,
            created_at_secs,
            attempts: 0,
        }
    }

    /// Record an attempt: the attempt counter goes up by one.
    pub fn record_attempt(&mut self)
        requires
            old(self).attempts < u32::MAX,
        ensures
            final(self).attempts == old(self).attempts + 1,
            final(self).chunk_id == old(self).chunk_id,
            final(self).from_tier == old(self).from_tier,
            final(self).to_tier == old(self).to_tier,
            final(self).size == old(self).size,
            final(self).priority == old(self).priority,
            final(self).state == old(self).state,
            final(self).created_at == old(self).created_at,
            final(self).created_at_secs == old(self).created_at_secs,
    {
        self.attempts = self.attempts + 1;
    }

    /// Move the job to state `next`; any state may follow any other.
    pub fn transition_state(&mut self, next: TransferState)
        ensures
            final(self).state == next,
            final(self).chunk_id == old(self).chunk_id,
            final(self).from_tier == old(self).from_tier,
            final(self).to_tier == old(self).to_tier,
            final(self).size == old(self).size,
            final(self).priority == old(self).priority,
            final(self).created_at == old(self).created_at,
            final(self).created_at_secs == old(self).created_at_secs,
            final(self).attempts == old(self).attempts,
    {
        self.state = next;
    }

    /// Whether more than `timeout` has passed since the job was created. The
    /// answer depends on the moment of the call; it is the comparison of the
    /// elapsed time against `timeout` made by `duration_exceeds`.
    pub fn is_timed_out(&self, timeout: std::time::Duration) -> bool {
        let elapsed = instant_elapsed(&self.created_at);
        duration_exceeds(&elapsed, &timeout)
    }

    /// The time elapsed since the job was created.
    pub fn elapsed(&self) -> std::time::Duration {
        instant_elapsed(&self.created_at)
    }

    /// Whether this job has an urgent priority (`High` or `Critical`).
    pub fn is_urgent(&self) -> (r: bool)
        ensures
            r == priority_urgent(self.priority),
    {
        match self.priority {
            TransferPriority::High | TransferPriority::Critical => true,
            _ => false,
        }
    }
}

/// Exactly the priorities above `Normal` are urgent.
pub proof fn lemma_urgent_iff_above_normal(p: TransferPriority)
    ensures
        priority_urgent(p) <==> priority_value(p) > priority_value(TransferPriority::Normal),
{
}

} // verus!
