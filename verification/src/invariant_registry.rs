//! Runtime invariants over the system state, and the registry that runs them.
//!
//! The I/O invariants are real checks over the I/O scheduler's pending and
//! completed requests; the other invariants are placeholders that always hold.
use vstd::prelude::*;

use crate::error::{decimal_digits, decimal_text, GhostError};
use crate::events::BackendHealth;
use crate::io_abstraction::{has_request, resolved_apart, IoCompletion, IoRequest, IoScheduler};
use crate::time::TimeProvider;
use crate::state::PressureState;
use crate::types::{ChunkId, ChunkMeta};

verus! {

/// Opaque handle for the transfer queue, which lives with the daemon.
/// Invariants only refer to it; they never inspect it.
pub struct TransferQueue;

/// The runtime state that invariants are checked against.
pub struct GhostState<'a> {
    /// Mapping of chunk identifiers to metadata.
    pub chunks: &'a std::collections::BTreeMap<ChunkId, ChunkMeta>,
    /// Transfer queue reference.
    pub transfer_queue: &'a TransferQueue,
    /// Backend health.
    pub health: &'a BackendHealth,
    /// System pressure state.
    pub pressure: &'a PressureState,
    /// Pending (in-flight) I/O requests keyed by id, in increasing id order.
    pub io_pending: &'a [(u64, IoRequest)],
    /// Completed I/O requests (for replay and auditing).
    pub io_completed: &'a [IoRequest],
    /// Number of currently in-flight I/O requests.
    pub io_in_flight: usize,
}

/// The invariant registry as built without runtime invariants: registration
/// is accepted and ignored, and every check passes.
pub struct InvariantRegistry;

impl InvariantRegistry {
    /// An empty registry.
    pub fn new() -> InvariantRegistry {
        InvariantRegistry
    }

    /// Register an invariant; without runtime invariants it is dropped.
    pub fn register<F>(&mut self, _f: F) {
    }

    /// Run every registered invariant; without runtime invariants this always
    /// succeeds.
    pub fn check_all(&self, _state: &GhostState) -> (r: Result<(), GhostError>)
        ensures
            r is Ok,
    {
        Ok(())
    }
}

// ─── Placeholder invariants ────────────────────────────────────────────────────

/// No transfer refers to an unknown chunk. The queue does not expose its jobs,
/// so this check always passes.
pub fn no_orphaned_transfers(_state: &GhostState) -> (r: Result<(), GhostError>)
    ensures
        r is Ok,
{
    Ok(())
}

/// No chunk made an illegal state transition. Always passes.
pub fn no_illegal_transitions(_state: &GhostState) -> (r: Result<(), GhostError>)
    ensures
        r is Ok,
{
    Ok(())
}

/// No allocation is left dangling. Always passes.
pub fn no_dangling_allocations(_state: &GhostState) -> (r: Result<(), GhostError>)
    ensures
        r is Ok,
{
    Ok(())
}

/// No timestamp went backwards. Always passes.
pub fn no_timestamp_regression(_state: &GhostState) -> (r: Result<(), GhostError>)
    ensures
        r is Ok,
{
    Ok(())
}

/// No completion is missing. Always passes.
pub fn no_missing_completions(_state: &GhostState) -> (r: Result<(), GhostError>)
    ensures
        r is Ok,
{
    Ok(())
}

/// The state machine is consistent. Always passes.
pub fn state_machine_consistency(_state: &GhostState) -> (r: Result<(), GhostError>)
    ensures
        r is Ok,
{
    Ok(())
}

// ─── I/O invariants: specification ─────────────────────────────────────────────

/// The index of the first completed request whose id is still pending, if any.
pub open spec fn first_double_complete(
    completed: Seq<IoRequest>,
    pending: Seq<(u64, IoRequest)>,
) -> Option<int>
    decreases completed.len(),
{
    if completed.len() == 0 {
        None
    } else {
        match first_double_complete(completed.drop_last(), pending) {
            Some(i) => Some(i),
            None => if has_request(pending, completed.last().id) {
                Some(completed.len() - 1)
            } else {
                None
            },
        }
    }
}

/// The smallest pending key (meaningful for a non-empty table).
pub open spec fn min_pending_key(pending: Seq<(u64, IoRequest)>) -> u64
    decreases pending.len(),
{
    if pending.len() <= 1 {
        pending[0].0
    } else {
        let m = min_pending_key(pending.drop_last());
        if pending.last().0 < m {
            pending.last().0
        } else {
            m
        }
    }
}

/// The largest completed id (meaningful for a non-empty list).
pub open spec fn max_completed_id(completed: Seq<IoRequest>) -> u64
    decreases completed.len(),
{
    if completed.len() <= 1 {
        completed[0].id
    } else {
        let m = max_completed_id(completed.drop_last());
        if completed.last().id > m {
            completed.last().id
        } else {
            m
        }
    }
}

/// The number of failed requests at the end of `completed`, counted back to the
/// last request that did not fail.
pub open spec fn trailing_failures(completed: Seq<IoRequest>) -> nat
    decreases completed.len(),
{
    if completed.len() == 0 {
        0
    } else if completed.last().completion is Failed {
        trailing_failures(completed.drop_last()) + 1
    } else {
        0
    }
}

/// The length of the longest run of consecutive failed requests.
pub open spec fn longest_failure_run(completed: Seq<IoRequest>) -> nat
    decreases completed.len(),
{
    if completed.len() == 0 {
        0
    } else {
        let before = longest_failure_run(completed.drop_last());
        let here = trailing_failures(completed);
        if here > before {
            here
        } else {
            before
        }
    }
}

/// Largest number of concurrently pending requests the capacity invariant
/// accepts.
pub const MAX_CONCURRENT_IO: usize = 4096;

/// Largest number of failed completions the failure invariant accepts.
pub const MAX_CONSECUTIVE_FAILURES: usize = 256;

/// The violation message for a request that is both completed and pending.
pub open spec fn double_complete_msg(id: u64) -> Seq<char> {
    "I/O invariant violation: request "@ + decimal_digits(id as nat)
        + " is both completed and pending"@
}

/// The violation message for pending requests with nothing in flight.
pub open spec fn missed_flush_msg(pending: nat) -> Seq<char> {
    "I/O invariant violation: "@ + decimal_digits(pending)
        + " pending requests but io_in_flight is 0 — indicates missed flush or bookkeeping error"@
}

/// The violation message for an in-flight count that disagrees with the
/// pending table.
pub open spec fn in_flight_mismatch_msg(in_flight: nat, pending: nat) -> Seq<char> {
    "I/O invariant violation: io_in_flight ("@ + decimal_digits(in_flight)
        + ") != io_pending.len() ("@ + decimal_digits(pending) + ")"@
}

/// The violation message for too many pending requests.
pub open spec fn over_capacity_msg(pending: nat) -> Seq<char> {
    "I/O invariant violation: "@ + decimal_digits(pending)
        + " pending requests exceeds capacity bound of "@ + decimal_digits(
        MAX_CONCURRENT_IO as nat,
    )
}

/// The violation message for ids allocated out of order.
pub open spec fn id_order_msg(min_pending: u64, max_completed: u64) -> Seq<char> {
    "I/O invariant violation: min pending ID ("@ + decimal_digits(min_pending as nat)
        + ") <= max completed ID ("@ + decimal_digits(max_completed as nat)
        + ") — violates monotonic ID allocation"@
}

/// The violation message for too many failures.
pub open spec fn too_many_failures_msg(failures: nat) -> Seq<char> {
    "I/O invariant violation: "@ + decimal_digits(failures)
        + " consecutive completed failures exceeds bound of "@
        + decimal_digits(MAX_CONSECUTIVE_FAILURES as nat) + " — backend may be stuck"@
}

/// Resolved requests that are no longer pending contain no double completion.
proof fn lemma_apart_no_double(c: Seq<IoRequest>, p: Seq<(u64, IoRequest)>, bound: u64)
    requires
        resolved_apart(c, p, bound),
    ensures
        first_double_complete(c, p) is None,
    decreases c.len(),
{
    if c.len() > 0 {
        let d = c.drop_last();
        assert forall|i: int| 0 <= i < d.len() implies (#[trigger] d[i]).id < bound
            && !has_request(p, d[i].id) by {
            assert(d[i] == c[i]);
        }
        lemma_apart_no_double(d, p, bound);
        assert(c[c.len() - 1] == c.last());
    }
}

/// The I/O scheduler never holds a request both resolved and pending: on the
/// state of any well-formed scheduler the no-double-complete invariant finds
/// nothing to report.
pub proof fn lemma_scheduler_keeps_io_invariants<P: TimeProvider + ?Sized>(s: &IoScheduler<P>)
    requires
        s.wf(),
    ensures
        first_double_complete(s.completed_requests(), s.pending_entries()) is None,
{
    lemma_apart_no_double(s.completed_requests(), s.pending_entries(), s.next_id());
}

// ─── I/O invariants: checks ────────────────────────────────────────────────────

/// Whether `id` is a pending key.
fn pending_contains(pending: &[(u64, IoRequest)], id: u64) -> (r: bool)
    ensures
        r == has_request(pending@, id),
{
    let n = pending.len();
    let mut i: usize = 0;
    while i < n
        invariant
            n == pending@.len(),
            0 <= i <= n,
            forall|j: int| 0 <= j < i ==> (#[trigger] pending@[j]).0 != id,
        decreases n - i,
    {
        if pending[i].0 == id {
            assert(pending@[i as int].0 == id);
            return true;
        }
        i = i + 1;
    }
    false
}

/// No double complete: no completed request may still be pending. The first
/// completed request found pending is reported.
pub fn io_no_double_complete(state: &GhostState) -> (r: Result<(), GhostError>)
    ensures
        match first_double_complete(state.io_completed@, state.io_pending@) {
            None => r is Ok,
            Some(i) => r matches Err(GhostError::Internal(m)) && m@ == double_complete_msg(
                state.io_completed@[i].id,
            ),
        },
{
    let completed = state.io_completed;
    let n = completed.len();
    let mut i: usize = 0;
    while i < n
        invariant
            n == completed@.len(),
            completed@ == state.io_completed@,
            0 <= i <= n,
            first_double_complete(completed@.subrange(0, i as int), state.io_pending@) is None,
        decreases n - i,
    {
        proof {
            assert(completed@.subrange(0, i + 1).drop_last() =~= completed@.subrange(0, i as int));
        }
        let id = completed[i].id;
        if pending_contains(state.io_pending, id) {
            proof {
                lemma_first_double_prefix(completed@, state.io_pending@, i as int);
            }
            let mut m = String::from_str("I/O invariant violation: request ");
            let d = decimal_text(id);
            m.append(d.as_str());
            m.append(" is both completed and pending");
            return Err(GhostError::Internal(m));
        }
        i = i + 1;
    }
    proof {
        assert(completed@.subrange(0, n as int) =~= completed@);
    }
    Ok(())
}

/// Once a prefix holds the first double completion, every longer list has the
/// same first double completion.
proof fn lemma_first_double_prefix(c: Seq<IoRequest>, p: Seq<(u64, IoRequest)>, i: int)
    requires
        0 <= i < c.len(),
        first_double_complete(c.subrange(0, i), p) is None,
        has_request(p, c[i].id),
    ensures
        first_double_complete(c, p) == Some(i),
    decreases c.len(),
{
    if c.len() == i + 1 {
        assert(c.drop_last() =~= c.subrange(0, i));
    } else {
        assert(c.drop_last().subrange(0, i) =~= c.subrange(0, i));
        lemma_first_double_prefix(c.drop_last(), p, i);
    }
}

/// Flush completeness: with nothing in flight, nothing may be pending.
pub fn io_flush_completeness(state: &GhostState) -> (r: Result<(), GhostError>)
    ensures
        state.io_in_flight == 0 && state.io_pending@.len() > 0 ==> (r matches Err(
            GhostError::Internal(m),
        ) && m@ == missed_flush_msg(state.io_pending@.len())),
        !(state.io_in_flight == 0 && state.io_pending@.len() > 0) ==> r is Ok,
{
    if state.io_in_flight == 0 && state.io_pending.len() > 0 {
        let mut m = String::from_str("I/O invariant violation: ");
        let d = decimal_text(state.io_pending.len() as u64);
        m.append(d.as_str());
        m.append(
            " pending requests but io_in_flight is 0 — indicates missed flush or bookkeeping error",
        );
        return Err(GhostError::Internal(m));
    }
    Ok(())
}

/// Completion bounded: the in-flight count equals the number of pending
/// requests.
pub fn io_completion_bounded(state: &GhostState) -> (r: Result<(), GhostError>)
    ensures
        state.io_in_flight != state.io_pending@.len() ==> (r matches Err(GhostError::Internal(m))
            && m@ == in_flight_mismatch_msg(state.io_in_flight as nat, state.io_pending@.len())),
        state.io_in_flight == state.io_pending@.len() ==> r is Ok,
{
    let pending = state.io_pending.len();
    if state.io_in_flight != pending {
        let mut m = String::from_str("I/O invariant violation: io_in_flight (");
        let a = decimal_text(state.io_in_flight as u64);
        m.append(a.as_str());
        m.append(") != io_pending.len() (");
        let b = decimal_text(pending as u64);
        m.append(b.as_str());
        m.append(")");
        return Err(GhostError::Internal(m));
    }
    Ok(())
}

/// Buffer within capacity: at most `MAX_CONCURRENT_IO` requests pending.
pub fn io_buffer_within_capacity(state: &GhostState) -> (r: Result<(), GhostError>)
    ensures
        state.io_pending@.len() > MAX_CONCURRENT_IO ==> (r matches Err(GhostError::Internal(m))
            && m@ == over_capacity_msg(state.io_pending@.len())),
        state.io_pending@.len() <= MAX_CONCURRENT_IO ==> r is Ok,
{
    let pending = state.io_pending.len();
    if pending > MAX_CONCURRENT_IO {
        let mut m = String::from_str("I/O invariant violation: ");
        let a = decimal_text(pending as u64);
        m.append(a.as_str());
        m.append(" pending requests exceeds capacity bound of ");
        let b = decimal_text(MAX_CONCURRENT_IO as u64);
        m.append(b.as_str());
        return Err(GhostError::Internal(m));
    }
    Ok(())
}

/// Request ids monotonic: when both lists are non-empty, every pending id
/// exceeds every completed id, i.e. the smallest pending key is above the
/// largest completed id.
pub fn io_request_id_monotonic(state: &GhostState) -> (r: Result<(), GhostError>)
    ensures
        ({
            let c = state.io_completed@;
            let p = state.io_pending@;
            &&& (c.len() == 0 || p.len() == 0) ==> r is Ok
            &&& (c.len() > 0 && p.len() > 0 && min_pending_key(p) > max_completed_id(c)) ==> r is Ok
            &&& (c.len() > 0 && p.len() > 0 && min_pending_key(p) <= max_completed_id(c)) ==> (
            r matches Err(GhostError::Internal(m)) && m@ == id_order_msg(
                min_pending_key(p),
                max_completed_id(c),
            ))
        }),
{
    let completed = state.io_completed;
    let pending = state.io_pending;
    if completed.len() == 0 || pending.len() == 0 {
        return Ok(());
    }
    let mut max_id: u64 = completed[0].id;
    let mut i: usize = 1;
    while i < completed.len()
        invariant
            1 <= i <= completed@.len(),
            max_id == max_completed_id(completed@.subrange(0, i as int)),
        decreases completed@.len() - i,
    {
        proof {
            assert(completed@.subrange(0, i + 1).drop_last() =~= completed@.subrange(0, i as int));
        }
        if completed[i].id > max_id {
            max_id = completed[i].id;
        }
        i = i + 1;
    }
    let mut min_id: u64 = pending[0].0;
    let mut j: usize = 1;
    while j < pending.len()
        invariant
            1 <= j <= pending@.len(),
            min_id == min_pending_key(pending@.subrange(0, j as int)),
        decreases pending@.len() - j,
    {
        proof {
            assert(pending@.subrange(0, j + 1).drop_last() =~= pending@.subrange(0, j as int));
        }
        if pending[j].0 < min_id {
            min_id = pending[j].0;
        }
        j = j + 1;
    }
    proof {
        assert(completed@.subrange(0, completed@.len() as int) =~= completed@);
        assert(pending@.subrange(0, pending@.len() as int) =~= pending@);
    }
    if min_id <= max_id {
        let mut m = String::from_str("I/O invariant violation: min pending ID (");
        let a = decimal_text(min_id);
        m.append(a.as_str());
        m.append(") <= max completed ID (");
        let b = decimal_text(max_id);
        m.append(b.as_str());
        m.append(") — violates monotonic ID allocation");
        return Err(GhostError::Internal(m));
    }
    Ok(())
}

/// Failure eventual: no run of more than `MAX_CONSECUTIVE_FAILURES`
/// consecutive completed requests may have failed.
pub fn io_failure_eventual(state: &GhostState) -> (r: Result<(), GhostError>)
    ensures
        longest_failure_run(state.io_completed@) > MAX_CONSECUTIVE_FAILURES ==> (r matches Err(
            GhostError::Internal(m),
        ) && m@ == too_many_failures_msg(longest_failure_run(state.io_completed@))),
        longest_failure_run(state.io_completed@) <= MAX_CONSECUTIVE_FAILURES ==> r is Ok,
{
    let completed = state.io_completed;
    let n = completed.len();
    let mut run: usize = 0;
    let mut longest: usize = 0;
    let mut i: usize = 0;
    while i < n
        invariant
            n == completed@.len(),
            0 <= i <= n,
            run == trailing_failures(completed@.subrange(0, i as int)),
            longest == longest_failure_run(completed@.subrange(0, i as int)),
            run <= i,
            longest <= i,
        decreases n - i,
    {
        proof {
            assert(completed@.subrange(0, i + 1).drop_last() =~= completed@.subrange(0, i as int));
        }
        match completed[i].completion {
            IoCompletion::Failed { .. } => {
                run = run + 1;
            },
            _ => {
                run = 0;
            },
        }
        if run > longest {
            longest = run;
        }
        i = i + 1;
    }
    proof {
        assert(completed@.subrange(0, n as int) =~= completed@);
    }
    if longest > MAX_CONSECUTIVE_FAILURES {
        let mut m = String::from_str("I/O invariant violation: ");
        let a = decimal_text(longest as u64);
        m.append(a.as_str());
        m.append(" consecutive completed failures exceeds bound of ");
        let b = decimal_text(MAX_CONSECUTIVE_FAILURES as u64);
        m.append(b.as_str());
        m.append(" — backend may be stuck");
        return Err(GhostError::Internal(m));
    }
    Ok(())
}

} // verus!
