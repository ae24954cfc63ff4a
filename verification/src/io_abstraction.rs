//! The I/O scheduler: separates the issue of an I/O request from its
//! completion, so that the order of I/O events does not depend on the wall
//! clock. Requests are resolved in increasing id order.
use vstd::prelude::*;

use crate::clock::{duration_as_nanos, instant_duration_since, instant_elapsed};
use crate::emitter::EventEmitter;
use crate::error::{decimal_digits, decimal_text, GhostError, GhostResult};
use crate::events::Event;
use crate::io_events::IoOperation;
use crate::time::TimeProvider;
use crate::types::{ChunkId, TierId};

verus! {

/// A deferred I/O completion: created when an operation is issued, pending
/// until it is completed or fails.
#[derive(Debug, Clone)]
pub struct IoRequest {
    /// Unique identifier for this request (monotonically increasing).
    pub id: u64,
    /// The type of I/O operation.
    pub operation: IoOperation,
    /// The chunk being operated on.
    pub chunk_id: ChunkId,
    /// The tier the operation targets.
    pub tier: TierId,
    /// When the request was issued.
    pub issued_at: std::time::Instant,
    /// Current completion state of this request.
    pub completion: IoCompletion,
}

/// The completion state of an I/O request.
#[derive(Debug, Clone)]
pub enum IoCompletion {
    /// The request is still pending (in-flight).
    Pending,
    /// The request completed successfully after the given duration.
    Completed {
        /// Duration in deterministic ticks.
        duration_ticks: u64,
    },
    /// The request failed with the given error.
    Failed {
        /// Human-readable error description.
        error: String,
    },
}

/// `done` is the resolution of `req`: the same request, whatever its
/// completion state.
pub open spec fn same_request(req: IoRequest, done: IoRequest) -> bool {
    &&& done.id == req.id
    &&& done.operation == req.operation
    &&& done.chunk_id == req.chunk_id
    &&& done.tier == req.tier
    &&& done.issued_at == req.issued_at
}

/// The event that reports the resolution of `req`: a completion event with its
/// ticks, or a failure event with its error. (A pending request reports its
/// issue.)
pub open spec fn completion_event(req: IoRequest) -> Event {
    match req.completion {
        IoCompletion::Completed { duration_ticks } => Event::IoRequestCompleted {
            sequence_id: 0,
            operation: req.operation,
            chunk_id: req.chunk_id,
            tier: req.tier,
            duration_ticks,
        },
        IoCompletion::Failed { error } => Event::IoRequestFailed {
            sequence_id: 0,
            operation: req.operation,
            chunk_id: req.chunk_id,
            tier: req.tier,
            error,
        },
        IoCompletion::Pending => Event::IoRequestIssued {
            sequence_id: 0,
            operation: req.operation,
            chunk_id: req.chunk_id,
            tier: req.tier,
        },
    }
}

/// Keys strictly increasing, each the id of its request, all below `bound`.
pub open spec fn requests_sorted_below(s: Seq<(u64, IoRequest)>, bound: u64) -> bool {
    &&& forall|i: int, j: int| 0 <= i < j < s.len() ==> (#[trigger] s[i]).0 < (#[trigger] s[j]).0
    &&& forall|i: int| 0 <= i < s.len() ==> (#[trigger] s[i]).0 < bound
    &&& forall|i: int| 0 <= i < s.len() ==> (#[trigger] s[i]).1.id == s[i].0
}

/// Every resolved request has an id below `bound` that is no longer pending.
pub open spec fn resolved_apart(
    done: Seq<IoRequest>,
    pending: Seq<(u64, IoRequest)>,
    bound: u64,
) -> bool {
    forall|i: int|
        0 <= i < done.len() ==> (#[trigger] done[i]).id < bound && !has_request(
            pending,
            done[i].id,
        )
}

/// Whether a request with id `id` is pending.
pub open spec fn has_request(s: Seq<(u64, IoRequest)>, id: u64) -> bool {
    exists|i: int| 0 <= i < s.len() && (#[trigger] s[i]).0 == id
}

/// The position of request `id` among the pending ones.
pub open spec fn request_pos(s: Seq<(u64, IoRequest)>, id: u64) -> int {
    choose|i: int| 0 <= i < s.len() && (#[trigger] s[i]).0 == id
}

/// The number of pending requests performing `op`.
pub open spec fn count_operation(s: Seq<(u64, IoRequest)>, op: IoOperation) -> nat
    decreases s.len(),
{
    if s.len() == 0 {
        0
    } else if s.last().1.operation == op {
        count_operation(s.drop_last(), op) + 1
    } else {
        count_operation(s.drop_last(), op)
    }
}

/// The message of the error returned when the scheduler is full.
pub open spec fn capacity_msg(pending: nat, max: nat) -> Seq<char> {
    "I/O scheduler at capacity: "@ + decimal_digits(pending) + " pending requests (max: "@
        + decimal_digits(max) + ")"@
}

/// Queues I/O requests and resolves them in deterministic (id) order. The
/// time source is any `TimeProvider`, including `dyn TimeProvider`.
pub struct IoScheduler<P: TimeProvider + ?Sized> {
    next_id: u64,
    pending: Vec<(u64, IoRequest)>,
    completed: Vec<IoRequest>,
    max_pending: usize,
    time_provider: std::sync::Arc<P>,
    event_emitter: EventEmitter,
    reported: Ghost<Seq<Event>>,
}

impl<P: TimeProvider + ?Sized> IoScheduler<P> {
    /// The pending requests, keyed by id, in increasing id order.
    pub closed spec fn pending_entries(&self) -> Seq<(u64, IoRequest)> {
        self.pending@
    }

    /// The resolved requests, in the order they were resolved.
    pub closed spec fn completed_requests(&self) -> Seq<IoRequest> {
        self.completed@
    }

    /// The id the next issued request will receive.
    pub closed spec fn next_id(&self) -> u64 {
        self.next_id
    }

    /// The backpressure limit.
    pub closed spec fn limit(&self) -> usize {
        self.max_pending
    }

    /// Every event handed to the emitter so far, in the order it was handed
    /// over (before the emitter stamps its sequence id).
    pub closed spec fn reported_events(&self) -> Seq<Event> {
        self.reported@
    }

    /// Well-formedness: pending ids strictly increasing and below the next id;
    /// resolved requests have ids below the next id and are no longer pending.
    pub open spec fn wf(&self) -> bool {
        &&& requests_sorted_below(self.pending_entries(), self.next_id())
        &&& resolved_apart(self.completed_requests(), self.pending_entries(), self.next_id())
    }

    /// A scheduler with nothing pending or resolved, timed by `time_provider`,
    /// reporting to `event_emitter`, and refusing new requests once
    /// `max_pending` are in flight. Ids start at 1.
    pub fn new(
        time_provider: std::sync::Arc<P>,
        event_emitter: EventEmitter,
        max_pending: usize,
    ) -> (s: IoScheduler<P>)
        ensures
            s.wf(),
            s.pending_entries().len() == 0,
            s.completed_requests().len() == 0,
            s.limit() == max_pending,
            s.next_id() == 1,
            s.reported_events().len() == 0,
    {
        IoScheduler {
            next_id: 1,
            pending: Vec::new(),
            completed: Vec::new(),
            max_pending,
            time_provider,
            event_emitter,
            reported: Ghost(Seq::empty()),
        }
    }

    /// Hand `event` to the emitter, which stamps it and queues it without
    /// waiting; a full or closed channel drops it.
    fn report(&mut self, event: Event)
        ensures
            final(self).reported_events() == old(self).reported_events().push(event),
            final(self).pending_entries() == old(self).pending_entries(),
            final(self).completed_requests() == old(self).completed_requests(),
            final(self).next_id() == old(self).next_id(),
            final(self).limit() == old(self).limit(),
    {
        let ghost e = event;
        let _ = self.event_emitter.try_emit(event);
        proof {
            self.reported@ = self.reported@.push(e);
        }
    }

    /// Issue a request: it becomes pending under the next id, which is
    /// returned, and an issued event is reported. When `max_pending` requests
    /// are already in flight the request is refused with an `Internal` error
    /// and nothing changes.
    pub fn issue(&mut self, operation: IoOperation, chunk_id: ChunkId, tier: TierId) -> (r:
        GhostResult<u64>)
        requires
            old(self).wf(),
            old(self).next_id() < u64::MAX,
        ensures
            final(self).wf(),
            final(self).limit() == old(self).limit(),
            final(self).completed_requests() == old(self).completed_requests(),
            old(self).pending_entries().len() >= old(self).limit() ==> (r matches Err(
                GhostError::Internal(m),
            ) && m@ == capacity_msg(
                old(self).pending_entries().len(),
                old(self).limit() as nat,
            ) && final(self).pending_entries() == old(self).pending_entries() && final(self).next_id()
                == old(self).next_id() && final(self).reported_events() == old(
                self,
            ).reported_events()),
            old(self).pending_entries().len() < old(self).limit() ==> {
                let p = final(self).pending_entries();
                let q = old(self).pending_entries();
                &&& r == Ok::<u64, GhostError>(old(self).next_id())
                &&& final(self).next_id() == old(self).next_id() + 1
                &&& forall|i: int| 0 <= i < q.len() ==> (#[trigger] q[i]).0 < old(self).next_id()
                &&& forall|i: int|
                    0 <= i < old(self).completed_requests().len() ==> (#[trigger] old(
                        self,
                    ).completed_requests()[i]).id < old(self).next_id()
                &&& p.len() == q.len() + 1
                &&& p.subrange(0, q.len() as int) == q
                &&& p.last().0 == old(self).next_id()
                &&& p.last().1.id == old(self).next_id()
                &&& p.last().1.operation == operation
                &&& p.last().1.chunk_id == chunk_id
                &&& p.last().1.tier == tier
                &&& p.last().1.completion is Pending
                &&& final(self).reported_events() == old(self).reported_events().push(
                    (Event::IoRequestIssued { sequence_id: 0, operation, chunk_id, tier }),
                )
            },
    {
        let n = self.pending.len();
        if n >= self.max_pending {
            let mut m = String::from_str("I/O scheduler at capacity: ");
            let a = decimal_text(n as u64);
            m.append(a.as_str());
            m.append(" pending requests (max: ");
            let b = decimal_text(self.max_pending as u64);
            m.append(b.as_str());
            m.append(")");
            return Err(GhostError::Internal(m));
        }
        let id = self.next_id;
        self.next_id = self.next_id + 1;
        let now = self.time_provider.now();
        let request = IoRequest {
            id,
            operation,
            chunk_id,
            tier,
            issued_at: now,
            completion: IoCompletion::Pending,
        };
        self.report(Event::IoRequestIssued { sequence_id: 0, operation, chunk_id, tier });
        let ghost s = self.pending@;
        self.pending.push((id, request));
        proof {
            let t = self.pending@;
            assert(t.subrange(0, s.len() as int) =~= s);
            assert forall|i: int, j: int| 0 <= i < j < t.len() implies (#[trigger] t[i]).0 < (
            #[trigger] t[j]).0 by {
                if j < s.len() {
                    assert(t[i] == s[i] && t[j] == s[j]);
                } else {
                    assert(t[i] == s[i]);
                }
            }
            assert forall|i: int| 0 <= i < t.len() implies (#[trigger] t[i]).0 < self.next_id
                && t[i].1.id == t[i].0 by {
                if i < s.len() {
                    assert(t[i] == s[i]);
                }
            }
        }
        Ok(id)
    }

    /// Position of pending request `id`.
    fn find(&self, id: u64) -> (r: Option<usize>)
        requires
            self.wf(),
        ensures
            r is None <==> !has_request(self.pending_entries(), id),
            r matches Some(i) ==> i < self.pending_entries().len()
                && self.pending_entries()[i as int].0 == id && request_pos(
                self.pending_entries(),
                id,
            ) == i,
    {
        let n = self.pending.len();
        let mut i: usize = 0;
        while i < n
            invariant
                n == self.pending_entries().len(),
                self.wf(),
                0 <= i <= n,
                forall|j: int| 0 <= j < i ==> (#[trigger] self.pending_entries()[j]).0 != id,
            decreases n - i,
        {
            if self.pending[i].0 == id {
                proof {
                    let s = self.pending_entries();
                    let p = request_pos(s, id);
                    assert(s[i as int].0 == id);
                    if p != i {
                        if p < i {
                            assert(s[p].0 < s[i as int].0);
                        } else {
                            assert(s[i as int].0 < s[p].0);
                        }
                    }
                }
                return Some(i);
            }
            i = i + 1;
        }
        None
    }

    /// Resolve pending request `id` with `result`: it leaves the pending set
    /// and is appended to the resolved requests as `Completed` (for `Ok`) or
    /// `Failed` with the given error (for `Err`), and the matching event is
    /// reported. The request must be pending.
    pub fn complete(&mut self, id: u64, result: Result<(), String>)
        requires
            old(self).wf(),
            has_request(old(self).pending_entries(), id),
        ensures
            final(self).wf(),
            final(self).limit() == old(self).limit(),
            final(self).next_id() == old(self).next_id(),
            ({
                let q = old(self).pending_entries();
                let i = request_pos(q, id);
                let c = final(self).completed_requests();
                &&& final(self).pending_entries() == q.remove(i)
                &&& c.len() == old(self).completed_requests().len() + 1
                &&& c.subrange(0, c.len() - 1) == old(self).completed_requests()
                &&& same_request(q[i].1, c.last())
                &&& result is Ok ==> c.last().completion is Completed
                &&& result matches Err(e) ==> (c.last().completion matches IoCompletion::Failed {
                    error,
                } && error@ == e@)
                &&& final(self).reported_events() == old(self).reported_events().push(
                    completion_event(c.last()),
                )
            }),
    {
        let i = match self.find(id) {
            Some(i) => i,
            None => {
                return;
            },
        };
        let ghost s = self.pending@;
        let (_, mut request) = self.pending.remove(i);
        proof {
            let t = self.pending@;
            assert(t =~= s.remove(i as int));
            assert forall|a: int, b: int| 0 <= a < b < t.len() implies (#[trigger] t[a]).0 < (
            #[trigger] t[b]).0 by {
                if b < i {
                    assert(t[a] == s[a] && t[b] == s[b]);
                } else if a < i {
                    assert(t[a] == s[a] && t[b] == s[b + 1]);
                } else {
                    assert(t[a] == s[a + 1] && t[b] == s[b + 1]);
                }
            }
            assert forall|a: int| 0 <= a < t.len() implies (#[trigger] t[a]).0 < self.next_id
                && t[a].1.id == t[a].0 by {
                if a < i {
                    assert(t[a] == s[a]);
                } else {
                    assert(t[a] == s[a + 1]);
                }
            }
        }
        let now = self.time_provider.now();
        let duration = instant_duration_since(&now, &request.issued_at);
        let ticks = truncate_ticks(duration_as_nanos(&duration));
        match result {
            Ok(()) => {
                self.report(
                    Event::IoRequestCompleted {
                        sequence_id: 0,
                        operation: request.operation,
                        chunk_id: request.chunk_id,
                        tier: request.tier,
                        duration_ticks: ticks,
                    },
                );
                request.completion = IoCompletion::Completed { duration_ticks: ticks };
            },
            Err(error) => {
                let copy = error.clone();
                self.report(
                    Event::IoRequestFailed {
                        sequence_id: 0,
                        operation: request.operation,
                        chunk_id: request.chunk_id,
                        tier: request.tier,
                        error: copy,
                    },
                );
                request.completion = IoCompletion::Failed { error };
            },
        }
        let ghost c0 = self.completed@;
        self.completed.push(request);
        assert(self.completed@.subrange(0, self.completed@.len() - 1) =~= c0);
    }

    /// The pending requests, keyed by id, in increasing id order.
    pub fn pending(&self) -> (r: &[(u64, IoRequest)])
        ensures
            r@ == self.pending_entries(),
    {
        self.pending.as_slice()
    }

    /// The resolved requests, in the order they were resolved.
    pub fn completed(&self) -> (r: &[IoRequest])
        ensures
            r@ == self.completed_requests(),
    {
        self.completed.as_slice()
    }

    /// The number of pending requests.
    pub fn pending_count(&self) -> (n: usize)
        ensures
            n == self.pending_entries().len(),
    {
        self.pending.len()
    }

    /// The backpressure limit.
    pub fn max_pending(&self) -> (n: usize)
        ensures
            n == self.limit(),
    {
        self.max_pending
    }

    /// Whether the scheduler is at capacity (backpressure active).
    pub fn is_at_capacity(&self) -> (r: bool)
        ensures
            r == (self.pending_entries().len() >= self.limit()),
    {
        self.pending.len() >= self.max_pending
    }

    /// The number of resolved requests.
    pub fn completed_count(&self) -> (n: usize)
        ensures
            n == self.completed_requests().len(),
    {
        self.completed.len()
    }

    /// The number of pending requests performing `op`; the write share of the
    /// pending load is what the cost estimate is derived from.
    pub fn pending_operation_count(&self, op: IoOperation) -> (n: usize)
        ensures
            n == count_operation(self.pending_entries(), op),
    {
        let n = self.pending.len();
        let mut count: usize = 0;
        let mut i: usize = 0;
        while i < n
            invariant
                n == self.pending_entries().len(),
                0 <= i <= n,
                count == count_operation(self.pending_entries().subrange(0, i as int), op),
                count <= i,
            decreases n - i,
        {
            proof {
                let s = self.pending_entries();
                assert(s.subrange(0, i + 1).drop_last() =~= s.subrange(0, i as int));
                assert(s.subrange(0, i + 1).last() == s[i as int]);
            }
            if self.pending[i].1.operation == op {
                count = count + 1;
            }
            i = i + 1;
        }
        proof {
            assert(self.pending_entries().subrange(0, n as int) =~= self.pending_entries());
        }
        count
    }

    /// Flush: every pending request is resolved as `Completed`, in id order,
    /// and appended to the resolved requests; a flush-issued event, then one
    /// completion event per request in id order, then a flush-completed event
    /// are handed to the emitter.
    pub fn flush(&mut self)
        requires
            old(self).wf(),
        ensures
            final(self).wf(),
            final(self).limit() == old(self).limit(),
            final(self).next_id() == old(self).next_id(),
            final(self).pending_entries().len() == 0,
            ({
                let q = old(self).pending_entries();
                let c0 = old(self).completed_requests();
                let c = final(self).completed_requests();
                &&& c.len() == c0.len() + q.len()
                &&& c.subrange(0, c0.len() as int) == c0
                &&& forall|k: int| 0 <= k < q.len() ==> same_request(q[k].1, #[trigger] c[c0.len() + k])
                    && c[c0.len() + k].completion is Completed
            }),
            ({
                let q = old(self).pending_entries();
                let c0 = old(self).completed_requests();
                let c = final(self).completed_requests();
                let r0 = old(self).reported_events();
                let r = final(self).reported_events();
                &&& r.len() == r0.len() + q.len() + 2
                &&& r.subrange(0, r0.len() as int) == r0
                &&& r[r0.len() as int] == (Event::IoFlushIssued { sequence_id: 0, tier: TierId::Simulation })
                &&& forall|k: int| 0 <= k < q.len() ==> #[trigger] r[r0.len() + 1 + k] == completion_event(
                    c[c0.len() + k],
                )
                &&& r.last() matches Event::IoFlushCompleted { sequence_id, tier, .. } && sequence_id
                    == 0 && tier == TierId::Simulation
            }),
    {
        let now = self.time_provider.now();
        let ghost r0 = self.reported@;
        self.report(Event::IoFlushIssued { sequence_id: 0, tier: TierId::Simulation });
        let ghost q = self.pending@;
        let ghost c0 = self.completed@;
        let mut rest: Vec<(u64, IoRequest)> = Vec::new();
        std::mem::swap(&mut rest, &mut self.pending);
        let ghost mut k: int = 0;
        while rest.len() > 0
            invariant
                0 <= k <= q.len(),
                rest@ == q.subrange(k, q.len() as int),
                self.pending@.len() == 0,
                self.next_id == old(self).next_id,
                self.max_pending == old(self).max_pending,
                self.completed@.len() == c0.len() + k,
                self.completed@.subrange(0, c0.len() as int) == c0,
                requests_sorted_below(q, self.next_id),
                forall|j: int| 0 <= j < self.completed@.len() ==> (#[trigger] self.completed@[j]).id < self.next_id,
                forall|j: int| 0 <= j < k ==> same_request(q[j].1, #[trigger] self.completed@[c0.len() + j])
                    && self.completed@[c0.len() + j].completion is Completed,
                self.reported@.len() == r0.len() + 1 + k,
                self.reported@.subrange(0, r0.len() as int) == r0,
                self.reported@[r0.len() as int] == (Event::IoFlushIssued { sequence_id: 0, tier: TierId::Simulation }),
                forall|j: int| 0 <= j < k ==> #[trigger] self.reported@[r0.len() + 1 + j] == completion_event(
                    self.completed@[c0.len() + j],
                ),
            decreases rest.len(),
        {
            let (_, mut request) = rest.remove(0);
            proof {
                assert(request == q[k].1);
            }
            let duration = instant_duration_since(&now, &request.issued_at);
            let ticks = truncate_ticks(duration_as_nanos(&duration));
            request.completion = IoCompletion::Completed { duration_ticks: ticks };
            let ghost rb = self.reported@;
            self.report(
                Event::IoRequestCompleted {
                    sequence_id: 0,
                    operation: request.operation,
                    chunk_id: request.chunk_id,
                    tier: request.tier,
                    duration_ticks: ticks,
                },
            );
            let ghost before = self.completed@;
            self.completed.push(request);
            proof {
                let after = self.completed@;
                let ra = self.reported@;
                assert forall|j: int| 0 <= j < after.len() implies (#[trigger] after[j]).id < self.next_id by {
                    if j < before.len() {
                        assert(after[j] == before[j]);
                    }
                }
                assert forall|j: int| 0 <= j < k + 1 implies same_request(
                    q[j].1,
                    #[trigger] after[c0.len() + j],
                ) && after[c0.len() + j].completion is Completed by {
                    if j < k {
                        assert(after[c0.len() + j] == before[c0.len() + j]);
                    }
                }
                assert forall|j: int| 0 <= j < k + 1 implies #[trigger] ra[r0.len() + 1 + j]
                    == completion_event(after[c0.len() + j]) by {
                    if j < k {
                        assert(after[c0.len() + j] == before[c0.len() + j]);
                        assert(ra[r0.len() + 1 + j] == rb[r0.len() + 1 + j]);
                    }
                }
                assert(ra[r0.len() as int] == rb[r0.len() as int]);
                assert(ra.subrange(0, r0.len() as int) =~= rb.subrange(0, r0.len() as int));
                assert(after.subrange(0, c0.len() as int) =~= before.subrange(0, c0.len() as int));
                k = k + 1;
                assert(rest@ =~= q.subrange(k, q.len() as int));
            }
        }
        let flush_time = instant_elapsed(&now);
        let flush_ticks = truncate_ticks(duration_as_nanos(&flush_time));
        let ghost rb = self.reported@;
        self.report(
            Event::IoFlushCompleted {
                sequence_id: 0,
                tier: TierId::Simulation,
                duration_ticks: flush_ticks,
            },
        );
        proof {
            let ra = self.reported@;
            assert(ra.subrange(0, r0.len() as int) =~= rb.subrange(0, r0.len() as int));
            assert(ra[r0.len() as int] == rb[r0.len() as int]);
            assert forall|j: int| 0 <= j < q.len() implies #[trigger] ra[r0.len() + 1 + j]
                == completion_event(self.completed@[c0.len() + j]) by {
                assert(ra[r0.len() + 1 + j] == rb[r0.len() + 1 + j]);
            }
        }
    }
}

/// A nanosecond count truncated to 64 bits.
fn truncate_ticks(n: u128) -> (r: u64)
    ensures
        r == n as u64,
{
    n as u64
}

} // verus!
