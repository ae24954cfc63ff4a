//! A backend-neutral DMA transfer pipeline: transfers move through the stages
//! Pending → Submitted → InProgress → Completed / Failed, and completed ones
//! are collected by `poll`.
use vstd::prelude::*;

use crate::clock::{duration_as_millis, instant_elapsed, instant_now};
use crate::emitter::EventEmitter;
use crate::error::{
    append_decimal_bytes, debug_str_text, debug_text, decimal_bytes, decimal_digits, decimal_text,
    GhostError,
};
use crate::events::Event;
use crate::hardware::{TransferFence, TransferSubmission};
use crate::types::{blake3_digest, ChunkId, TierId};

verus! {

// ─── Stages ────────────────────────────────────────────────────────────────────

/// Lifecycle stages for a DMA transfer.
#[derive(Debug, Clone)]
pub enum DmaStage {
    /// Waiting to be submitted to the transfer device.
    Pending,
    /// Submitted to the transfer device, awaiting execution.
    Submitted,
    /// Transfer is actively in progress.
    InProgress,
    /// Transfer completed successfully.
    Completed,
    /// Transfer failed with the given error message.
    Failed(String),
}

/// Two stages are the same: the same variant, and for `Failed` the same text.
pub open spec fn same_stage(a: DmaStage, b: DmaStage) -> bool {
    match (a, b) {
        (DmaStage::Pending, DmaStage::Pending) => true,
        (DmaStage::Submitted, DmaStage::Submitted) => true,
        (DmaStage::InProgress, DmaStage::InProgress) => true,
        (DmaStage::Completed, DmaStage::Completed) => true,
        (DmaStage::Failed(x), DmaStage::Failed(y)) => x@ == y@,
        _ => false,
    }
}

impl PartialEq for DmaStage {
    fn eq(&self, other: &Self) -> (r: bool) {
        match (self, other) {
            (DmaStage::Pending, DmaStage::Pending) => true,
            (DmaStage::Submitted, DmaStage::Submitted) => true,
            (DmaStage::InProgress, DmaStage::InProgress) => true,
            (DmaStage::Completed, DmaStage::Completed) => true,
            (DmaStage::Failed(x), DmaStage::Failed(y)) => x.eq(y),
            _ => false,
        }
    }
}

impl vstd::std_specs::cmp::PartialEqSpecImpl for DmaStage {
    open spec fn obeys_eq_spec() -> bool {
        true
    }

    open spec fn eq_spec(&self, other: &Self) -> bool {
        same_stage(*self, *other)
    }
}

impl Eq for DmaStage {
}

/// Terminal stages: no further transitions are expected.
pub open spec fn stage_terminal(s: DmaStage) -> bool {
    s is Completed || s is Failed
}

/// Active stages: the transfer is with the device.
pub open spec fn stage_active(s: DmaStage) -> bool {
    s is Submitted || s is InProgress
}

/// The text that `{:?}` prints for a stage.
pub open spec fn stage_debug(s: DmaStage) -> Seq<char> {
    match s {
        DmaStage::Pending => "Pending"@,
        DmaStage::Submitted => "Submitted"@,
        DmaStage::InProgress => "InProgress"@,
        DmaStage::Completed => "Completed"@,
        DmaStage::Failed(r) => "Failed("@ + debug_str_text(r@) + ")"@,
    }
}

impl DmaStage {
    /// Whether this stage is terminal (`Completed` or `Failed`).
    pub fn is_terminal(&self) -> (r: bool)
        ensures
            r == stage_terminal(*self),
    {
        match self {
            DmaStage::Completed | DmaStage::Failed(_) => true,
            _ => false,
        }
    }

    /// Whether this stage is active (`Submitted` or `InProgress`).
    pub fn is_active(&self) -> (r: bool)
        ensures
            r == stage_active(*self),
    {
        match self {
            DmaStage::Submitted | DmaStage::InProgress => true,
            _ => false,
        }
    }

    /// The text that `{:?}` prints for this stage.
    pub fn debug_string(&self) -> (s: String)
        ensures
            s@ == stage_debug(*self),
    {
        match self {
            DmaStage::Pending => String::from_str("Pending"),
            DmaStage::Submitted => String::from_str("Submitted"),
            DmaStage::InProgress => String::from_str("InProgress"),
            DmaStage::Completed => String::from_str("Completed"),
            DmaStage::Failed(r) => {
                let mut s = String::from_str("Failed(");
                let q = debug_text(r.as_str());
                s.append(q.as_str());
                s.append(")");
                s
            },
        }
    }
}

// ─── Transfers ─────────────────────────────────────────────────────────────────

/// A staged transfer in the pipeline.
#[derive(Debug, Clone)]
pub struct DmaTransfer {
    /// Unique transfer id.
    pub id: u64,
    /// Current stage of the transfer.
    pub stage: DmaStage,
    /// The original submission for this transfer.
    pub submission: TransferSubmission,
    /// When this transfer was submitted.
    pub submitted_at: std::time::Instant,
}

/// The transfer `t` moved to stage `s`, everything else unchanged.
pub open spec fn with_stage(t: DmaTransfer, s: DmaStage) -> DmaTransfer {
    DmaTransfer { id: t.id, stage: s, submission: t.submission, submitted_at: t.submitted_at }
}

// ─── Spec of the transfer table ────────────────────────────────────────────────

/// Whether the table holds a transfer under key `id`.
pub open spec fn has_id(s: Seq<(u64, DmaTransfer)>, id: u64) -> bool {
    exists|i: int| 0 <= i < s.len() && (#[trigger] s[i]).0 == id
}

/// The position of key `id` in the table.
pub open spec fn pos_of(s: Seq<(u64, DmaTransfer)>, id: u64) -> int {
    choose|i: int| 0 <= i < s.len() && (#[trigger] s[i]).0 == id
}

/// Keys strictly increasing, all below `bound`.
pub open spec fn keys_sorted_below(s: Seq<(u64, DmaTransfer)>, bound: u64) -> bool {
    &&& forall|i: int, j: int| 0 <= i < j < s.len() ==> (#[trigger] s[i]).0 < (#[trigger] s[j]).0
    &&& forall|i: int| 0 <= i < s.len() ==> (#[trigger] s[i]).0 < bound
}

/// The entries whose transfer has not reached a terminal stage, in order.
pub open spec fn live_part(s: Seq<(u64, DmaTransfer)>) -> Seq<(u64, DmaTransfer)>
    decreases s.len(),
{
    if s.len() == 0 {
        Seq::empty()
    } else if stage_terminal(s.last().1.stage) {
        live_part(s.drop_last())
    } else {
        live_part(s.drop_last()).push(s.last())
    }
}

/// The transfers that have reached a terminal stage, in key order.
pub open spec fn terminal_part(s: Seq<(u64, DmaTransfer)>) -> Seq<DmaTransfer>
    decreases s.len(),
{
    if s.len() == 0 {
        Seq::empty()
    } else if stage_terminal(s.last().1.stage) {
        terminal_part(s.drop_last()).push(s.last().1)
    } else {
        terminal_part(s.drop_last())
    }
}

/// The queue-dequeue events for the transfers that have reached a terminal
/// stage, in key order.
pub open spec fn dequeue_events(s: Seq<(u64, DmaTransfer)>) -> Seq<Event>
    decreases s.len(),
{
    if s.len() == 0 {
        Seq::empty()
    } else if stage_terminal(s.last().1.stage) {
        dequeue_events(s.drop_last()).push(Event::QueueDequeue { sequence_id: 0, task_id: s.last().0 })
    } else {
        dequeue_events(s.drop_last())
    }
}

/// How many entries are in a stage equal to `st`.
pub open spec fn count_stage(s: Seq<(u64, DmaTransfer)>, st: DmaStage) -> nat
    decreases s.len(),
{
    if s.len() == 0 {
        0
    } else if same_stage(s.last().1.stage, st) {
        count_stage(s.drop_last(), st) + 1
    } else {
        count_stage(s.drop_last(), st)
    }
}

/// The label whose blake3 digest names the chunk reported for transfer `id`:
/// the bytes of `"dma-"` followed by the decimal digits of `id`.
pub open spec fn dma_label(id: u64) -> Seq<u8> {
    seq![100u8, 109u8, 97u8, 45u8] + decimal_bytes(id as nat)
}

/// The message of the error for an unknown transfer id.
pub open spec fn not_found_msg(id: u64) -> Seq<char> {
    "DMA transfer "@ + decimal_digits(id as nat) + " not found"@
}

/// The message of the error for a transfer that is not in the stage named
/// `expected`.
pub open spec fn wrong_stage_msg(id: u64, expected: Seq<char>, current: DmaStage) -> Seq<char> {
    "DMA transfer "@ + decimal_digits(id as nat) + " is not in "@ + expected + " stage (current: "@
        + stage_debug(current) + ")"@
}

/// Live entries are a sub-sequence of the table, so they stay sorted and
/// below the same bound.
proof fn lemma_live_part_sorted(s: Seq<(u64, DmaTransfer)>, bound: u64)
    requires
        keys_sorted_below(s, bound),
    ensures
        keys_sorted_below(live_part(s), bound),
        forall|i: int|
            0 <= i < live_part(s).len() ==> has_id(s, (#[trigger] live_part(s)[i]).0),
    decreases s.len(),
{
    if s.len() > 0 {
        let p = s.drop_last();
        assert(keys_sorted_below(p, bound)) by {
            assert forall|i: int, j: int| 0 <= i < j < p.len() implies (#[trigger] p[i]).0 < (
            #[trigger] p[j]).0 by {
                assert(p[i] == s[i] && p[j] == s[j]);
            }
            assert forall|i: int| 0 <= i < p.len() implies (#[trigger] p[i]).0 < bound by {
                assert(p[i] == s[i]);
            }
        }
        lemma_live_part_sorted(p, bound);
        let lp = live_part(p);
        assert forall|i: int| 0 <= i < lp.len() implies (#[trigger] lp[i]).0 < s.last().0 by {
            let k = choose|k: int| 0 <= k < p.len() && (#[trigger] p[k]).0 == lp[i].0;
            assert(p[k] == s[k]);
        }
        assert forall|i: int| 0 <= i < lp.len() implies has_id(s, (#[trigger] lp[i]).0) by {
            let k = choose|k: int| 0 <= k < p.len() && (#[trigger] p[k]).0 == lp[i].0;
            assert(p[k] == s[k]);
        }
        if !stage_terminal(s.last().1.stage) {
            let q = lp.push(s.last());
            assert(q[q.len() - 1] == s[s.len() - 1]);
            assert forall|i: int| 0 <= i < q.len() implies has_id(s, (#[trigger] q[i]).0) by {
                if i < lp.len() {
                    assert(q[i] == lp[i]);
                } else {
                    assert(s[s.len() - 1].0 == q[i].0);
                }
            }
            assert forall|i: int, j: int| 0 <= i < j < q.len() implies (#[trigger] q[i]).0 < (
            #[trigger] q[j]).0 by {
                if j < lp.len() {
                    assert(q[i] == lp[i] && q[j] == lp[j]);
                } else {
                    assert(q[i] == lp[i]);
                }
            }
        }
    }
}

/// Polling splits the table without loss: every tracked transfer is either
/// returned (terminal) or kept (not terminal), and nothing else.
pub proof fn lemma_poll_partition(s: Seq<(u64, DmaTransfer)>)
    ensures
        terminal_part(s).len() + live_part(s).len() == s.len(),
        forall|i: int| 0 <= i < terminal_part(s).len() ==> stage_terminal(
            (#[trigger] terminal_part(s)[i]).stage,
        ),
        forall|i: int| 0 <= i < live_part(s).len() ==> !stage_terminal(
            (#[trigger] live_part(s)[i]).1.stage,
        ),
    decreases s.len(),
{
    if s.len() > 0 {
        lemma_poll_partition(s.drop_last());
        let tp = terminal_part(s.drop_last());
        let lp = live_part(s.drop_last());
        if stage_terminal(s.last().1.stage) {
            assert forall|i: int| 0 <= i < terminal_part(s).len() implies stage_terminal(
                (#[trigger] terminal_part(s)[i]).stage,
            ) by {
                if i < tp.len() {
                    assert(terminal_part(s)[i] == tp[i]);
                }
            }
        } else {
            assert forall|i: int| 0 <= i < live_part(s).len() implies !stage_terminal(
                (#[trigger] live_part(s)[i]).1.stage,
            ) by {
                if i < lp.len() {
                    assert(live_part(s)[i] == lp[i]);
                }
            }
        }
    }
}

// ─── The pipeline ──────────────────────────────────────────────────────────────

/// DMA transfer pipeline (backend-neutral). Transfers are tracked by id, in
/// increasing id order; stage changes are reported through the emitter.
pub struct DmaPipeline {
    transfers: Vec<(u64, DmaTransfer)>,
    next_id: u64,
    event_emitter: EventEmitter,
    reported: Ghost<Seq<Event>>,
}

impl DmaPipeline {
    /// The tracked transfers, keyed by id, in increasing id order.
    pub closed spec fn entries(&self) -> Seq<(u64, DmaTransfer)> {
        self.transfers@
    }

    /// The id the next submission will receive.
    pub closed spec fn next_id(&self) -> u64 {
        self.next_id
    }

    /// Every event handed to the emitter so far, in the order it was handed
    /// over (before the emitter stamps its sequence id).
    pub closed spec fn reported_events(&self) -> Seq<Event> {
        self.reported@
    }

    /// Well-formedness: ids strictly increasing and all below the next id.
    pub open spec fn wf(&self) -> bool {
        keys_sorted_below(self.entries(), self.next_id())
    }

    /// An empty pipeline reporting to `event_emitter`; ids start at 1.
    pub fn new(event_emitter: EventEmitter) -> (p: DmaPipeline)
        ensures
            p.wf(),
            p.entries().len() == 0,
            p.next_id() == 1,
            p.reported_events().len() == 0,
    {
        DmaPipeline { transfers: Vec::new(), next_id: 1, event_emitter, reported: Ghost(Seq::empty()) }
    }

    /// Hand `event` to the emitter, which stamps it and queues it without
    /// waiting; a full or closed channel drops it.
    fn report(&mut self, event: Event)
        ensures
            final(self).reported_events() == old(self).reported_events().push(event),
            final(self).entries() == old(self).entries(),
            final(self).next_id() == old(self).next_id(),
    {
        let ghost e = event;
        let _ = self.event_emitter.try_emit(event);
        proof {
            self.reported@ = self.reported@.push(e);
        }
    }

    /// Submit a transfer: it is tracked in the `Pending` stage under the next
    /// id, which is returned. A queue-enqueue event is reported.
    pub fn submit(&mut self, submission: TransferSubmission) -> (id: u64)
        requires
            old(self).wf(),
            old(self).next_id() < u64::MAX,
        ensures
            final(self).wf(),
            id == old(self).next_id(),
            final(self).next_id() == old(self).next_id() + 1,
            final(self).entries().len() == old(self).entries().len() + 1,
            final(self).entries().subrange(0, old(self).entries().len() as int)
                == old(self).entries(),
            final(self).entries().last().0 == id,
            final(self).entries().last().1.id == id,
            final(self).entries().last().1.stage is Pending,
            final(self).entries().last().1.submission == submission,
            final(self).reported_events() == old(self).reported_events().push(
                (Event::QueueEnqueue { sequence_id: 0, task_id: id }),
            ),
    {
        let id = self.next_id;
        self.next_id = self.next_id + 1;
        let transfer = DmaTransfer {
            id,
            stage: DmaStage::Pending,
            submission,
            submitted_at: instant_now(),
        };
        let ghost s = self.transfers@;
        self.transfers.push((id, transfer));
        proof {
            assert(self.transfers@.subrange(0, s.len() as int) =~= s);
            let t = self.transfers@;
            assert forall|i: int, j: int| 0 <= i < j < t.len() implies (#[trigger] t[i]).0 < (
            #[trigger] t[j]).0 by {
                if j < s.len() {
                    assert(t[i] == s[i] && t[j] == s[j]);
                } else {
                    assert(t[i] == s[i]);
                }
            }
            assert forall|i: int| 0 <= i < t.len() implies (#[trigger] t[i]).0 < self.next_id by {
                if i < s.len() {
                    assert(t[i] == s[i]);
                }
            }
        }
        self.report(Event::QueueEnqueue { sequence_id: 0, task_id: id });
        id
    }

    /// Remove and return every transfer that has reached a terminal stage, in
    /// id order; the others stay. A queue-dequeue event is reported for each.
    pub fn poll(&mut self) -> (done: Vec<DmaTransfer>)
        requires
            old(self).wf(),
        ensures
            final(self).wf(),
            done@ == terminal_part(old(self).entries()),
            final(self).entries() == live_part(old(self).entries()),
            final(self).next_id() == old(self).next_id(),
            final(self).reported_events() == old(self).reported_events() + dequeue_events(
                old(self).entries(),
            ),
    {
        let ghost orig = self.transfers@;
        let ghost r0 = self.reported@;
        let mut rest: Vec<(u64, DmaTransfer)> = Vec::new();
        std::mem::swap(&mut rest, &mut self.transfers);
        let mut kept: Vec<(u64, DmaTransfer)> = Vec::new();
        let mut done: Vec<DmaTransfer> = Vec::new();
        let ghost mut k: int = 0;
        while rest.len() > 0
            invariant
                0 <= k <= orig.len(),
                rest@ == orig.subrange(k, orig.len() as int),
                kept@ == live_part(orig.subrange(0, k)),
                done@ == terminal_part(orig.subrange(0, k)),
                self.reported@ == r0 + dequeue_events(orig.subrange(0, k)),
                self.transfers@.len() == 0,
                self.next_id == old(self).next_id,
            decreases rest.len(),
        {
            let entry = rest.remove(0);
            proof {
                assert(entry == orig[k]);
                assert(orig.subrange(0, k + 1).drop_last() =~= orig.subrange(0, k));
                assert(orig.subrange(0, k + 1).last() == orig[k]);
                k = k + 1;
                assert(rest@ =~= orig.subrange(k, orig.len() as int));
            }
            if entry.1.stage.is_terminal() {
                let id = entry.0;
                self.report(Event::QueueDequeue { sequence_id: 0, task_id: id });
                proof {
                    assert(r0 + dequeue_events(orig.subrange(0, k)) =~= (r0 + dequeue_events(
                        orig.subrange(0, k - 1),
                    )).push(Event::QueueDequeue { sequence_id: 0, task_id: id }));
                }
                done.push(entry.1);
            } else {
                kept.push(entry);
            }
        }
        proof {
            assert(orig.subrange(0, orig.len() as int) =~= orig);
            lemma_live_part_sorted(orig, self.next_id);
        }
        self.transfers = kept;
        done
    }

    /// Position of `id` among the entries, if tracked.
    fn find(&self, id: u64) -> (r: Option<usize>)
        requires
            self.wf(),
        ensures
            r is None <==> !has_id(self.entries(), id),
            r matches Some(i) ==> i < self.entries().len() && self.entries()[i as int].0 == id
                && pos_of(self.entries(), id) == i,
    {
        let n = self.transfers.len();
        let mut i: usize = 0;
        while i < n
            invariant
                n == self.entries().len(),
                self.wf(),
                0 <= i <= n,
                forall|j: int| 0 <= j < i ==> (#[trigger] self.entries()[j]).0 != id,
            decreases n - i,
        {
            if self.transfers[i].0 == id {
                proof {
                    let s = self.entries();
                    let p = pos_of(s, id);
                    assert(s[i as int].0 == id);
                    if p != i {
                        if p < i {
                            assert(s[p].0 < s[i as int].0);
                        } else {
                            assert(s[i as int].0 < s[p].0);
                        }
                    }
                }
                return Some(i);
            }
            i = i + 1;
        }
        None
    }

    /// The transfer tracked under `id`, if any.
    pub fn get(&self, id: u64) -> (r: Option<&DmaTransfer>)
        requires
            self.wf(),
        ensures
            has_id(self.entries(), id) ==> r == Some(&self.entries()[pos_of(self.entries(), id)].1),
            !has_id(self.entries(), id) ==> r is None,
    {
        match self.find(id) {
            Some(i) => Some(&self.transfers[i].1),
            None => None,
        }
    }

    /// The transfer tracked under `id`, if any, for in-place change. The id
    /// it is tracked under cannot change through the returned reference.
    pub fn get_mut(&mut self, id: u64) -> (r: Option<&mut DmaTransfer>)
        requires
            old(self).wf(),
        ensures
            !has_id(old(self).entries(), id) ==> r is None && final(self).entries() == old(self).entries(),
            has_id(old(self).entries(), id) ==> (r matches Some(t) && *t
                == old(self).entries()[pos_of(old(self).entries(), id)].1 && final(self).entries()
                == old(self).entries().update(pos_of(old(self).entries(), id), (id, *final(t)))),
            final(self).next_id() == old(self).next_id(),
    {
        match self.find(id) {
            Some(i) => {
                let entry = &mut self.transfers[i];
                Some(&mut entry.1)
            },
            None => None,
        }
    }

    /// The position of `id`, or the not-found error.
    fn locate(&self, id: u64) -> (r: Result<usize, GhostError>)
        requires
            self.wf(),
        ensures
            !has_id(self.entries(), id) ==> (r matches Err(GhostError::Internal(m)) && m@
                == not_found_msg(id)),
            has_id(self.entries(), id) ==> (r matches Ok(i) && i == pos_of(self.entries(), id)
                && i < self.entries().len() && self.entries()[i as int].0 == id),
    {
        match self.find(id) {
            None => {
                let mut v = String::from_str("DMA transfer ");
                let digits = decimal_text(id);
                v.append(digits.as_str());
                v.append(" not found");
                Err(GhostError::Internal(v))
            },
            Some(i) => Ok(i),
        }
    }

    /// Move the entry at `i` to stage `next`.
    fn set_stage(&mut self, i: usize, next: DmaStage)
        requires
            old(self).wf(),
            i < old(self).entries().len(),
        ensures
            final(self).wf(),
            final(self).next_id() == old(self).next_id(),
            final(self).entries() == old(self).entries().update(
                i as int,
                (old(self).entries()[i as int].0, with_stage(old(self).entries()[i as int].1, next)),
            ),
            final(self).reported_events() == old(self).reported_events(),
    {
        let ghost s = self.transfers@;
        let entry = &mut self.transfers[i];
        entry.1.stage = next;
        proof {
            let t = self.transfers@;
            assert forall|a: int, b: int| 0 <= a < b < t.len() implies (#[trigger] t[a]).0 < (
            #[trigger] t[b]).0 by {
                assert(t[a].0 == s[a].0 && t[b].0 == s[b].0);
            }
            assert forall|a: int| 0 <= a < t.len() implies (#[trigger] t[a]).0 < self.next_id by {
                assert(t[a].0 == s[a].0);
            }
        }
    }

    /// Mark a transfer as submitted (Pending → Submitted). An unknown id, or a
    /// transfer in another stage, is refused with an `Internal` error and
    /// nothing changes.
    pub fn mark_submitted(&mut self, id: u64) -> (r: Result<(), GhostError>)
        requires
            old(self).wf(),
        ensures
            final(self).wf(),
            final(self).next_id() == old(self).next_id(),
            ({
                let s = old(self).entries();
                let i = pos_of(s, id);
                &&& !has_id(s, id) ==> (r matches Err(GhostError::Internal(m)) && m@
                    == not_found_msg(id) && final(self).entries() == s)
                &&& has_id(s, id) && !(s[i].1.stage is Pending) ==> (r matches Err(
                    GhostError::Internal(m),
                ) && m@ == wrong_stage_msg(id, "Pending"@, s[i].1.stage) && final(self).entries()
                    == s)
                &&& has_id(s, id) && s[i].1.stage is Pending ==> (r is Ok && final(self).entries()
                    == s.update(i, (id, with_stage(s[i].1, DmaStage::Submitted))))
            }),
            final(self).reported_events() == old(self).reported_events(),
    {
        let i = match self.locate(id) {
            Ok(i) => i,
            Err(e) => {
                return Err(e);
            },
        };
        match &self.transfers[i].1.stage {
            DmaStage::Pending => {},
            other => {
                let msg = wrong_stage_message(id, "Pending", other);
                return Err(GhostError::Internal(msg));
            },
        }
        self.set_stage(i, DmaStage::Submitted);
        Ok(())
    }

    /// Mark a transfer as in progress (Submitted → InProgress). An unknown id,
    /// or a transfer in another stage, is refused with an `Internal` error and
    /// nothing changes.
    pub fn mark_in_progress(&mut self, id: u64) -> (r: Result<(), GhostError>)
        requires
            old(self).wf(),
        ensures
            final(self).wf(),
            final(self).next_id() == old(self).next_id(),
            ({
                let s = old(self).entries();
                let i = pos_of(s, id);
                &&& !has_id(s, id) ==> (r matches Err(GhostError::Internal(m)) && m@
                    == not_found_msg(id) && final(self).entries() == s)
                &&& has_id(s, id) && !(s[i].1.stage is Submitted) ==> (r matches Err(
                    GhostError::Internal(m),
                ) && m@ == wrong_stage_msg(id, "Submitted"@, s[i].1.stage) && final(self).entries() == s)
                &&& has_id(s, id) && s[i].1.stage is Submitted ==> (r is Ok && final(self).entries() == s.update(i, (id, with_stage(s[i].1, DmaStage::InProgress))))
            }),
            final(self).reported_events() == old(self).reported_events(),
    {
        let i = match self.locate(id) {
            Ok(i) => i,
            Err(e) => {
                return Err(e);
            },
        };
        match &self.transfers[i].1.stage {
            DmaStage::Submitted => {},
            other => {
                let msg = wrong_stage_message(id, "Submitted", other);
                return Err(GhostError::Internal(msg));
            },
        }
        self.set_stage(i, DmaStage::InProgress);
        Ok(())
    }

    /// Mark an active transfer as completed. An unknown id, or a transfer that
    /// is not active, is refused with an `Internal` error and nothing changes.
    /// On success a transfer-completed event is reported for the chunk named
    /// by the digest of `dma_label(id)`.
    pub fn mark_completed(&mut self, id: u64) -> (r: Result<(), GhostError>)
        requires
            old(self).wf(),
        ensures
            final(self).wf(),
            final(self).next_id() == old(self).next_id(),
            ({
                let s = old(self).entries();
                let i = pos_of(s, id);
                &&& !has_id(s, id) ==> (r matches Err(GhostError::Internal(m)) && m@
                    == not_found_msg(id) && final(self).entries() == s)
                &&& has_id(s, id) && !stage_active(s[i].1.stage) ==> (r matches Err(
                    GhostError::Internal(m),
                ) && m@ == wrong_stage_msg(id, "an active"@, s[i].1.stage) && final(self).entries() == s)
                &&& has_id(s, id) && stage_active(s[i].1.stage) ==> (r is Ok && final(self).entries() == s.update(i, (id, with_stage(s[i].1, DmaStage::Completed))))
                &&& !(has_id(s, id) && stage_active(s[i].1.stage)) ==> final(self).reported_events()
                    == old(self).reported_events()
                &&& has_id(s, id) && stage_active(s[i].1.stage) ==> {
                    let r1 = final(self).reported_events();
                    &&& r1.drop_last() == old(self).reported_events()
                    &&& r1.len() == old(self).reported_events().len() + 1
                    &&& r1.last() matches Event::TransferCompleted { sequence_id, chunk_id, from, to, .. }
                        && sequence_id == 0 && chunk_id.0@ == blake3_digest(dma_label(id)) && from
                        == TierId::Ram && to == TierId::GpuVram
                }
            }),
    {
        let i = match self.locate(id) {
            Ok(i) => i,
            Err(e) => {
                return Err(e);
            },
        };
        if !self.transfers[i].1.stage.is_active() {
            let msg = wrong_stage_message(id, "an active", &self.transfers[i].1.stage);
            return Err(GhostError::Internal(msg));
        }
        let elapsed = instant_elapsed(&self.transfers[i].1.submitted_at);
        let millis = duration_as_millis(&elapsed);
        self.set_stage(i, DmaStage::Completed);
        let chunk_id = dma_chunk_id(id);
        self.report(
            Event::TransferCompleted {
                sequence_id: 0,
                chunk_id,
                from: TierId::Ram,
                to: TierId::GpuVram,
                duration_ms: truncate_millis(millis),
            },
        );
        Ok(())
    }

    /// Mark an active transfer as failed with `reason`. An unknown id, or a
    /// transfer that is not active, is refused with an `Internal` error and
    /// nothing changes. On success a transfer-failed event carrying `reason` is
    /// reported for the chunk named by the digest of `dma_label(id)`.
    pub fn mark_failed(&mut self, id: u64, reason: &str) -> (r: Result<(), GhostError>)
        requires
            old(self).wf(),
        ensures
            final(self).wf(),
            final(self).next_id() == old(self).next_id(),
            ({
                let s = old(self).entries();
                let i = pos_of(s, id);
                &&& !has_id(s, id) ==> (r matches Err(GhostError::Internal(m)) && m@
                    == not_found_msg(id) && final(self).entries() == s)
                &&& has_id(s, id) && !stage_active(s[i].1.stage) ==> (r matches Err(
                    GhostError::Internal(m),
                ) && m@ == wrong_stage_msg(id, "an active"@, s[i].1.stage) && final(self).entries() == s)
                &&& has_id(s, id) && stage_active(s[i].1.stage) ==> {
                    let f = final(self).entries();
                    &&& r is Ok
                    &&& f.len() == s.len()
                    &&& forall|j: int| 0 <= j < s.len() && j != i ==> f[j] == s[j]
                    &&& f[i].0 == id
                    &&& f[i].1 == with_stage(s[i].1, f[i].1.stage)
                    &&& (f[i].1.stage matches DmaStage::Failed(t) && t@ == reason@)
                    &&& final(self).reported_events().drop_last() == old(self).reported_events()
                    &&& final(self).reported_events().len() == old(self).reported_events().len() + 1
                    &&& final(self).reported_events().last() matches Event::TransferFailed {
                        sequence_id,
                        chunk_id,
                        from,
                        to,
                        reason: why,
                    } && sequence_id == 0 && chunk_id.0@ == blake3_digest(dma_label(id)) && from
                        == TierId::Ram && to == TierId::GpuVram && why@ == reason@
                }
                &&& !(has_id(s, id) && stage_active(s[i].1.stage)) ==> final(self).reported_events()
                    == old(self).reported_events()
            }),
    {
        let i = match self.locate(id) {
            Ok(i) => i,
            Err(e) => {
                return Err(e);
            },
        };
        if !self.transfers[i].1.stage.is_active() {
            let msg = wrong_stage_message(id, "an active", &self.transfers[i].1.stage);
            return Err(GhostError::Internal(msg));
        }
        let kept = String::from_str(reason);
        self.set_stage(i, DmaStage::Failed(kept));
        let chunk_id = dma_chunk_id(id);
        self.report(
            Event::TransferFailed {
                sequence_id: 0,
                chunk_id,
                from: TierId::Ram,
                to: TierId::GpuVram,
                reason: String::from_str(reason),
            },
        );
        Ok(())
    }

    /// The number of tracked transfers.
    pub fn len(&self) -> (n: usize)
        ensures
            n == self.entries().len(),
    {
        self.transfers.len()
    }

    /// Whether no transfer is tracked.
    pub fn is_empty(&self) -> (r: bool)
        ensures
            r == (self.entries().len() == 0),
    {
        self.transfers.len() == 0
    }

    /// The number of tracked transfers in a stage equal to `stage`.
    pub fn count_in_stage(&self, stage: DmaStage) -> (n: usize)
        ensures
            n == count_stage(self.entries(), stage),
    {
        let n = self.transfers.len();
        let mut count: usize = 0;
        let mut i: usize = 0;
        while i < n
            invariant
                n == self.entries().len(),
                0 <= i <= n,
                count == count_stage(self.entries().subrange(0, i as int), stage),
                count <= i,
            decreases n - i,
        {
            proof {
                let s = self.entries();
                assert(s.subrange(0, i + 1).drop_last() =~= s.subrange(0, i as int));
                assert(s.subrange(0, i + 1).last() == s[i as int]);
            }
            if self.transfers[i].1.stage == stage {
                count = count + 1;
            }
            i = i + 1;
        }
        proof {
            assert(self.entries().subrange(0, n as int) =~= self.entries());
        }
        count
    }

    /// Wait for `fence` to be signalled, up to `timeout`; the fence decides.
    pub fn wait_fence(fence: &dyn TransferFence, timeout: std::time::Duration) -> Result<(), GhostError> {
        fence.wait(timeout)
    }
}

/// The error message for a transfer of id `id` found in stage `current` where
/// the stage named `expected` was required.
fn wrong_stage_message(id: u64, expected: &str, current: &DmaStage) -> (m: String)
    ensures
        m@ == wrong_stage_msg(id, expected@, *current),
{
    let mut v = String::from_str("DMA transfer ");
    let digits = decimal_text(id);
    v.append(digits.as_str());
    v.append(" is not in ");
    v.append(expected);
    v.append(" stage (current: ");
    let shown = current.debug_string();
    v.append(shown.as_str());
    v.append(")");
    v
}

/// The chunk reported for DMA transfer `id`: the identifier of the bytes
/// `"dma-"` followed by the decimal digits of `id`.
pub fn dma_chunk_id(id: u64) -> (c: ChunkId)
    ensures
        c.0@ == blake3_digest(dma_label(id)),
{
    let mut label: Vec<u8> = Vec::new();
    label.push(100u8);
    label.push(109u8);
    label.push(97u8);
    label.push(45u8);
    append_decimal_bytes(&mut label, id);
    assert(label@ =~= dma_label(id));
    ChunkId::from_data(label.as_slice())
}

/// A millisecond count truncated to 64 bits.
fn truncate_millis(ms: u128) -> (r: u64)
    ensures
        r == ms as u64,
{
    ms as u64
}

} // verus!
