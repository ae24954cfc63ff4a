//! Chunk lifecycle state machine, the per-chunk state tracker, and the
//! pressure record carried by events.
use vstd::prelude::*;

use crate::error::{join3, text, GhostError, GhostResult};
use crate::types::{compare_ids, hex_lower, id_lt, lemma_id_order, ChunkId, KeyOrder};

verus! {

// ─── Chunk State Machine ─────────────────────────────────────────────────────

/// Lifecycle state of a chunk in the system.
#[derive(Debug, Clone, Copy, PartialEq, Eq, Structural, Hash)]
pub enum ChunkState {
    /// Reserved but no data yet written.
    Allocated,
    /// Data lives in a tier and is readable.
    Stored,
    /// Hot copy in a fast tier (cached for performance).
    Cached,
    /// Actively moving between tiers.
    Migrating,
    /// Removed from all tiers.
    Evicted,
    /// Error state — recoverable via retry.
    Failed,
}

/// The transitions that the chunk lifecycle allows.
pub open spec fn valid_transition(from: ChunkState, to: ChunkState) -> bool {
    match (from, to) {
        (ChunkState::Allocated, ChunkState::Stored) => true,
        (ChunkState::Stored, ChunkState::Cached) => true,
        (ChunkState::Stored, ChunkState::Migrating) => true,
        (ChunkState::Cached, ChunkState::Migrating) => true,
        (ChunkState::Cached, ChunkState::Stored) => true,
        (ChunkState::Migrating, ChunkState::Stored) => true,
        (ChunkState::Migrating, ChunkState::Failed) => true,
        (ChunkState::Migrating, ChunkState::Evicted) => true,
        (ChunkState::Failed, ChunkState::Stored) => true,
        (ChunkState::Failed, ChunkState::Evicted) => true,
        (ChunkState::Stored, ChunkState::Evicted) => true,
        _ => false,
    }
}

/// The lower-case display name of a state.
pub open spec fn chunk_state_name(s: ChunkState) -> Seq<char> {
    match s {
        ChunkState::Allocated => "allocated"@,
        ChunkState::Stored => "stored"@,
        ChunkState::Cached => "cached"@,
        ChunkState::Migrating => "migrating"@,
        ChunkState::Evicted => "evicted"@,
        ChunkState::Failed => "failed"@,
    }
}

/// The variant name of a state, as `Debug` shows it.
pub open spec fn chunk_state_debug_name(s: ChunkState) -> Seq<char> {
    match s {
        ChunkState::Allocated => "Allocated"@,
        ChunkState::Stored => "Stored"@,
        ChunkState::Cached => "Cached"@,
        ChunkState::Migrating => "Migrating"@,
        ChunkState::Evicted => "Evicted"@,
        ChunkState::Failed => "Failed"@,
    }
}

impl ChunkState {
    /// Attempt to transition to `next`: the new state when the lifecycle allows
    /// the transition, otherwise an `InvalidStateTransition` error naming both
    /// states.
    pub fn transition_to(&self, next: ChunkState) -> (r: GhostResult<ChunkState>)
        ensures
            valid_transition(*self, next) ==> r == Ok::<ChunkState, GhostError>(next),
            !valid_transition(*self, next) ==> (r matches Err(
                GhostError::InvalidStateTransition { from, to },
            ) && from@ == chunk_state_debug_name(*self) && to@ == chunk_state_debug_name(next)),
    {
        if self.is_valid_transition(next) {
            Ok(next)
        } else {
            let from = text(self.debug_name());
            let to = text(next.debug_name());
            Err(GhostError::InvalidStateTransition { from, to })
        }
    }

    /// Whether the lifecycle allows a transition to `next`.
    pub fn is_valid_transition(&self, next: ChunkState) -> (r: bool)
        ensures
            r == valid_transition(*self, next),
    {
        match (*self, next) {
            (ChunkState::Allocated, ChunkState::Stored) => true,
            (ChunkState::Stored, ChunkState::Cached) => true,
            (ChunkState::Stored, ChunkState::Migrating) => true,
            (ChunkState::Cached, ChunkState::Migrating) => true,
            (ChunkState::Cached, ChunkState::Stored) => true,
            (ChunkState::Migrating, ChunkState::Stored) => true,
            (ChunkState::Migrating, ChunkState::Failed) => true,
            (ChunkState::Migrating, ChunkState::Evicted) => true,
            (ChunkState::Failed, ChunkState::Stored) => true,
            (ChunkState::Failed, ChunkState::Evicted) => true,
            (ChunkState::Stored, ChunkState::Evicted) => true,
            _ => false,
        }
    }

    /// Whether this is the terminal state.
    pub fn is_terminal(&self) -> (r: bool)
        ensures
            r == (*self == ChunkState::Evicted),
    {
        match self {
            ChunkState::Evicted => true,
            _ => false,
        }
    }

    /// Whether the chunk is available for reads in this state.
    pub fn is_readable(&self) -> (r: bool)
        ensures
            r == (*self == ChunkState::Stored || *self == ChunkState::Cached),
    {
        match self {
            ChunkState::Stored | ChunkState::Cached => true,
            _ => false,
        }
    }

    /// Whether the chunk is being migrated.
    pub fn is_migrating(&self) -> (r: bool)
        ensures
            r == (*self == ChunkState::Migrating),
    {
        match self {
            ChunkState::Migrating => true,
            _ => false,
        }
    }

    /// The lower-case display name of this state.
    pub fn as_str(&self) -> (s: &'static str)
        ensures
            s@ == chunk_state_name(*self),
    {
        match self {
            ChunkState::Allocated => "allocated",
            ChunkState::Stored => "stored",
            ChunkState::Cached => "cached",
            ChunkState::Migrating => "migrating",
            ChunkState::Evicted => "evicted",
            ChunkState::Failed => "failed",
        }
    }

    /// The variant name of this state.
    pub fn debug_name(&self) -> (s: &'static str)
        ensures
            s@ == chunk_state_debug_name(*self),
    {
        match self {
            ChunkState::Allocated => "Allocated",
            ChunkState::Stored => "Stored",
            ChunkState::Cached => "Cached",
            ChunkState::Migrating => "Migrating",
            ChunkState::Evicted => "Evicted",
            ChunkState::Failed => "Failed",
        }
    }
}

/// The terminal state has no way out, and no state may transition to itself or
/// back to `Allocated`.
pub proof fn lemma_lifecycle_shape(from: ChunkState, to: ChunkState)
    ensures
        from == ChunkState::Evicted ==> !valid_transition(from, to),
        to == ChunkState::Allocated ==> !valid_transition(from, to),
        !valid_transition(from, from),
{
}

// ─── State Machine Tracker ───────────────────────────────────────────────────

/// Entries sorted strictly by identifier (so each identifier occurs once).
pub open spec fn sorted_entries(s: Seq<(ChunkId, ChunkState)>) -> bool {
    forall|i: int, j: int| 0 <= i < j < s.len() ==> id_lt(#[trigger] s[i].0, #[trigger] s[j].0)
}

/// Some entry has identifier `k`.
pub open spec fn has_key(s: Seq<(ChunkId, ChunkState)>, k: ChunkId) -> bool {
    exists|i: int| 0 <= i < s.len() && (#[trigger] s[i]).0 == k
}

/// The index of an entry with identifier `k`.
pub open spec fn key_index(s: Seq<(ChunkId, ChunkState)>, k: ChunkId) -> int {
    choose|i: int| 0 <= i < s.len() && (#[trigger] s[i]).0 == k
}

/// The map from identifier to state that the entries describe.
pub open spec fn entries_map(s: Seq<(ChunkId, ChunkState)>) -> Map<ChunkId, ChunkState> {
    Map::new(|k: ChunkId| has_key(s, k), |k: ChunkId| s[key_index(s, k)].1)
}

/// The identifiers of the entries in state `st`, in entry order.
pub open spec fn ids_in_state(s: Seq<(ChunkId, ChunkState)>, st: ChunkState) -> Seq<ChunkId>
    decreases s.len(),
{
    if s.len() == 0 {
        Seq::empty()
    } else if s.last().1 == st {
        ids_in_state(s.drop_last(), st).push(s.last().0)
    } else {
        ids_in_state(s.drop_last(), st)
    }
}

proof fn lemma_sorted_unique(s: Seq<(ChunkId, ChunkState)>, i: int, j: int)
    requires
        sorted_entries(s),
        0 <= i < s.len(),
        0 <= j < s.len(),
        s[i].0 == s[j].0,
    ensures
        i == j,
{
    lemma_id_order(s[i].0, s[j].0, s[i].0);
    if i < j {
        assert(id_lt(s[i].0, s[j].0));
    } else if j < i {
        assert(id_lt(s[j].0, s[i].0));
    }
}

proof fn lemma_entries_map_at(s: Seq<(ChunkId, ChunkState)>, i: int)
    requires
        sorted_entries(s),
        0 <= i < s.len(),
    ensures
        entries_map(s).contains_key(s[i].0),
        entries_map(s)[s[i].0] == s[i].1,
{
    let k = s[i].0;
    assert(has_key(s, k));
    let j = key_index(s, k);
    lemma_sorted_unique(s, i, j);
}

/// The message refusing to register chunk `id` a second time.
pub open spec fn already_registered_msg(id: ChunkId) -> Seq<char> {
    "chunk "@ + hex_lower(id.0@.subrange(0, 8)) + " is already registered in the state machine"@
}

/// The message refusing to move chunk `id`, which is not registered.
pub open spec fn not_registered_msg(id: ChunkId) -> Seq<char> {
    "chunk "@ + hex_lower(id.0@.subrange(0, 8)) + " not found in state machine"@
}

/// Tracks the lifecycle state of every registered chunk and enforces valid
/// transitions. Entries are kept sorted by identifier.
#[derive(Debug, Clone)]
pub struct StateMachine {
    states: Vec<(ChunkId, ChunkState)>,
}

impl View for StateMachine {
    type V = Map<ChunkId, ChunkState>;

    open spec fn view(&self) -> Map<ChunkId, ChunkState> {
        entries_map(self.entries())
    }
}

impl StateMachine {
    /// The tracked entries, in increasing identifier order.
    pub closed spec fn entries(&self) -> Seq<(ChunkId, ChunkState)> {
        self.states@
    }

    /// Well-formedness: the entries are strictly sorted by identifier.
    pub open spec fn wf(&self) -> bool {
        sorted_entries(self.entries())
    }

    /// A new, empty state machine.
    pub fn new() -> (sm: StateMachine)
        ensures
            sm.wf(),
            sm.entries().len() == 0,
            sm@ == Map::<ChunkId, ChunkState>::empty(),
    {
        let sm = StateMachine { states: Vec::new() };
        assert(sm@ =~= Map::<ChunkId, ChunkState>::empty());
        sm
    }

    /// A new, empty state machine; the capacity hint is not used.
    pub fn with_capacity(_capacity: usize) -> (sm: StateMachine)
        ensures
            sm.wf(),
            sm.entries().len() == 0,
            sm@ == Map::<ChunkId, ChunkState>::empty(),
    {
        StateMachine::new()
    }

    /// Index of the first entry whose identifier is not below `id`, and whether
    /// that entry has identifier `id`.
    fn find_slot(&self, id: &ChunkId) -> (r: (usize, bool))
        requires
            self.wf(),
        ensures
            r.0 <= self.entries().len(),
            forall|i: int| 0 <= i < r.0 ==> id_lt(#[trigger] self.entries()[i].0, *id),
            r.1 ==> r.0 < self.entries().len() && self.entries()[r.0 as int].0 == *id,
            !r.1 ==> forall|i: int|
                r.0 <= i < self.entries().len() ==> id_lt(*id, #[trigger] self.entries()[i].0),
            r.1 == self@.contains_key(*id),
    {
        let n = self.states.len();
        let mut i: usize = 0;
        while i < n
            invariant
                n == self.entries().len(),
                self.wf(),
                0 <= i <= n,
                forall|j: int| 0 <= j < i ==> id_lt(#[trigger] self.entries()[j].0, *id),
            decreases n - i,
        {
            let key = self.states[i].0;
            match compare_ids(&key, id) {
                KeyOrder::Less => {
                    i = i + 1;
                },
                KeyOrder::Equal => {
                    proof {
                        assert(has_key(self.entries(), *id));
                    }
                    return (i, true);
                },
                KeyOrder::Greater => {
                    proof {
                        assert forall|j: int| i <= j < self.entries().len() implies id_lt(
                            *id,
                            #[trigger] self.entries()[j].0,
                        ) by {
                            if j > i {
                                lemma_id_order(*id, self.entries()[i as int].0, self.entries()[j].0);
                            }
                        }
                        assert forall|j: int| 0 <= j < self.entries().len() implies (
                        #[trigger] self.entries()[j]).0 != *id by {
                            lemma_id_order(*id, self.entries()[j].0, *id);
                        }
                    }
                    return (i, false);
                },
            }
        }
        proof {
            assert forall|j: int| 0 <= j < self.entries().len() implies (
            #[trigger] self.entries()[j]).0 != *id by {
                lemma_id_order(*id, self.entries()[j].0, *id);
            }
        }
        (n, false)
    }

    /// The current state of a chunk, if it is registered.
    pub fn get_state(&self, chunk_id: &ChunkId) -> (r: Option<ChunkState>)
        requires
            self.wf(),
        ensures
            r == (if self@.contains_key(*chunk_id) {
                Some(self@[*chunk_id])
            } else {
                None
            }),
    {
        let (i, found) = self.find_slot(chunk_id);
        if found {
            proof {
                lemma_entries_map_at(self.entries(), i as int);
            }
            Some(self.states[i].1)
        } else {
            None
        }
    }

    /// Register a new chunk in the `Allocated` state. A chunk that is already
    /// registered is refused with an `Internal` error and nothing changes.
    pub fn register(&mut self, chunk_id: ChunkId) -> (r: GhostResult<()>)
        requires
            old(self).wf(),
        ensures
            final(self).wf(),
            old(self)@.contains_key(chunk_id) ==> (r matches Err(GhostError::Internal(m)) && m@
                == already_registered_msg(chunk_id) && final(self)@ == old(self)@),
            !old(self)@.contains_key(chunk_id) ==> (r is Ok && final(self)@ == old(self)@.insert(
                chunk_id,
                ChunkState::Allocated,
            )),
            final(self).entries().len() == old(self).entries().len() + (if old(
                self,
            )@.contains_key(chunk_id) {
                0int
            } else {
                1int
            }),
    {
        let (p, found) = self.find_slot(&chunk_id);
        if found {
            let shown = chunk_id.display_string();
            let msg = join3("chunk ", shown.as_str(), " is already registered in the state machine");
            return Err(GhostError::Internal(msg));
        }
        let ghost s = self.entries();
        self.states.insert(p, (chunk_id, ChunkState::Allocated));
        let ghost t = self.entries();
        proof {
            assert(t =~= s.insert(p as int, (chunk_id, ChunkState::Allocated)));
            assert forall|i: int, j: int| 0 <= i < j < t.len() implies id_lt(
                #[trigger] t[i].0,
                #[trigger] t[j].0,
            ) by {
                if j < p {
                } else if i < p && j == p {
                } else if i < p && j > p {
                    assert(t[i] == s[i]);
                    assert(t[j] == s[j - 1]);
                    lemma_id_order(s[i].0, chunk_id, s[j - 1].0);
                } else if i == p {
                    assert(t[j] == s[j - 1]);
                } else {
                    assert(t[i] == s[i - 1]);
                    assert(t[j] == s[j - 1]);
                }
            }
            let m_old = entries_map(s);
            let m_new = entries_map(t);
            assert forall|k: ChunkId| #[trigger] m_new.contains_key(k) <==> m_old.insert(
                chunk_id,
                ChunkState::Allocated,
            ).contains_key(k) by {
                if has_key(t, k) {
                    let i = choose|i: int| 0 <= i < t.len() && (#[trigger] t[i]).0 == k;
                    if i < p {
                        assert(s[i] == t[i]);
                    } else if i > p {
                        assert(s[i - 1] == t[i]);
                    }
                }
                if has_key(s, k) {
                    let i = choose|i: int| 0 <= i < s.len() && (#[trigger] s[i]).0 == k;
                    if i < p {
                        assert(t[i] == s[i]);
                    } else {
                        assert(t[i + 1] == s[i]);
                    }
                }
                if k == chunk_id {
                    assert(t[p as int].0 == k);
                }
            }
            assert forall|k: ChunkId| #[trigger] m_new.contains_key(k) implies m_new[k]
                == m_old.insert(chunk_id, ChunkState::Allocated)[k] by {
                let i = choose|i: int| 0 <= i < t.len() && (#[trigger] t[i]).0 == k;
                lemma_entries_map_at(t, i);
                if i < p {
                    assert(s[i] == t[i]);
                    lemma_entries_map_at(s, i);
                } else if i > p {
                    assert(s[i - 1] == t[i]);
                    lemma_entries_map_at(s, i - 1);
                } else {
                    assert(t[i].0 == chunk_id);
                }
            }
            assert(m_new =~= m_old.insert(chunk_id, ChunkState::Allocated));
        }
        Ok(())
    }

    /// Move a registered chunk to `next`. An unregistered chunk gives an
    /// `Internal` error; a transition that the lifecycle does not allow gives
    /// an `InvalidStateTransition` error naming the current and the requested
    /// state; in both cases nothing changes.
    pub fn transition(&mut self, chunk_id: &ChunkId, next: ChunkState) -> (r: GhostResult<
        ChunkState,
    >)
        requires
            old(self).wf(),
        ensures
            final(self).wf(),
            !old(self)@.contains_key(*chunk_id) ==> (r matches Err(GhostError::Internal(m)) && m@
                == not_registered_msg(*chunk_id) && final(self)@ == old(self)@),
            old(self)@.contains_key(*chunk_id) && !valid_transition(
                old(self)@[*chunk_id],
                next,
            ) ==> (r matches Err(GhostError::InvalidStateTransition { from, to }) && from@
                == chunk_state_debug_name(old(self)@[*chunk_id]) && to@ == chunk_state_debug_name(
                next,
            ) && final(self)@ == old(self)@),
            old(self)@.contains_key(*chunk_id) && valid_transition(old(self)@[*chunk_id], next)
                ==> (r == Ok::<ChunkState, GhostError>(next) && final(self)@ == old(self)@.insert(
                *chunk_id,
                next,
            )),
            final(self).entries().len() == old(self).entries().len(),
    {
        let (i, found) = self.find_slot(chunk_id);
        if !found {
            let shown = chunk_id.display_string();
            let msg = join3("chunk ", shown.as_str(), " not found in state machine");
            return Err(GhostError::Internal(msg));
        }
        proof {
            lemma_entries_map_at(self.entries(), i as int);
        }
        let current = self.states[i].1;
        match current.transition_to(next) {
            Err(e) => {
                return Err(e);
            },
            Ok(_) => {},
        }
        let ghost s = self.entries();
        self.states.set(i, (*chunk_id, next));
        let ghost t = self.entries();
        proof {
            assert(t =~= s.update(i as int, (*chunk_id, next)));
            assert forall|a: int, b: int| 0 <= a < b < t.len() implies id_lt(
                #[trigger] t[a].0,
                #[trigger] t[b].0,
            ) by {
                assert(t[a].0 == s[a].0);
                assert(t[b].0 == s[b].0);
            }
            let m_old = entries_map(s);
            let m_new = entries_map(t);
            assert forall|k: ChunkId| #[trigger] m_new.contains_key(k) <==> m_old.contains_key(
                k,
            ) by {
                if has_key(t, k) {
                    let a = choose|a: int| 0 <= a < t.len() && (#[trigger] t[a]).0 == k;
                    assert(s[a].0 == k);
                }
                if has_key(s, k) {
                    let a = choose|a: int| 0 <= a < s.len() && (#[trigger] s[a]).0 == k;
                    assert(t[a].0 == k);
                }
            }
            assert forall|k: ChunkId| #[trigger] m_new.contains_key(k) implies m_new[k]
                == m_old.insert(*chunk_id, next)[k] by {
                let a = choose|a: int| 0 <= a < t.len() && (#[trigger] t[a]).0 == k;
                lemma_entries_map_at(t, a);
                if a != i {
                    assert(s[a] == t[a]);
                    lemma_entries_map_at(s, a);
                    if k == *chunk_id {
                        lemma_sorted_unique(t, a, i as int);
                    }
                }
            }
            assert(m_new =~= m_old.insert(*chunk_id, next));
        }
        Ok(next)
    }

    /// Remove a chunk entirely, returning its last state if it was registered.
    pub fn remove(&mut self, chunk_id: &ChunkId) -> (r: Option<ChunkState>)
        requires
            old(self).wf(),
        ensures
            final(self).wf(),
            r == (if old(self)@.contains_key(*chunk_id) {
                Some(old(self)@[*chunk_id])
            } else {
                None
            }),
            final(self)@ == old(self)@.remove(*chunk_id),
            final(self).entries().len() == old(self).entries().len() - (if old(
                self,
            )@.contains_key(*chunk_id) {
                1int
            } else {
                0int
            }),
    {
        let (i, found) = self.find_slot(chunk_id);
        if !found {
            proof {
                assert(self@ =~= self@.remove(*chunk_id));
            }
            return None;
        }
        proof {
            lemma_entries_map_at(self.entries(), i as int);
        }
        let ghost s = self.entries();
        let removed = self.states.remove(i);
        let ghost t = self.entries();
        proof {
            assert(t =~= s.remove(i as int));
            assert forall|a: int, b: int| 0 <= a < b < t.len() implies id_lt(
                #[trigger] t[a].0,
                #[trigger] t[b].0,
            ) by {
                let sa = if a < i { a } else { a + 1 };
                let sb = if b < i { b } else { b + 1 };
                assert(t[a] == s[sa]);
                assert(t[b] == s[sb]);
            }
            let m_old = entries_map(s);
            let m_new = entries_map(t);
            assert forall|k: ChunkId| #[trigger] m_new.contains_key(k) <==> m_old.remove(
                *chunk_id,
            ).contains_key(k) by {
                if has_key(t, k) {
                    let a = choose|a: int| 0 <= a < t.len() && (#[trigger] t[a]).0 == k;
                    let sa = if a < i { a } else { a + 1 };
                    assert(s[sa] == t[a]);
                    if k == *chunk_id {
                        lemma_sorted_unique(s, sa, i as int);
                    }
                }
                if has_key(s, k) && k != *chunk_id {
                    let a = choose|a: int| 0 <= a < s.len() && (#[trigger] s[a]).0 == k;
                    if a < i {
                        assert(t[a] == s[a]);
                    } else {
                        assert(a != i);
                        assert(t[a - 1] == s[a]);
                    }
                }
            }
            assert forall|k: ChunkId| #[trigger] m_new.contains_key(k) implies m_new[k]
                == m_old.remove(*chunk_id)[k] by {
                let a = choose|a: int| 0 <= a < t.len() && (#[trigger] t[a]).0 == k;
                lemma_entries_map_at(t, a);
                let sa = if a < i { a } else { a + 1 };
                assert(s[sa] == t[a]);
                lemma_entries_map_at(s, sa);
            }
            assert(m_new =~= m_old.remove(*chunk_id));
        }
        Some(removed.1)
    }

    /// The number of chunks being tracked.
    pub fn len(&self) -> (n: usize)
        requires
            self.wf(),
        ensures
            n == self.entries().len(),
            n == self@.dom().len(),
    {
        proof {
            self.lemma_dom_len();
        }
        self.states.len()
    }

    /// Whether no chunk is tracked.
    pub fn is_empty(&self) -> (r: bool)
        requires
            self.wf(),
        ensures
            r == (self.entries().len() == 0),
            r == (self@.dom().len() == 0),
    {
        proof {
            self.lemma_dom_len();
        }
        self.states.len() == 0
    }

    /// The identifiers of all chunks in `state`, in increasing identifier order.
    pub fn chunks_in_state(&self, state: ChunkState) -> (r: Vec<ChunkId>)
        requires
            self.wf(),
        ensures
            r@ == ids_in_state(self.entries(), state),
            forall|i: int, j: int| 0 <= i < j < r@.len() ==> id_lt(#[trigger] r@[i], #[trigger] r@[j]),
            forall|k: ChunkId| #[trigger] r@.contains(k) <==> (self@.contains_key(k) && self@[k]
                == state),
    {
        let n = self.states.len();
        let mut out: Vec<ChunkId> = Vec::new();
        let mut i: usize = 0;
        while i < n
            invariant
                n == self.entries().len(),
                0 <= i <= n,
                out@ == ids_in_state(self.entries().take(i as int), state),
            decreases n - i,
        {
            let entry = self.states[i];
            proof {
                assert(self.entries().take(i + 1).drop_last() =~= self.entries().take(i as int));
            }
            if entry.1 == state {
                out.push(entry.0);
            }
            i = i + 1;
        }
        proof {
            assert(self.entries().take(n as int) =~= self.entries());
            lemma_ids_in_state_sorted(self.entries(), state);
            assert forall|k: ChunkId| #[trigger] out@.contains(k) <==> (self@.contains_key(k)
                && self@[k] == state) by {
                lemma_ids_in_state_exact(*self, state, k);
            }
        }
        out
    }

    /// A copy of all entries, in increasing identifier order.
    pub fn snapshot(&self) -> (r: Vec<(ChunkId, ChunkState)>)
        requires
            self.wf(),
        ensures
            r@ == self.entries(),
            sorted_entries(r@),
            entries_map(r@) == self@,
    {
        let n = self.states.len();
        let mut out: Vec<(ChunkId, ChunkState)> = Vec::new();
        let mut i: usize = 0;
        while i < n
            invariant
                n == self.entries().len(),
                0 <= i <= n,
                out@ == self.entries().take(i as int),
            decreases n - i,
        {
            out.push(self.states[i]);
            assert(out@ =~= self.entries().take(i + 1));
            i = i + 1;
        }
        assert(out@ =~= self.entries());
        out
    }

    proof fn lemma_dom_len(&self)
        requires
            self.wf(),
        ensures
            self@.dom().len() == self.entries().len(),
            self@.dom().finite(),
    {
        let s = self.entries();
        let keys = s.map_values(|e: (ChunkId, ChunkState)| e.0);
        assert(keys.no_duplicates()) by {
            assert forall|i: int, j: int| 0 <= i < keys.len() && 0 <= j < keys.len() && i != j
                implies keys[i] != keys[j] by {
                if keys[i] == keys[j] {
                    lemma_sorted_unique(s, i, j);
                }
            }
        }
        assert(self@.dom() =~= keys.to_set()) by {
            assert forall|k: ChunkId| self@.dom().contains(k) implies keys.to_set().contains(k) by {
                let i = choose|i: int| 0 <= i < s.len() && (#[trigger] s[i]).0 == k;
                assert(keys[i] == k);
            }
            assert forall|k: ChunkId| keys.to_set().contains(k) implies self@.dom().contains(k) by {
                let i = choose|i: int| 0 <= i < keys.len() && keys[i] == k;
                assert(s[i].0 == k);
            }
        }
        keys.unique_seq_to_set();
    }
}

/// The identifiers that `chunks_in_state` lists are exactly the registered
/// chunks in that state.
pub proof fn lemma_ids_in_state_exact(sm: StateMachine, st: ChunkState, k: ChunkId)
    requires
        sm.wf(),
    ensures
        ids_in_state(sm.entries(), st).contains(k) <==> (sm@.contains_key(k) && sm@[k] == st),
{
    let s = sm.entries();
    lemma_ids_in_state_members(s, st, k);
    if ids_in_state(s, st).contains(k) {
        let i = choose|i: int| 0 <= i < s.len() && (#[trigger] s[i]).0 == k && s[i].1 == st;
        lemma_entries_map_at(s, i);
    }
    if has_key(s, k) {
        let i = choose|i: int| 0 <= i < s.len() && (#[trigger] s[i]).0 == k;
        lemma_entries_map_at(s, i);
        if sm@[k] == st {
            assert(s[i].0 == k && s[i].1 == st);
        }
    }
}

/// The identifiers in a state come out strictly increasing, as the entries do.
proof fn lemma_ids_in_state_sorted(s: Seq<(ChunkId, ChunkState)>, st: ChunkState)
    requires
        sorted_entries(s),
    ensures
        forall|i: int, j: int|
            0 <= i < j < ids_in_state(s, st).len() ==> id_lt(
                #[trigger] ids_in_state(s, st)[i],
                #[trigger] ids_in_state(s, st)[j],
            ),
    decreases s.len(),
{
    if s.len() > 0 {
        let p = s.drop_last();
        assert(sorted_entries(p)) by {
            assert forall|i: int, j: int| 0 <= i < j < p.len() implies id_lt(
                #[trigger] p[i].0,
                #[trigger] p[j].0,
            ) by {
                assert(p[i] == s[i]);
                assert(p[j] == s[j]);
            }
        }
        lemma_ids_in_state_sorted(p, st);
        if s.last().1 == st {
            let q = ids_in_state(p, st);
            let r = ids_in_state(s, st);
            assert(r == q.push(s.last().0));
            assert forall|i: int, j: int| 0 <= i < j < r.len() implies id_lt(
                #[trigger] r[i],
                #[trigger] r[j],
            ) by {
                if j < q.len() {
                    assert(r[i] == q[i] && r[j] == q[j]);
                } else {
                    assert(r[i] == q[i]);
                    assert(q.contains(q[i]));
                    lemma_ids_in_state_members(p, st, q[i]);
                    let a = choose|a: int| 0 <= a < p.len() && (#[trigger] p[a]).0 == q[i] && p[a].1
                        == st;
                    assert(s[a] == p[a]);
                    assert(id_lt(s[a].0, s[s.len() - 1].0));
                }
            }
        } else {
            assert(ids_in_state(s, st) == ids_in_state(p, st));
        }
    }
}

proof fn lemma_ids_in_state_members(s: Seq<(ChunkId, ChunkState)>, st: ChunkState, k: ChunkId)
    requires
        sorted_entries(s),
    ensures
        ids_in_state(s, st).contains(k) <==> exists|i: int|
            0 <= i < s.len() && (#[trigger] s[i]).0 == k && s[i].1 == st,
    decreases s.len(),
{
    if s.len() > 0 {
        let p = s.drop_last();
        assert(sorted_entries(p)) by {
            assert forall|i: int, j: int| 0 <= i < j < p.len() implies id_lt(
                #[trigger] p[i].0,
                #[trigger] p[j].0,
            ) by {
                assert(p[i] == s[i]);
                assert(p[j] == s[j]);
            }
        }
        lemma_ids_in_state_members(p, st, k);
        if ids_in_state(s, st).contains(k) {
            if s.last().1 == st && s.last().0 == k {
                assert(s[s.len() - 1].0 == k);
            } else {
                assert(ids_in_state(p, st).contains(k));
                let i = choose|i: int| 0 <= i < p.len() && (#[trigger] p[i]).0 == k && p[i].1 == st;
                assert(s[i] == p[i]);
            }
        }
        if exists|i: int| 0 <= i < s.len() && (#[trigger] s[i]).0 == k && s[i].1 == st {
            let i = choose|i: int| 0 <= i < s.len() && (#[trigger] s[i]).0 == k && s[i].1 == st;
            if i == s.len() - 1 {
                assert(ids_in_state(s, st) == ids_in_state(p, st).push(k));
                assert(ids_in_state(s, st).last() == k);
            } else {
                assert(p[i] == s[i]);
                let q = ids_in_state(p, st);
                let j = choose|j: int| 0 <= j < q.len() && q[j] == k;
                if s.last().1 == st {
                    assert(ids_in_state(s, st)[j] == k);
                }
            }
        }
    }
}

impl Default for StateMachine {
    fn default() -> (sm: Self)
        ensures
            sm.wf(),
            sm.entries().len() == 0,
            sm@ == Map::<ChunkId, ChunkState>::empty(),
    {
        StateMachine::new()
    }
}

// ─── Pressure record ─────────────────────────────────────────────────────────

/// The IEEE-754 bit pattern of a 32-bit float, carried unchanged. The library
/// never interprets the value; callers convert with `f32::to_bits` and
/// `f32::from_bits`.
#[derive(Debug, Clone, Copy, PartialEq, Eq, Structural)]
pub struct F32Bits(pub u32);

/// The IEEE-754 bit pattern of a 64-bit float, carried unchanged.
#[derive(Debug, Clone, Copy, PartialEq, Eq, Structural)]
pub struct F64Bits(pub u64);

/// System pressure across all dimensions, as carried by events and traces.
///
/// Each pressure value is a float from 0.0 (no pressure) to 1.0 (critical),
/// held as its bit pattern.
#[derive(Debug, Clone, Copy, PartialEq, Eq, Structural)]
pub struct PressureState {
    /// Memory pressure (0.0 = none, 1.0 = critical).
    pub memory_pressure: F32Bits,
    /// VRAM pressure (0.0 = none, 1.0 = critical).
    pub vram_pressure: F32Bits,
    /// I/O pressure (0.0 = none, 1.0 = critical).
    pub io_pressure: F32Bits,
    /// Current number of queued transfers.
    pub queue_depth: u32,
    /// Current throughput in bytes/sec.
    pub throughput_bps: u64,
}

impl PressureState {
    /// A pressure state with every value at zero (the bit pattern of `0.0` is
    /// all zeros).
    pub fn new() -> (p: PressureState)
        ensures
            p.memory_pressure.0 == 0,
            p.vram_pressure.0 == 0,
            p.io_pressure.0 == 0,
            p.queue_depth == 0,
            p.throughput_bps == 0,
    {
        PressureState {
            memory_pressure: F32Bits(0),
            vram_pressure: F32Bits(0),
            io_pressure: F32Bits(0),
            queue_depth: 0,
            throughput_bps: 0,
        }
    }
}

impl Default for PressureState {
    fn default() -> (p: Self)
        ensures
            p.memory_pressure.0 == 0,
            p.vram_pressure.0 == 0,
            p.io_pressure.0 == 0,
            p.queue_depth == 0,
            p.throughput_bps == 0,
    {
        PressureState::new()
    }
}

} // verus!
