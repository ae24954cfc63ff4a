//! State ownership: the token that authorises state mutation, and the log that
//! records every mutation for later audit.
use vstd::prelude::*;

use crate::error::same_text;
use crate::types::{ids_equal, ChunkId};

verus! {

// ─── State mutation token ──────────────────────────────────────────────────────

/// A zero-sized token that authorises state mutation. By convention only the
/// daemon creates it and hands it to the code allowed to mutate state.
#[derive(Debug, Clone, Copy, PartialEq, Eq)]
pub struct StateMutationToken(pub ());

impl StateMutationToken {
    /// Create a token without any check. Meant for tests and for contexts where
    /// the convention is enforced by review.
    pub fn new_unchecked() -> (t: StateMutationToken)
        ensures
            t == StateMutationToken(()),
    {
        StateMutationToken(())
    }
}

impl Default for StateMutationToken {
    fn default() -> (t: Self)
        ensures
            t == StateMutationToken(()),
    {
        StateMutationToken::new_unchecked()
    }
}

// ─── State change record ───────────────────────────────────────────────────────

/// One recorded state change: the module that made it, what it did, when, and
/// the chunk it concerned, if any.
#[derive(Debug, Clone, PartialEq, Eq)]
pub struct StateChange {
    /// The module that performed the mutation (e.g. "ghost-daemon::orchestrator").
    pub module: &'static str,
    /// A human-readable description of the action (e.g. "transition(Stored)").
    pub action: String,
    /// Timestamp of the mutation (microseconds since epoch).
    pub timestamp: u64,
    /// The chunk this mutation concerned, if any.
    pub chunk_id: Option<ChunkId>,
}

impl StateChange {
    /// A record of a mutation that concerns no particular chunk.
    pub fn new(module: &'static str, action: &str, timestamp: u64) -> (c: StateChange)
        ensures
            c.module == module,
            c.action@ == action@,
            c.timestamp == timestamp,
            c.chunk_id is None,
    {
        StateChange { module, action: String::from_str(action), timestamp, chunk_id: None }
    }

    /// A record of a mutation of chunk `chunk_id`.
    pub fn with_chunk(module: &'static str, action: &str, timestamp: u64, chunk_id: ChunkId) -> (c:
        StateChange)
        ensures
            c.module == module,
            c.action@ == action@,
            c.timestamp == timestamp,
            c.chunk_id == Some(chunk_id),
    {
        StateChange {
            module,
            action: String::from_str(action),
            timestamp,
            chunk_id: Some(chunk_id),
        }
    }
}

// ─── The log ───────────────────────────────────────────────────────────────────

/// The changes made by module `module`, in recording order.
pub open spec fn changes_by_module(s: Seq<StateChange>, module: Seq<char>) -> Seq<StateChange>
    decreases s.len(),
{
    if s.len() == 0 {
        Seq::empty()
    } else if s.last().module@ == module {
        changes_by_module(s.drop_last(), module).push(s.last())
    } else {
        changes_by_module(s.drop_last(), module)
    }
}

/// The changes that concern chunk `id`, in recording order.
pub open spec fn changes_for_chunk(s: Seq<StateChange>, id: ChunkId) -> Seq<StateChange>
    decreases s.len(),
{
    if s.len() == 0 {
        Seq::empty()
    } else if s.last().chunk_id == Some(id) {
        changes_for_chunk(s.drop_last(), id).push(s.last())
    } else {
        changes_for_chunk(s.drop_last(), id)
    }
}

/// Whether `module` is one of the allowed module names.
pub open spec fn module_allowed(allowed: Seq<&str>, module: Seq<char>) -> bool {
    exists|j: int| 0 <= j < allowed.len() && (#[trigger] allowed[j])@ == module
}

/// Records every state mutation, in order, for post-hoc audit.
#[derive(Debug, Clone)]
pub struct StateOwnershipLog {
    mutations: Vec<StateChange>,
}

impl StateOwnershipLog {
    /// The recorded changes, oldest first.
    pub closed spec fn changes(&self) -> Seq<StateChange> {
        self.mutations@
    }

    /// An empty log.
    pub fn new() -> (log: StateOwnershipLog)
        ensures
            log.changes().len() == 0,
    {
        StateOwnershipLog { mutations: Vec::new() }
    }

    /// An empty log with room for `capacity` changes.
    pub fn with_capacity(capacity: usize) -> (log: StateOwnershipLog)
        ensures
            log.changes().len() == 0,
    {
        StateOwnershipLog { mutations: Vec::with_capacity(capacity) }
    }

    /// Append `change` to the log.
    pub fn record(&mut self, change: StateChange)
        ensures
            final(self).changes() == old(self).changes().push(change),
    {
        self.mutations.push(change);
    }

    /// Append a change that concerns no particular chunk.
    pub fn record_simple(&mut self, module: &'static str, action: &str, timestamp: u64)
        ensures
            final(self).changes().len() == old(self).changes().len() + 1,
            final(self).changes().drop_last() == old(self).changes(),
            final(self).changes().last().module == module,
            final(self).changes().last().action@ == action@,
            final(self).changes().last().timestamp == timestamp,
            final(self).changes().last().chunk_id is None,
    {
        let c = StateChange::new(module, action, timestamp);
        self.mutations.push(c);
        assert(self.mutations@.drop_last() =~= old(self).mutations@);
    }

    /// Append a change of chunk `chunk_id`.
    pub fn record_chunk(
        &mut self,
        module: &'static str,
        action: &str,
        timestamp: u64,
        chunk_id: ChunkId,
    )
        ensures
            final(self).changes().len() == old(self).changes().len() + 1,
            final(self).changes().drop_last() == old(self).changes(),
            final(self).changes().last().module == module,
            final(self).changes().last().action@ == action@,
            final(self).changes().last().timestamp == timestamp,
            final(self).changes().last().chunk_id == Some(chunk_id),
    {
        let c = StateChange::with_chunk(module, action, timestamp, chunk_id);
        self.mutations.push(c);
        assert(self.mutations@.drop_last() =~= old(self).mutations@);
    }

    /// The number of recorded changes.
    pub fn mutation_count(&self) -> (n: usize)
        ensures
            n == self.changes().len(),
    {
        self.mutations.len()
    }

    /// Whether nothing has been recorded.
    pub fn is_empty(&self) -> (r: bool)
        ensures
            r == (self.changes().len() == 0),
    {
        self.mutations.len() == 0
    }

    /// All recorded changes, oldest first.
    pub fn mutations(&self) -> (r: &[StateChange])
        ensures
            r@ == self.changes(),
    {
        self.mutations.as_slice()
    }

    /// The changes made by module `module`, oldest first.
    pub fn mutations_by_module(&self, module: &str) -> (r: Vec<&StateChange>)
        ensures
            r@.len() == changes_by_module(self.changes(), module@).len(),
            forall|i: int|
                0 <= i < r@.len() ==> *r@[i] == changes_by_module(self.changes(), module@)[i],
    {
        let mut out: Vec<&StateChange> = Vec::new();
        let n = self.mutations.len();
        let mut i: usize = 0;
        while i < n
            invariant
                n == self.changes().len(),
                0 <= i <= n,
                out@.len() == changes_by_module(self.changes().subrange(0, i as int), module@).len(),
                forall|k: int|
                    0 <= k < out@.len() ==> *out@[k] == changes_by_module(
                        self.changes().subrange(0, i as int),
                        module@,
                    )[k],
            decreases n - i,
        {
            proof {
                let s = self.changes();
                assert(s.subrange(0, i + 1).drop_last() =~= s.subrange(0, i as int));
                assert(s.subrange(0, i + 1).last() == s[i as int]);
            }
            let c = &self.mutations[i];
            if same_text(c.module, module) {
                out.push(c);
            }
            i = i + 1;
        }
        proof {
            assert(self.changes().subrange(0, n as int) =~= self.changes());
        }
        out
    }

    /// The changes that concern chunk `chunk_id`, oldest first.
    pub fn mutations_for_chunk(&self, chunk_id: &ChunkId) -> (r: Vec<&StateChange>)
        ensures
            r@.len() == changes_for_chunk(self.changes(), *chunk_id).len(),
            forall|i: int|
                0 <= i < r@.len() ==> *r@[i] == changes_for_chunk(self.changes(), *chunk_id)[i],
    {
        let mut out: Vec<&StateChange> = Vec::new();
        let n = self.mutations.len();
        let mut i: usize = 0;
        while i < n
            invariant
                n == self.changes().len(),
                0 <= i <= n,
                out@.len() == changes_for_chunk(self.changes().subrange(0, i as int), *chunk_id).len(),
                forall|k: int|
                    0 <= k < out@.len() ==> *out@[k] == changes_for_chunk(
                        self.changes().subrange(0, i as int),
                        *chunk_id,
                    )[k],
            decreases n - i,
        {
            proof {
                let s = self.changes();
                assert(s.subrange(0, i + 1).drop_last() =~= s.subrange(0, i as int));
                assert(s.subrange(0, i + 1).last() == s[i as int]);
            }
            let c = &self.mutations[i];
            let matches_chunk = match &c.chunk_id {
                Some(id) => ids_equal(id, chunk_id),
                None => false,
            };
            if matches_chunk {
                out.push(c);
            }
            i = i + 1;
        }
        proof {
            assert(self.changes().subrange(0, n as int) =~= self.changes());
        }
        out
    }

    /// Whether some change was made by a module not in `allowed_modules`.
    pub fn has_unauthorized_mutations(&self, allowed_modules: &[&str]) -> (r: bool)
        ensures
            r == exists|i: int|
                0 <= i < self.changes().len() && !module_allowed(
                    allowed_modules@,
                    (#[trigger] self.changes()[i]).module@,
                ),
    {
        let n = self.mutations.len();
        let mut i: usize = 0;
        while i < n
            invariant
                n == self.changes().len(),
                0 <= i <= n,
                forall|k: int|
                    0 <= k < i ==> module_allowed(
                        allowed_modules@,
                        (#[trigger] self.changes()[k]).module@,
                    ),
            decreases n - i,
        {
            let module = self.mutations[i].module;
            let mut found = false;
            let mut j: usize = 0;
            while j < allowed_modules.len()
                invariant
                    0 <= j <= allowed_modules@.len(),
                    found == exists|q: int| 0 <= q < j && (#[trigger] allowed_modules@[q])@ == module@,
                decreases allowed_modules@.len() - j,
            {
                if same_text(allowed_modules[j], module) {
                    found = true;
                }
                j = j + 1;
            }
            if !found {
                assert(!module_allowed(allowed_modules@, self.changes()[i as int].module@));
                return true;
            }
            i = i + 1;
        }
        false
    }

    /// Remove every recorded change.
    pub fn clear(&mut self)
        ensures
            final(self).changes().len() == 0,
    {
        self.mutations.clear();
    }
}

impl Default for StateOwnershipLog {
    fn default() -> (log: Self)
        ensures
            log.changes().len() == 0,
    {
        StateOwnershipLog::new()
    }
}

} // verus!
