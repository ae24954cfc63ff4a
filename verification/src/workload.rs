//! Synthetic workload definitions for benchmarking: the workload classes, the
//! built-in definitions, and the deterministic parts of scenario generation.
use vstd::prelude::*;
use vstd::string::StrSliceExecFns;

verus! {

/// Classification of workload type.
#[derive(Debug, Clone, Copy, PartialEq, Eq, Structural, Hash)]
pub enum WorkloadClass {
    /// Browser, IDE, terminal.
    Desktop,
    /// Cargo, clang, kernel builds.
    BuildSystem,
    /// Synthetic pressure, allocator stress.
    MemoryPressure,
    /// SQLite, Postgres, cache-heavy.
    DataSystem,
    /// Combined workload patterns.
    Mixed,
}

/// The display name of a class.
pub open spec fn workload_class_name(c: WorkloadClass) -> Seq<char> {
    match c {
        WorkloadClass::Desktop => "Desktop"@,
        WorkloadClass::BuildSystem => "BuildSystem"@,
        WorkloadClass::MemoryPressure => "MemoryPressure"@,
        WorkloadClass::DataSystem => "DataSystem"@,
        WorkloadClass::Mixed => "Mixed"@,
    }
}

impl WorkloadClass {
    /// The display name of this class.
    pub fn as_str(&self) -> (s: &'static str)
        ensures
            s@ == workload_class_name(*self),
    {
        match self {
            WorkloadClass::Desktop => "Desktop",
            WorkloadClass::BuildSystem => "BuildSystem",
            WorkloadClass::MemoryPressure => "MemoryPressure",
            WorkloadClass::DataSystem => "DataSystem",
            WorkloadClass::Mixed => "Mixed",
        }
    }
}

// ─── Classifying workloads by name ─────────────────────────────────────────────

/// `p` occurs in `s` starting at position `i`.
pub open spec fn infix_at(s: Seq<char>, p: Seq<char>, i: int) -> bool {
    0 <= i && i + p.len() <= s.len() && s.subrange(i, i + p.len()) == p
}

/// `p` occurs somewhere in `s` as a contiguous run of characters.
pub open spec fn has_infix(s: Seq<char>, p: Seq<char>) -> bool {
    exists|i: int| #[trigger] infix_at(s, p, i)
}

/// The class that a workload's name suggests, by the words it contains, or
/// `None` when it contains none of them.
pub open spec fn class_suggested_by(name: Seq<char>) -> Option<WorkloadClass> {
    if has_infix(name, "idle"@) || has_infix(name, "desktop"@) {
        Some(WorkloadClass::Desktop)
    } else if has_infix(name, "build"@) {
        Some(WorkloadClass::BuildSystem)
    } else if has_infix(name, "pressure"@) || has_infix(name, "allocator"@) || has_infix(
        name,
        "tier"@,
    ) {
        Some(WorkloadClass::MemoryPressure)
    } else if has_infix(name, "database"@) || has_infix(name, "cache"@) {
        Some(WorkloadClass::DataSystem)
    } else if has_infix(name, "mixed"@) {
        Some(WorkloadClass::Mixed)
    } else {
        None
    }
}

/// Classification by name follows the words a name contains, earlier rules
/// first: a name holding "idle" or "desktop" is Desktop; otherwise one holding
/// "build" is BuildSystem; otherwise one holding "pressure", "allocator" or
/// "tier" is MemoryPressure; otherwise one holding "database" or "cache" is
/// DataSystem; otherwise one holding "mixed" is Mixed; and a name holding none
/// of these words has no suggested class (and is inferred as Mixed).
pub proof fn lemma_classification_by_words(name: Seq<char>)
    ensures
        has_infix(name, "idle"@) || has_infix(name, "desktop"@) ==> class_suggested_by(name)
            == Some(WorkloadClass::Desktop),
        ({
            let earlier = has_infix(name, "idle"@) || has_infix(name, "desktop"@);
            !earlier && has_infix(name, "build"@) ==> class_suggested_by(name) == Some(
                WorkloadClass::BuildSystem,
            )
        }),
        ({
            let earlier = has_infix(name, "idle"@) || has_infix(name, "desktop"@) || has_infix(
                name,
                "build"@,
            );
            let here = has_infix(name, "pressure"@) || has_infix(name, "allocator"@) || has_infix(
                name,
                "tier"@,
            );
            !earlier && here ==> class_suggested_by(name) == Some(WorkloadClass::MemoryPressure)
        }),
        ({
            let earlier = has_infix(name, "idle"@) || has_infix(name, "desktop"@) || has_infix(
                name,
                "build"@,
            ) || has_infix(name, "pressure"@) || has_infix(name, "allocator"@) || has_infix(
                name,
                "tier"@,
            );
            let here = has_infix(name, "database"@) || has_infix(name, "cache"@);
            !earlier && here ==> class_suggested_by(name) == Some(WorkloadClass::DataSystem)
        }),
        ({
            let earlier = has_infix(name, "idle"@) || has_infix(name, "desktop"@) || has_infix(
                name,
                "build"@,
            ) || has_infix(name, "pressure"@) || has_infix(name, "allocator"@) || has_infix(
                name,
                "tier"@,
            ) || has_infix(name, "database"@) || has_infix(name, "cache"@);
            !earlier && has_infix(name, "mixed"@) ==> class_suggested_by(name) == Some(
                WorkloadClass::Mixed,
            )
        }),
        class_suggested_by(name) is None <==> !(has_infix(name, "idle"@) || has_infix(
            name,
            "desktop"@,
        ) || has_infix(name, "build"@) || has_infix(name, "pressure"@) || has_infix(
            name,
            "allocator"@,
        ) || has_infix(name, "tier"@) || has_infix(name, "database"@) || has_infix(name, "cache"@)
            || has_infix(name, "mixed"@)),
{
}

/// The characters of `s`, in order.
fn chars_of(s: &str) -> (v: Vec<char>)
    ensures
        v@ == s@,
{
    let n = s.unicode_len();
    let mut v: Vec<char> = Vec::new();
    let mut i: usize = 0;
    while i < n
        invariant
            n == s@.len(),
            0 <= i <= n,
            v@ == s@.take(i as int),
        decreases n - i,
    {
        v.push(s.get_char(i));
        assert(v@ =~= s@.take(i + 1));
        i = i + 1;
    }
    assert(v@ =~= s@);
    v
}

/// Whether `p` occurs in `s` starting at position `i`.
fn matches_at(s: &Vec<char>, p: &Vec<char>, i: usize) -> (r: bool)
    requires
        i + p@.len() <= s@.len(),
    ensures
        r == infix_at(s@, p@, i as int),
{
    let m = p.len();
    let n = s.len();
    let mut j: usize = 0;
    while j < m
        invariant
            m == p@.len(),
            n == s@.len(),
            i + m <= s@.len(),
            0 <= j <= m,
            forall|k: int| 0 <= k < j ==> s@[i + k] == p@[k],
        decreases m - j,
    {
        if s[i + j] != p[j] {
            assert(s@.subrange(i as int, i + m)[j as int] != p@[j as int]);
            return false;
        }
        j = j + 1;
    }
    assert(s@.subrange(i as int, i + m) =~= p@);
    true
}

/// Whether `pattern` occurs in `text` as a contiguous run of characters.
pub fn text_contains(text: &str, pattern: &str) -> (r: bool)
    ensures
        r == has_infix(text@, pattern@),
{
    let s = chars_of(text);
    let p = chars_of(pattern);
    if p.len() > s.len() {
        assert forall|i: int| !#[trigger] infix_at(s@, p@, i) by {}
        return false;
    }
    let last = s.len() - p.len();
    let mut i: usize = 0;
    loop
        invariant
            s@ == text@,
            p@ == pattern@,
            last + p@.len() == s@.len(),
            0 <= i <= last,
            forall|k: int| 0 <= k < i ==> !#[trigger] infix_at(s@, p@, k),
        decreases last - i,
    {
        if matches_at(&s, &p, i) {
            return true;
        }
        if i == last {
            assert forall|k: int| !#[trigger] infix_at(s@, p@, k) by {}
            return false;
        }
        i = i + 1;
    }
}

/// The class that a workload's name suggests, or `None` when its name holds
/// none of the words that mark a class.
pub fn classify_workload_name(name: &str) -> (r: Option<WorkloadClass>)
    ensures
        r == class_suggested_by(name@),
{
    if text_contains(name, "idle") || text_contains(name, "desktop") {
        Some(WorkloadClass::Desktop)
    } else if text_contains(name, "build") {
        Some(WorkloadClass::BuildSystem)
    } else if text_contains(name, "pressure") || text_contains(name, "allocator")
        || text_contains(name, "tier") {
        Some(WorkloadClass::MemoryPressure)
    } else if text_contains(name, "database") || text_contains(name, "cache") {
        Some(WorkloadClass::DataSystem)
    } else if text_contains(name, "mixed") {
        Some(WorkloadClass::Mixed)
    } else {
        None
    }
}

/// The class of a workload inferred from its name, `Mixed` when the name
/// suggests none.
pub fn infer_workload_class(name: &str) -> (c: WorkloadClass)
    ensures
        c == (match class_suggested_by(name@) {
            Some(k) => k,
            None => WorkloadClass::Mixed,
        }),
{
    match classify_workload_name(name) {
        Some(k) => k,
        None => WorkloadClass::Mixed,
    }
}

/// The display name of the class a workload's name suggests, `"Unknown"` when
/// it suggests none.
pub fn infer_workload_class_name(name: &str) -> (s: &'static str)
    ensures
        s@ == (match class_suggested_by(name@) {
            Some(k) => workload_class_name(k),
            None => "Unknown"@,
        }),
{
    match classify_workload_name(name) {
        Some(k) => k.as_str(),
        None => "Unknown",
    }
}

/// A synthetic workload definition.
#[derive(Debug, Clone)]
pub struct WorkloadDefinition {
    /// Unique name for this workload.
    pub name: String,
    /// The class of workload.
    pub class: WorkloadClass,
    /// Human-readable description.
    pub description: String,
    /// Simulated duration in seconds.
    pub duration_seconds: u64,
    /// Time between snapshots in milliseconds.
    pub snapshot_interval_ms: u64,
    /// Deterministic seed.
    pub seed: u64,
}

/// A definition with the given fields.
pub open spec fn is_definition(
    d: WorkloadDefinition,
    name: Seq<char>,
    class: WorkloadClass,
    description: Seq<char>,
    duration_seconds: u64,
    snapshot_interval_ms: u64,
    seed: u64,
) -> bool {
    &&& d.name@ == name
    &&& d.class == class
    &&& d.description@ == description
    &&& d.duration_seconds == duration_seconds
    &&& d.snapshot_interval_ms == snapshot_interval_ms
    &&& d.seed == seed
}

/// The number of snapshots a definition generates: the duration divided by
/// the interval, at least one; a zero interval gives one snapshot.
pub open spec fn snapshot_count_of(d: WorkloadDefinition) -> int {
    if d.snapshot_interval_ms > 0 {
        let n = (d.duration_seconds * 1000) / (d.snapshot_interval_ms as int);
        if n < 1 {
            1
        } else {
            n
        }
    } else {
        1
    }
}

/// Generates deterministic workload scenarios from definitions.
#[derive(Debug, Clone)]
pub struct WorkloadGenerator {
    seed: u64,
}

impl WorkloadGenerator {
    /// The generator's seed.
    pub closed spec fn seed(&self) -> u64 {
        self.seed
    }

    /// A generator with the given seed.
    pub fn new(seed: u64) -> (g: WorkloadGenerator)
        ensures
            g.seed() == seed,
    {
        WorkloadGenerator { seed }
    }

    /// How many snapshots `generate` produces for `definition`.
    pub fn snapshot_count(&self, definition: &WorkloadDefinition) -> (n: u64)
        requires
            definition.duration_seconds * 1000 <= u64::MAX,
        ensures
            n == snapshot_count_of(*definition),
    {
        let total_duration_ms = definition.duration_seconds * 1000;
        if definition.snapshot_interval_ms > 0 {
            let n = total_duration_ms / definition.snapshot_interval_ms;
            if n < 1 {
                1
            } else {
                n
            }
        } else {
            1
        }
    }

    /// The timestamps, in milliseconds from the start, of the snapshots that
    /// `generate` produces for `definition`: one every snapshot interval,
    /// starting at zero.
    pub fn snapshot_timestamps(&self, definition: &WorkloadDefinition) -> (ts: Vec<u64>)
        requires
            definition.duration_seconds * 1000 <= u64::MAX,
            snapshot_count_of(*definition) <= usize::MAX,
        ensures
            ts@.len() == snapshot_count_of(*definition),
            forall|i: int|
                0 <= i < ts@.len() ==> #[trigger] ts@[i] == i * definition.snapshot_interval_ms,
    {
        let n = self.snapshot_count(definition);
        let interval = definition.snapshot_interval_ms;
        let ghost total: int = definition.duration_seconds * 1000;
        let mut ts: Vec<u64> = Vec::new();
        let mut i: u64 = 0;
        while i < n
            invariant
                n == snapshot_count_of(*definition),
                interval == definition.snapshot_interval_ms,
                total == definition.duration_seconds * 1000,
                total <= u64::MAX,
                i <= n,
                ts@.len() == i,
                forall|j: int| 0 <= j < i ==> #[trigger] ts@[j] == j * interval,
            decreases n - i,
        {
            proof {
                if interval > 0 && n > 1 {
                    assert(i * interval <= total) by (nonlinear_arith)
                        requires
                            interval > 0,
                            i < n,
                            n == total / (interval as int),
                            total >= 0,
                    ;
                } else {
                    assert(i == 0);
                    assert(i * interval == 0) by (nonlinear_arith)
                        requires
                            i == 0,
                    ;
                }
            }
            ts.push(i * interval);
            i = i + 1;
        }
        ts
    }

    /// The pseudo-random hash behind the perturbation applied at
    /// `timestamp_ms`: a wrapping linear mix of the seed and the timestamp.
    pub fn perturbation_hash(&self, timestamp_ms: u64) -> (h: u64)
        ensures
            h == vstd::wrapping::u64_specs::wrapping_add(
                vstd::wrapping::u64_specs::wrapping_mul(self.seed(), 6364136223846793005),
                vstd::wrapping::u64_specs::wrapping_add(
                    vstd::wrapping::u64_specs::wrapping_mul(timestamp_ms, 1442695040888963407),
                    1,
                ),
            ),
    {
        let a = self.seed.wrapping_mul(6364136223846793005);
        let b = timestamp_ms.wrapping_mul(1442695040888963407).wrapping_add(1);
        a.wrapping_add(b)
    }
}

/// Idle desktop workload: low pressure, mostly idle, occasional brief spikes.
pub fn idle_desktop() -> (d: WorkloadDefinition)
    ensures
        is_definition(
            d,
            "idle_desktop"@,
            WorkloadClass::Desktop,
            "Low pressure desktop workload with occasional brief spikes"@,
            60,
            1000,
            42,
        ),
{
    WorkloadDefinition {
        name: String::from_str("idle_desktop"),
        class: WorkloadClass::Desktop,
        description: String::from_str("Low pressure desktop workload with occasional brief spikes"),
        duration_seconds: 60,
        snapshot_interval_ms: 1000,
        seed: 42,
    }
}

/// Memory pressure ramp: gradually increasing pressure from idle to critical.
pub fn memory_pressure_ramp() -> (d: WorkloadDefinition)
    ensures
        is_definition(
            d,
            "memory_pressure_ramp"@,
            WorkloadClass::MemoryPressure,
            "Gradually increasing pressure from idle to critical"@,
            120,
            2000,
            100,
        ),
{
    WorkloadDefinition {
        name: String::from_str("memory_pressure_ramp"),
        class: WorkloadClass::MemoryPressure,
        description: String::from_str("Gradually increasing pressure from idle to critical"),
        duration_seconds: 120,
        snapshot_interval_ms: 2000,
        seed: 100,
    }
}

/// Build server workload: periodic high pressure spikes during compilation bursts.
pub fn build_server() -> (d: WorkloadDefinition)
    ensures
        is_definition(
            d,
            "build_server"@,
            WorkloadClass::BuildSystem,
            "Periodic high pressure spikes during compilation bursts"@,
            180,
            1000,
            200,
        ),
{
    WorkloadDefinition {
        name: String::from_str("build_server"),
        class: WorkloadClass::BuildSystem,
        description: String::from_str("Periodic high pressure spikes during compilation bursts"),
        duration_seconds: 180,
        snapshot_interval_ms: 1000,
        seed: 200,
    }
}

/// Database cache workload: moderate sustained pressure with hotness data.
pub fn database_cache() -> (d: WorkloadDefinition)
    ensures
        is_definition(
            d,
            "database_cache"@,
            WorkloadClass::DataSystem,
            "Moderate sustained pressure with hotness data (active cache)"@,
            90,
            1000,
            300,
        ),
{
    WorkloadDefinition {
        name: String::from_str("database_cache"),
        class: WorkloadClass::DataSystem,
        description: String::from_str("Moderate sustained pressure with hotness data (active cache)"),
        duration_seconds: 90,
        snapshot_interval_ms: 1000,
        seed: 300,
    }
}

/// Mixed multitask workload: alternating patterns combining other workloads.
pub fn mixed_multitask() -> (d: WorkloadDefinition)
    ensures
        is_definition(
            d,
            "mixed_multitask"@,
            WorkloadClass::Mixed,
            "Alternating patterns: idle → browser → build → cache → recovery"@,
            200,
            2000,
            400,
        ),
{
    WorkloadDefinition {
        name: String::from_str("mixed_multitask"),
        class: WorkloadClass::Mixed,
        description: String::from_str("Alternating patterns: idle → browser → build → cache → recovery"),
        duration_seconds: 200,
        snapshot_interval_ms: 2000,
        seed: 400,
    }
}

/// Allocator stress workload: rapid oscillation between allocate and free.
pub fn allocator_stress() -> (d: WorkloadDefinition)
    ensures
        is_definition(
            d,
            "allocator_stress"@,
            WorkloadClass::MemoryPressure,
            "Rapid oscillation: allocate (spike) → free (drop) → repeat"@,
            60,
            500,
            500,
        ),
{
    WorkloadDefinition {
        name: String::from_str("allocator_stress"),
        class: WorkloadClass::MemoryPressure,
        description: String::from_str("Rapid oscillation: allocate (spike) → free (drop) → repeat"),
        duration_seconds: 60,
        snapshot_interval_ms: 500,
        seed: 500,
    }
}

/// Tier saturation workload: saturates one tier at a time (DRAM, then ZRAM, then swap).
pub fn tier_saturation() -> (d: WorkloadDefinition)
    ensures
        is_definition(
            d,
            "tier_saturation"@,
            WorkloadClass::MemoryPressure,
            "Tier-by-tier saturation: DRAM full → ZRAM fills → swap fills → recovery"@,
            120,
            2000,
            600,
        ),
{
    WorkloadDefinition {
        name: String::from_str("tier_saturation"),
        class: WorkloadClass::MemoryPressure,
        description: String::from_str("Tier-by-tier saturation: DRAM full → ZRAM fills → swap fills → recovery"),
        duration_seconds: 120,
        snapshot_interval_ms: 2000,
        seed: 600,
    }
}

/// All built-in workload definitions, in a fixed order.
pub fn all_builtin_workloads() -> (v: Vec<WorkloadDefinition>)
    ensures
        v@.len() == 7,
        is_definition(v@[0], "idle_desktop"@, WorkloadClass::Desktop, "Low pressure desktop workload with occasional brief spikes"@, 60, 1000, 42),
        is_definition(v@[1], "memory_pressure_ramp"@, WorkloadClass::MemoryPressure, "Gradually increasing pressure from idle to critical"@, 120, 2000, 100),
        is_definition(v@[2], "build_server"@, WorkloadClass::BuildSystem, "Periodic high pressure spikes during compilation bursts"@, 180, 1000, 200),
        is_definition(v@[3], "database_cache"@, WorkloadClass::DataSystem, "Moderate sustained pressure with hotness data (active cache)"@, 90, 1000, 300),
        is_definition(v@[4], "mixed_multitask"@, WorkloadClass::Mixed, "Alternating patterns: idle → browser → build → cache → recovery"@, 200, 2000, 400),
        is_definition(v@[5], "allocator_stress"@, WorkloadClass::MemoryPressure, "Rapid oscillation: allocate (spike) → free (drop) → repeat"@, 60, 500, 500),
        is_definition(v@[6], "tier_saturation"@, WorkloadClass::MemoryPressure, "Tier-by-tier saturation: DRAM full → ZRAM fills → swap fills → recovery"@, 120, 2000, 600),
{
    let mut v: Vec<WorkloadDefinition> = Vec::new();
    v.push(idle_desktop());
    v.push(memory_pressure_ramp());
    v.push(build_server());
    v.push(database_cache());
    v.push(mixed_multitask());
    v.push(allocator_stress());
    v.push(tier_saturation());
    v
}

} // verus!
