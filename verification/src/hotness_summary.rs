//! Aggregated temperature counts and access statistics of a hotness snapshot.
use vstd::prelude::*;

use crate::hotness_provider::{temperature_rank, HotnessSample, HotnessSnapshot, Temperature};

verus! {

/// The number of samples with temperature `t`.
pub open spec fn count_with(s: Seq<HotnessSample>, t: Temperature) -> nat
    decreases s.len(),
{
    if s.len() == 0 {
        0
    } else {
        count_with(s.drop_last(), t) + (if s.last().temperature == t {
            1nat
        } else {
            0nat
        })
    }
}

/// The sum of the access counts.
pub open spec fn count_sum(s: Seq<HotnessSample>) -> nat
    decreases s.len(),
{
    if s.len() == 0 {
        0
    } else {
        count_sum(s.drop_last()) + s.last().access_count as nat
    }
}

/// The largest access count (0 for no samples).
pub open spec fn count_max(s: Seq<HotnessSample>) -> nat
    decreases s.len(),
{
    if s.len() == 0 {
        0
    } else if s.len() == 1 {
        s[0].access_count as nat
    } else {
        let m = count_max(s.drop_last());
        if s.last().access_count > m {
            s.last().access_count as nat
        } else {
            m
        }
    }
}

/// The smallest access count (0 for no samples).
pub open spec fn count_min(s: Seq<HotnessSample>) -> nat
    decreases s.len(),
{
    if s.len() == 0 {
        0
    } else if s.len() == 1 {
        s[0].access_count as nat
    } else {
        let m = count_min(s.drop_last());
        if s.last().access_count < m {
            s.last().access_count as nat
        } else {
            m
        }
    }
}

/// The most common temperature among the given counts, ties going to the
/// hotter class; frozen when there are no regions at all.
pub open spec fn dominant_of(hot: nat, warm: nat, cold: nat, frozen: nat) -> Temperature {
    if hot == 0 && warm == 0 && cold == 0 && frozen == 0 {
        Temperature::Frozen
    } else if hot >= warm && hot >= cold && hot >= frozen {
        Temperature::Hot
    } else if warm >= cold && warm >= frozen {
        Temperature::Warm
    } else if cold >= frozen {
        Temperature::Cold
    } else {
        Temperature::Frozen
    }
}

/// The number of regions of class `t` among the given counts.
pub open spec fn count_of_class(t: Temperature, hot: nat, warm: nat, cold: nat, frozen: nat) -> nat {
    match t {
        Temperature::Hot => hot,
        Temperature::Warm => warm,
        Temperature::Cold => cold,
        Temperature::Frozen => frozen,
    }
}

/// The dominant temperature is a most common class: no class has more
/// regions, every hotter class has strictly fewer, and with no regions at all
/// it is frozen.
pub proof fn lemma_dominant_is_most_common(hot: nat, warm: nat, cold: nat, frozen: nat)
    ensures
        ({
            let d = dominant_of(hot, warm, cold, frozen);
            let n = count_of_class(d, hot, warm, cold, frozen);
            &&& hot <= n && warm <= n && cold <= n && frozen <= n
            &&& forall|x: Temperature|
                temperature_rank(x) > temperature_rank(d) ==> #[trigger] count_of_class(
                    x,
                    hot,
                    warm,
                    cold,
                    frozen,
                ) < n || (hot == 0 && warm == 0 && cold == 0 && frozen == 0)
            &&& (hot == 0 && warm == 0 && cold == 0 && frozen == 0) ==> d == Temperature::Frozen
        }),
{
}

/// Aggregated temperature counts and access statistics of a snapshot.
///
/// The region percentages that reports show are derived from these counts by
/// the caller.
#[derive(Debug, Clone, Copy)]
pub struct HotnessSummary {
    /// Number of hot regions.
    pub hot_count: usize,
    /// Number of warm regions.
    pub warm_count: usize,
    /// Number of cold regions.
    pub cold_count: usize,
    /// Number of frozen regions.
    pub frozen_count: usize,
    /// Total number of regions.
    pub total_regions: usize,
    /// Average access count across all regions (rounded down).
    pub avg_access_count: u64,
    /// Maximum access count across all regions.
    pub max_access_count: u64,
    /// Minimum access count across all regions.
    pub min_access_count: u64,
}

proof fn lemma_counts_partition(s: Seq<HotnessSample>)
    ensures
        count_with(s, Temperature::Hot) + count_with(s, Temperature::Warm) + count_with(
            s,
            Temperature::Cold,
        ) + count_with(s, Temperature::Frozen) == s.len(),
    decreases s.len(),
{
    if s.len() > 0 {
        lemma_counts_partition(s.drop_last());
    }
}

proof fn lemma_min_le_max_sum(s: Seq<HotnessSample>)
    ensures
        s.len() > 0 ==> count_min(s) * s.len() <= count_sum(s),
        count_sum(s) <= count_max(s) * s.len(),
        count_min(s) <= count_max(s),
    decreases s.len(),
{
    if s.len() == 0 {
        let n = s.len();
        let mx = count_max(s);
        assert(mx * n == 0) by (nonlinear_arith)
            requires
                n == 0,
        ;
    }
    if s.len() == 1 {
        assert(s.drop_last().len() == 0);
        assert(count_sum(s.drop_last()) == 0);
        assert(s.last() == s[0]);
        assert(count_sum(s) == s[0].access_count);
        let n = s.len();
        let mx = count_max(s);
        let mn = count_min(s);
        assert(mx * n == mx && mn * n == mn) by (nonlinear_arith)
            requires
                n == 1,
        ;
    }
    if s.len() > 1 {
        assert(s.drop_last().len() + 1 == s.len());
    }
    if s.len() > 1 {
        let p = s.drop_last();
        lemma_min_le_max_sum(p);
        let x = s.last().access_count as nat;
        let mn = count_min(p);
        let mx = count_max(p);
        let n = p.len();
        let m = s.len();
        let smin = count_min(s);
        let smax = count_max(s);
        let ssum = count_sum(s);
        assert(smin * m <= ssum) by (nonlinear_arith)
            requires
                m == n + 1,
                smin <= mn,
                smin <= x,
                ssum == count_sum(p) + x,
                mn * n <= count_sum(p),
        ;
        assert(ssum <= smax * m) by (nonlinear_arith)
            requires
                m == n + 1,
                smax >= mx,
                smax >= x,
                ssum == count_sum(p) + x,
                count_sum(p) <= mx * n,
        ;
    }
}

impl HotnessSummary {
    /// Summarize a snapshot: the number of regions in each temperature class,
    /// the total, and the average (rounded down), largest and smallest access
    /// count (all zero for an empty snapshot).
    pub fn from_snapshot(snapshot: &HotnessSnapshot) -> (r: HotnessSummary)
        requires
            count_sum(snapshot.samples@) <= u64::MAX,
        ensures
            r.hot_count == count_with(snapshot.samples@, Temperature::Hot),
            r.warm_count == count_with(snapshot.samples@, Temperature::Warm),
            r.cold_count == count_with(snapshot.samples@, Temperature::Cold),
            r.frozen_count == count_with(snapshot.samples@, Temperature::Frozen),
            r.total_regions == snapshot.samples@.len(),
            r.avg_access_count == (if snapshot.samples@.len() == 0 {
                0
            } else {
                count_sum(snapshot.samples@) / snapshot.samples@.len()
            }),
            r.max_access_count == count_max(snapshot.samples@),
            r.min_access_count == count_min(snapshot.samples@),
    {
        let s = &snapshot.samples;
        let n = s.len();
        if n == 0 {
            return HotnessSummary {
                hot_count: 0,
                warm_count: 0,
                cold_count: 0,
                frozen_count: 0,
                total_regions: 0,
                avg_access_count: 0,
                max_access_count: 0,
                min_access_count: 0,
            };
        }
        let mut hot: usize = 0;
        let mut warm: usize = 0;
        let mut cold: usize = 0;
        let mut frozen: usize = 0;
        let mut sum: u64 = 0;
        let mut mx: u64 = s[0].access_count;
        let mut mn: u64 = s[0].access_count;
        let mut i: usize = 0;
        proof {
            lemma_count_sum_prefix_le(s@, 0);
        }
        while i < n
            invariant
                n == s@.len(),
                n > 0,
                0 <= i <= n,
                count_sum(s@) <= u64::MAX,
                hot == count_with(s@.take(i as int), Temperature::Hot),
                warm == count_with(s@.take(i as int), Temperature::Warm),
                cold == count_with(s@.take(i as int), Temperature::Cold),
                frozen == count_with(s@.take(i as int), Temperature::Frozen),
                hot + warm + cold + frozen == i,
                sum == count_sum(s@.take(i as int)),
                i == 0 ==> mx == s@[0].access_count && mn == s@[0].access_count,
                i > 0 ==> mx == count_max(s@.take(i as int)) && mn == count_min(s@.take(i as int)),
            decreases n - i,
        {
            let smp = s[i];
            proof {
                assert(s@.take(i + 1).drop_last() =~= s@.take(i as int));
                lemma_count_sum_prefix_le(s@, i + 1);
                lemma_counts_partition(s@.take(i + 1));
            }
            match smp.temperature {
                Temperature::Hot => {
                    hot = hot + 1;
                },
                Temperature::Warm => {
                    warm = warm + 1;
                },
                Temperature::Cold => {
                    cold = cold + 1;
                },
                Temperature::Frozen => {
                    frozen = frozen + 1;
                },
            }
            sum = sum + smp.access_count;
            if i > 0 {
                if smp.access_count > mx {
                    mx = smp.access_count;
                }
                if smp.access_count < mn {
                    mn = smp.access_count;
                }
            }
            i = i + 1;
        }
        assert(s@.take(n as int) =~= s@);
        HotnessSummary {
            hot_count: hot,
            warm_count: warm,
            cold_count: cold,
            frozen_count: frozen,
            total_regions: n,
            avg_access_count: sum / (n as u64),
            max_access_count: mx,
            min_access_count: mn,
        }
    }

    /// The most common temperature class, ties going to the hotter class;
    /// frozen when the summary has no regions.
    pub fn dominant_temperature(&self) -> (t: Temperature)
        ensures
            t == dominant_of(
                self.hot_count as nat,
                self.warm_count as nat,
                self.cold_count as nat,
                self.frozen_count as nat,
            ),
    {
        let h = self.hot_count;
        let w = self.warm_count;
        let c = self.cold_count;
        let f = self.frozen_count;
        if h == 0 && w == 0 && c == 0 && f == 0 {
            Temperature::Frozen
        } else if h >= w && h >= c && h >= f {
            Temperature::Hot
        } else if w >= c && w >= f {
            Temperature::Warm
        } else if c >= f {
            Temperature::Cold
        } else {
            Temperature::Frozen
        }
    }

    /// Whether more than half of the regions are hot or warm.
    pub fn is_hot_workload(&self) -> (r: bool)
        requires
            self.total_regions > 0 ==> self.hot_count + self.warm_count <= usize::MAX,
        ensures
            r == (self.total_regions > 0 && self.hot_count + self.warm_count > self.total_regions
                / 2),
    {
        if self.total_regions == 0 {
            return false;
        }
        let active = self.hot_count + self.warm_count;
        active > self.total_regions / 2
    }

    /// Whether more than half of the regions are cold or frozen.
    pub fn is_cold_workload(&self) -> (r: bool)
        requires
            self.total_regions > 0 ==> self.cold_count + self.frozen_count <= usize::MAX,
        ensures
            r == (self.total_regions > 0 && self.cold_count + self.frozen_count > self.total_regions
                / 2),
    {
        if self.total_regions == 0 {
            return false;
        }
        let inactive = self.cold_count + self.frozen_count;
        inactive > self.total_regions / 2
    }

    /// The number of active regions (hot + warm).
    pub fn active_count(&self) -> (n: usize)
        requires
            self.hot_count + self.warm_count <= usize::MAX,
        ensures
            n == self.hot_count + self.warm_count,
    {
        self.hot_count + self.warm_count
    }

    /// The number of inactive regions (cold + frozen).
    pub fn inactive_count(&self) -> (n: usize)
        requires
            self.cold_count + self.frozen_count <= usize::MAX,
        ensures
            n == self.cold_count + self.frozen_count,
    {
        self.cold_count + self.frozen_count
    }
}

proof fn lemma_count_sum_prefix_le(s: Seq<HotnessSample>, i: int)
    requires
        0 <= i <= s.len(),
    ensures
        count_sum(s.take(i)) <= count_sum(s),
    decreases s.len() - i,
{
    if i < s.len() {
        lemma_count_sum_prefix_le(s, i + 1);
        assert(s.take(i + 1).drop_last() =~= s.take(i));
    } else {
        assert(s.take(i) =~= s);
    }
}

/// Every region of a snapshot is counted in exactly one temperature class, and
/// the smallest access count is at most the average, which is at most the
/// largest.
pub proof fn lemma_summary_consistent(snapshot: HotnessSnapshot)
    ensures
        count_with(snapshot.samples@, Temperature::Hot) + count_with(
            snapshot.samples@,
            Temperature::Warm,
        ) + count_with(snapshot.samples@, Temperature::Cold) + count_with(
            snapshot.samples@,
            Temperature::Frozen,
        ) == snapshot.samples@.len(),
        snapshot.samples@.len() > 0 ==> count_min(snapshot.samples@) <= count_sum(snapshot.samples@)
            / snapshot.samples@.len() <= count_max(snapshot.samples@),
{
    let s = snapshot.samples@;
    lemma_counts_partition(s);
    lemma_min_le_max_sum(s);
    if s.len() > 0 {
        let n = s.len() as int;
        let mn = count_min(s) as int;
        let mx = count_max(s) as int;
        let sm = count_sum(s) as int;
        assert(mn <= sm / n <= mx) by (nonlinear_arith)
            requires
                n > 0,
                mn * n <= sm,
                sm <= mx * n,
                mn >= 0,
        ;
    }
}

} // verus!
