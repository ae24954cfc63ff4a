//! Confidence levels for temperature classifications and the integer
//! measurements that the confidence score is built from: how long the data
//! was observed and how often region temperatures changed.
use vstd::prelude::*;

use crate::hotness_history::first_sample_for;
use crate::hotness_provider::{AddressRange, HotnessSample, HotnessSnapshot, Temperature};

verus! {

/// Confidence level for a hotness classification.
#[derive(Debug, Clone, Copy, PartialEq, Eq, Structural)]
pub enum ConfidenceLevel {
    /// High confidence (score >= 0.8)
    High,
    /// Medium confidence (score >= 0.5)
    Medium,
    /// Low confidence (score >= 0.2)
    Low,
    /// Unknown/very low confidence (score < 0.2)
    Unknown,
}

impl ConfidenceLevel {
    /// The lower-case display name of this level.
    pub fn as_str(&self) -> (s: &'static str)
        ensures
            s@ == (match *self {
                ConfidenceLevel::High => "high"@,
                ConfidenceLevel::Medium => "medium"@,
                ConfidenceLevel::Low => "low"@,
                ConfidenceLevel::Unknown => "unknown"@,
            }),
    {
        match self {
            ConfidenceLevel::High => "high",
            ConfidenceLevel::Medium => "medium",
            ConfidenceLevel::Low => "low",
            ConfidenceLevel::Unknown => "unknown",
        }
    }
}

/// The earliest timestamp of a non-empty history.
pub open spec fn earliest(h: Seq<HotnessSnapshot>) -> u64
    decreases h.len(),
{
    if h.len() <= 1 {
        h[0].timestamp
    } else {
        let m = earliest(h.drop_last());
        if h.last().timestamp < m {
            h.last().timestamp
        } else {
            m
        }
    }
}

/// The latest timestamp of a non-empty history.
pub open spec fn latest(h: Seq<HotnessSnapshot>) -> u64
    decreases h.len(),
{
    if h.len() <= 1 {
        h[0].timestamp
    } else {
        let m = latest(h.drop_last());
        if h.last().timestamp > m {
            h.last().timestamp
        } else {
            m
        }
    }
}

/// Seconds spanned by the history and the current snapshot: from the earliest
/// history timestamp to the latest of all timestamps, saturating at zero; zero
/// without history.
pub open spec fn observation_span(snapshot: HotnessSnapshot, h: Seq<HotnessSnapshot>) -> u64 {
    if h.len() == 0 {
        0
    } else {
        let hi = if snapshot.timestamp > latest(h) {
            snapshot.timestamp
        } else {
            latest(h)
        };
        if hi >= earliest(h) {
            (hi - earliest(h)) as u64
        } else {
            0
        }
    }
}

/// Temperature changes met walking from `prev` through the history from the
/// newest snapshot to the oldest, counting only snapshots that sample `region`.
pub open spec fn changes_walking_back(
    h: Seq<HotnessSnapshot>,
    region: AddressRange,
    prev: Temperature,
) -> nat
    decreases h.len(),
{
    if h.len() == 0 {
        0
    } else {
        match first_sample_for(h.last().samples@, region) {
            Some(smp) => (if smp.temperature != prev {
                1nat
            } else {
                0nat
            }) + changes_walking_back(h.drop_last(), region, smp.temperature),
            None => changes_walking_back(h.drop_last(), region, prev),
        }
    }
}

/// Temperature changes summed over the regions of the current snapshot, each
/// region's walk starting from its current temperature.
pub open spec fn total_region_changes(s: Seq<HotnessSample>, h: Seq<HotnessSnapshot>) -> nat
    decreases s.len(),
{
    if s.len() == 0 {
        0
    } else {
        total_region_changes(s.drop_last(), h) + changes_walking_back(
            h,
            s.last().address_range,
            s.last().temperature,
        )
    }
}

proof fn lemma_changes_bounded(h: Seq<HotnessSnapshot>, region: AddressRange, prev: Temperature)
    ensures
        changes_walking_back(h, region, prev) <= h.len(),
    decreases h.len(),
{
    if h.len() > 0 {
        lemma_changes_bounded(h.drop_last(), region, prev);
        match first_sample_for(h.last().samples@, region) {
            Some(smp) => lemma_changes_bounded(h.drop_last(), region, smp.temperature),
            None => {},
        }
    }
}

proof fn lemma_total_bounded(s: Seq<HotnessSample>, h: Seq<HotnessSnapshot>)
    ensures
        total_region_changes(s, h) <= s.len() * h.len(),
    decreases s.len(),
{
    if s.len() > 0 {
        lemma_total_bounded(s.drop_last(), h);
        lemma_changes_bounded(h, s.last().address_range, s.last().temperature);
        let a = total_region_changes(s.drop_last(), h);
        let b = changes_walking_back(h, s.last().address_range, s.last().temperature);
        let n = s.len();
        let m = h.len();
        assert(a + b <= n * m) by (nonlinear_arith)
            requires
                a <= (n - 1) * m,
                b <= m,
                n >= 1,
        ;
    }
}

/// The first sample of `samples` covering exactly `region`.
fn first_match(samples: &Vec<HotnessSample>, region: &AddressRange) -> (r: Option<HotnessSample>)
    ensures
        r == first_sample_for(samples@, *region),
{
    let n = samples.len();
    let mut i: usize = 0;
    assert(samples@.skip(0) =~= samples@);
    while i < n
        invariant
            n == samples@.len(),
            0 <= i <= n,
            first_sample_for(samples@, *region) == first_sample_for(samples@.skip(i as int), *region),
        decreases n - i,
    {
        let s = samples[i];
        proof {
            assert(samples@.skip(i as int)[0] == s);
            assert(samples@.skip(i as int).drop_first() =~= samples@.skip(i + 1));
        }
        if s.address_range == *region {
            return Some(s);
        }
        i = i + 1;
    }
    None
}

/// Seconds spanned by the history and the current snapshot: from the earliest
/// history timestamp to the latest timestamp of either, saturating at zero;
/// zero without history.
pub fn observation_duration(snapshot: &HotnessSnapshot, history: &[HotnessSnapshot]) -> (d: u64)
    ensures
        d == observation_span(*snapshot, history@),
{
    let n = history.len();
    if n == 0 {
        return 0;
    }
    let mut lo: u64 = history[0].timestamp;
    let mut hi: u64 = history[0].timestamp;
    let mut i: usize = 1;
    while i < n
        invariant
            n == history@.len(),
            1 <= i <= n,
            lo == earliest(history@.take(i as int)),
            hi == latest(history@.take(i as int)),
        decreases n - i,
    {
        proof {
            assert(history@.take(i + 1).drop_last() =~= history@.take(i as int));
        }
        let t = history[i].timestamp;
        if t < lo {
            lo = t;
        }
        if t > hi {
            hi = t;
        }
        i = i + 1;
    }
    assert(history@.take(n as int) =~= history@);
    let top = if snapshot.timestamp > hi {
        snapshot.timestamp
    } else {
        hi
    };
    top.saturating_sub(lo)
}

/// Temperature changes of `region` walking from `current` through the history
/// from newest to oldest.
fn region_changes(history: &[HotnessSnapshot], region: &AddressRange, current: Temperature) -> (c:
    u64)
    ensures
        c == changes_walking_back(history@, *region, current),
{
    let n = history.len();
    let mut j: usize = n;
    let mut prev = current;
    let mut acc: u64 = 0;
    proof {
        lemma_changes_bounded(history@, *region, current);
        assert(history@.take(n as int) =~= history@);
    }
    while j > 0
        invariant
            n == history@.len(),
            0 <= j <= n,
            acc + changes_walking_back(history@.take(j as int), *region, prev)
                == changes_walking_back(history@, *region, current),
            acc <= n - j,
        decreases j,
    {
        proof {
            assert(history@.take(j as int).drop_last() =~= history@.take(j - 1));
            assert(history@.take(j as int).last() == history@[j - 1]);
            lemma_changes_bounded(history@.take(j - 1), *region, prev);
        }
        match first_match(&history[j - 1].samples, region) {
            Some(smp) => {
                if smp.temperature != prev {
                    acc = acc + 1;
                }
                prev = smp.temperature;
            },
            None => {},
        }
        j = j - 1;
    }
    acc
}

/// The number of temperature changes summed over the regions of the current
/// snapshot: for each of its samples, the changes met walking from the
/// sample's temperature through the history from newest to oldest, counting
/// only snapshots that sample the same range.
pub fn temperature_change_total(snapshot: &HotnessSnapshot, history: &[HotnessSnapshot]) -> (c:
    u128)
    ensures
        c == total_region_changes(snapshot.samples@, history@),
{
    let n = snapshot.samples.len();
    let hn = history.len();
    let mut acc: u128 = 0;
    let mut i: usize = 0;
    while i < n
        invariant
            n == snapshot.samples@.len(),
            hn == history@.len(),
            0 <= i <= n,
            acc == total_region_changes(snapshot.samples@.take(i as int), history@),
        decreases n - i,
    {
        let smp = snapshot.samples[i];
        proof {
            assert(snapshot.samples@.take(i + 1).drop_last() =~= snapshot.samples@.take(i as int));
            lemma_total_bounded(snapshot.samples@.take(i + 1), history@);
            let a = (i + 1) as int;
            let b = history@.len() as int;
            assert(a * b <= 0xffff_ffff_ffff_ffff * 0xffff_ffff_ffff_ffff) by (nonlinear_arith)
                requires
                    0 <= a <= 0xffff_ffff_ffff_ffff,
                    0 <= b <= 0xffff_ffff_ffff_ffff,
            ;
        }
        let c = region_changes(history, &smp.address_range, smp.temperature);
        acc = acc + (c as u128);
        i = i + 1;
    }
    assert(snapshot.samples@.take(n as int) =~= snapshot.samples@);
    acc
}

} // verus!
