//! A bounded rolling history of hotness snapshots and the temperature trend of
//! a region over it.
use vstd::prelude::*;

use crate::hotness_provider::{
    temperature_rank, AddressRange, HotnessSample, HotnessSnapshot, Temperature,
};

verus! {

/// Temperature trend for a region.
#[derive(Debug, Clone, Copy, PartialEq, Eq, Structural)]
pub enum TemperatureTrend {
    /// Temperature has remained stable.
    Stable(Temperature),
    /// Temperature is warming up (first, last).
    Warming(Temperature, Temperature),
    /// Temperature is cooling down (first, last).
    Cooling(Temperature, Temperature),
    /// Temperature is flapping (unstable).
    Flapping,
}

/// Access pattern trend for a region.
#[derive(Debug, Clone, Copy, PartialEq, Eq, Structural)]
pub enum AccessTrend {
    /// Access count is increasing.
    Increasing,
    /// Access count is decreasing.
    Decreasing,
    /// Access count is stable.
    Stable,
    /// Access count is volatile.
    Volatile,
}

/// The first sample of `s` that covers exactly `region`.
pub open spec fn first_sample_for(s: Seq<HotnessSample>, region: AddressRange) -> Option<
    HotnessSample,
>
    decreases s.len(),
{
    if s.len() == 0 {
        None
    } else if s[0].address_range == region {
        Some(s[0])
    } else {
        first_sample_for(s.drop_first(), region)
    }
}

/// The temperature of `region` in each snapshot that samples it, oldest first.
pub open spec fn region_temperature_seq(h: Seq<HotnessSnapshot>, region: AddressRange) -> Seq<
    Temperature,
>
    decreases h.len(),
{
    if h.len() == 0 {
        Seq::empty()
    } else {
        let rest = region_temperature_seq(h.drop_last(), region);
        match first_sample_for(h.last().samples@, region) {
            Some(smp) => rest.push(smp.temperature),
            None => rest,
        }
    }
}

/// The access count of `region` in each snapshot that samples it, oldest first.
pub open spec fn region_count_seq(h: Seq<HotnessSnapshot>, region: AddressRange) -> Seq<u64>
    decreases h.len(),
{
    if h.len() == 0 {
        Seq::empty()
    } else {
        let rest = region_count_seq(h.drop_last(), region);
        match first_sample_for(h.last().samples@, region) {
            Some(smp) => rest.push(smp.access_count),
            None => rest,
        }
    }
}

/// The number of positions where a temperature differs from the one before it.
pub open spec fn temperature_changes(t: Seq<Temperature>) -> nat
    decreases t.len(),
{
    if t.len() < 2 {
        0
    } else {
        temperature_changes(t.drop_last()) + (if t[t.len() - 1] != t[t.len() - 2] {
            1nat
        } else {
            0nat
        })
    }
}

/// The trend of a sequence of temperatures: flapping when more than half of
/// the positions changed, otherwise warming, cooling or stable by comparing
/// the first and the last temperature; stable at frozen when there is no data.
pub open spec fn trend_of(t: Seq<Temperature>) -> TemperatureTrend {
    if t.len() == 0 {
        TemperatureTrend::Stable(Temperature::Frozen)
    } else if temperature_changes(t) > t.len() / 2 {
        TemperatureTrend::Flapping
    } else if temperature_rank(t.last()) > temperature_rank(t[0]) {
        TemperatureTrend::Warming(t[0], t.last())
    } else if temperature_rank(t.last()) < temperature_rank(t[0]) {
        TemperatureTrend::Cooling(t[0], t.last())
    } else {
        TemperatureTrend::Stable(t.last())
    }
}

/// The first sample of `samples` covering exactly `region`.
fn find_sample(samples: &Vec<HotnessSample>, region: &AddressRange) -> (r: Option<HotnessSample>)
    ensures
        r == first_sample_for(samples@, *region),
{
    let n = samples.len();
    let mut i: usize = 0;
    assert(samples@.skip(0) =~= samples@);
    while i < n
        invariant
            n == samples@.len(),
            0 <= i <= n,
            first_sample_for(samples@, *region) == first_sample_for(samples@.skip(i as int), *region),
        decreases n - i,
    {
        let s = samples[i];
        proof {
            assert(samples@.skip(i as int)[0] == s);
            assert(samples@.skip(i as int).drop_first() =~= samples@.skip(i + 1));
        }
        if s.address_range == *region {
            return Some(s);
        }
        i = i + 1;
    }
    None
}

/// History of hotness snapshots for trend analysis, oldest first, holding at
/// most `max_snapshots` of them.
#[derive(Debug, Clone)]
pub struct HotnessHistory {
    snapshots: Vec<HotnessSnapshot>,
    max_snapshots: usize,
}

impl HotnessHistory {
    /// The retained snapshots, oldest first.
    pub closed spec fn history(&self) -> Seq<HotnessSnapshot> {
        self.snapshots@
    }

    /// The number of snapshots retained at most.
    pub closed spec fn capacity(&self) -> nat {
        self.max_snapshots as nat
    }

    /// Well-formedness: the capacity is at least one and not exceeded.
    pub open spec fn wf(&self) -> bool {
        &&& self.capacity() >= 1
        &&& self.history().len() <= self.capacity()
    }

    /// A new, empty history that retains `max_snapshots` snapshots (at least one).
    pub fn new(max_snapshots: usize) -> (h: HotnessHistory)
        ensures
            h.wf(),
            h.history().len() == 0,
            h.capacity() == (if max_snapshots >= 1 {
                max_snapshots as nat
            } else {
                1nat
            }),
    {
        let cap = if max_snapshots >= 1 {
            max_snapshots
        } else {
            1
        };
        HotnessHistory { snapshots: Vec::new(), max_snapshots: cap }
    }

    /// Append a snapshot; when the history is full the oldest one is dropped.
    pub fn push(&mut self, snapshot: HotnessSnapshot)
        requires
            old(self).wf(),
        ensures
            final(self).wf(),
            final(self).capacity() == old(self).capacity(),
            old(self).history().len() < old(self).capacity() ==> final(self).history() == old(
                self,
            ).history().push(snapshot),
            old(self).history().len() == old(self).capacity() ==> final(self).history() == old(
                self,
            ).history().push(snapshot).drop_first(),
    {
        let ghost pushed = self.snapshots@.push(snapshot);
        self.snapshots.push(snapshot);
        if self.snapshots.len() > self.max_snapshots {
            self.snapshots.remove(0);
            assert(self.snapshots@ =~= pushed.drop_first());
        }
    }

    /// The temperature of `region` in each retained snapshot that samples it,
    /// oldest first (the first sample covering exactly `region` counts).
    pub fn region_temperatures(&self, region: &AddressRange) -> (r: Vec<Temperature>)
        ensures
            r@ == region_temperature_seq(self.history(), *region),
    {
        let n = self.snapshots.len();
        let mut out: Vec<Temperature> = Vec::new();
        let mut i: usize = 0;
        while i < n
            invariant
                n == self.history().len(),
                0 <= i <= n,
                out@ == region_temperature_seq(self.history().take(i as int), *region),
            decreases n - i,
        {
            proof {
                assert(self.history().take(i + 1).drop_last() =~= self.history().take(i as int));
            }
            match find_sample(&self.snapshots[i].samples, region) {
                Some(s) => {
                    out.push(s.temperature);
                },
                None => {},
            }
            i = i + 1;
        }
        assert(self.history().take(n as int) =~= self.history());
        out
    }

    /// The access count of `region` in each retained snapshot that samples it,
    /// oldest first (the first sample covering exactly `region` counts).
    pub fn region_access_counts(&self, region: &AddressRange) -> (r: Vec<u64>)
        ensures
            r@ == region_count_seq(self.history(), *region),
    {
        let n = self.snapshots.len();
        let mut out: Vec<u64> = Vec::new();
        let mut i: usize = 0;
        while i < n
            invariant
                n == self.history().len(),
                0 <= i <= n,
                out@ == region_count_seq(self.history().take(i as int), *region),
            decreases n - i,
        {
            proof {
                assert(self.history().take(i + 1).drop_last() =~= self.history().take(i as int));
            }
            match find_sample(&self.snapshots[i].samples, region) {
                Some(s) => {
                    out.push(s.access_count);
                },
                None => {},
            }
            i = i + 1;
        }
        assert(self.history().take(n as int) =~= self.history());
        out
    }

    /// The temperature trend of `region` over the retained history.
    pub fn get_temperature_trend(&self, region: &AddressRange) -> (t: TemperatureTrend)
        ensures
            t == trend_of(region_temperature_seq(self.history(), *region)),
    {
        let temps = self.region_temperatures(region);
        let n = temps.len();
        if n == 0 {
            return TemperatureTrend::Stable(Temperature::Frozen);
        }
        let mut changes: usize = 0;
        let mut i: usize = 1;
        while i < n
            invariant
                n == temps@.len(),
                1 <= i <= n,
                changes == temperature_changes(temps@.take(i as int)),
                changes < i,
            decreases n - i,
        {
            proof {
                assert(temps@.take(i + 1).drop_last() =~= temps@.take(i as int));
            }
            if temps[i] != temps[i - 1] {
                changes = changes + 1;
            }
            i = i + 1;
        }
        assert(temps@.take(n as int) =~= temps@);
        if changes > n / 2 {
            return TemperatureTrend::Flapping;
        }
        let first = temps[0];
        let last = temps[n - 1];
        if last.value() > first.value() {
            TemperatureTrend::Warming(first, last)
        } else if last.value() < first.value() {
            TemperatureTrend::Cooling(first, last)
        } else {
            TemperatureTrend::Stable(last)
        }
    }

    /// The number of retained snapshots.
    pub fn len(&self) -> (n: usize)
        ensures
            n == self.history().len(),
    {
        self.snapshots.len()
    }

    /// Whether no snapshot is retained.
    pub fn is_empty(&self) -> (r: bool)
        ensures
            r == (self.history().len() == 0),
    {
        self.snapshots.len() == 0
    }

    /// The retained snapshots, oldest first.
    pub fn snapshots(&self) -> (r: &[HotnessSnapshot])
        ensures
            r@ == self.history(),
    {
        self.snapshots.as_slice()
    }

    /// Drop every retained snapshot.
    pub fn clear(&mut self)
        requires
            old(self).wf(),
        ensures
            final(self).wf(),
            final(self).history().len() == 0,
            final(self).capacity() == old(self).capacity(),
    {
        self.snapshots.clear();
    }
}

/// A region whose temperature never changed over the history is stable at that
/// temperature.
pub proof fn lemma_unchanging_region_is_stable(t: Seq<Temperature>)
    requires
        t.len() > 0,
        temperature_changes(t) == 0,
    ensures
        trend_of(t) == TemperatureTrend::Stable(t[0]),
{
    lemma_no_changes_constant(t);
    assert(t.last() == t[0]);
}

/// Whatever the series, the trend compares its two ends: a series in which at
/// most half of the steps change temperature is warming from its first to its
/// last temperature exactly when the last is hotter than the first, cooling
/// exactly when it is colder, and otherwise stable at its last temperature;
/// one in which more than half of the steps change is flapping.
pub proof fn lemma_trend_compares_the_ends(t: Seq<Temperature>)
    requires
        t.len() > 0,
    ensures
        temperature_changes(t) > t.len() / 2 ==> trend_of(t) == TemperatureTrend::Flapping,
        temperature_changes(t) <= t.len() / 2 ==> {
            &&& (trend_of(t) is Warming <==> temperature_rank(t[t.len() - 1]) > temperature_rank(
                t[0],
            ))
            &&& (trend_of(t) is Cooling <==> temperature_rank(t[t.len() - 1]) < temperature_rank(
                t[0],
            ))
            &&& (trend_of(t) is Stable <==> temperature_rank(t[t.len() - 1]) == temperature_rank(
                t[0],
            ))
            &&& trend_of(t) is Warming ==> trend_of(t) == TemperatureTrend::Warming(
                t[0],
                t[t.len() - 1],
            )
            &&& trend_of(t) is Cooling ==> trend_of(t) == TemperatureTrend::Cooling(
                t[0],
                t[t.len() - 1],
            )
            &&& trend_of(t) is Stable ==> trend_of(t) == TemperatureTrend::Stable(t[t.len() - 1])
        },
{
}

proof fn lemma_no_changes_constant(t: Seq<Temperature>)
    requires
        t.len() > 0,
        temperature_changes(t) == 0,
    ensures
        forall|i: int| 0 <= i < t.len() ==> #[trigger] t[i] == t[0],
    decreases t.len(),
{
    if t.len() >= 2 {
        let p = t.drop_last();
        lemma_no_changes_constant(p);
        assert forall|i: int| 0 <= i < t.len() implies #[trigger] t[i] == t[0] by {
            if i < t.len() - 1 {
                assert(t[i] == p[i]);
            } else {
                assert(t[t.len() - 2] == p[t.len() - 2]);
            }
        }
    }
}

} // verus!
