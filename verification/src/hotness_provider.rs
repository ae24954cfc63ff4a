//! Hotness data: sampled address ranges, their access counts and temperature
//! classes, and the provider abstraction that produces them.
use vstd::prelude::*;

use crate::error::GhostError;

verus! {

/// Snapshot of memory hotness from a provider.
#[derive(Debug, Clone)]
pub struct HotnessSnapshot {
    /// Sampled address ranges with their access data.
    pub samples: Vec<HotnessSample>,
    /// Timestamp when the sample was taken (seconds since epoch).
    pub timestamp: u64,
}

/// A single hotness sample for an address range.
#[derive(Debug, Clone, Copy)]
pub struct HotnessSample {
    /// The memory address range this sample covers.
    pub address_range: AddressRange,
    /// Number of accesses observed in this range.
    pub access_count: u64,
    /// Temperature classification based on access frequency.
    pub temperature: Temperature,
}

/// A memory address range (inclusive start, exclusive end).
#[derive(Debug, Clone, Copy, PartialEq, Eq, Structural)]
pub struct AddressRange {
    /// Start address (inclusive).
    pub start: u64,
    /// End address (exclusive).
    pub end: u64,
}

impl AddressRange {
    /// A new address range.
    pub fn new(start: u64, end: u64) -> (r: AddressRange)
        ensures
            r.start == start,
            r.end == end,
    {
        AddressRange { start, end }
    }

    /// The size of this range in bytes; zero when `end` lies below `start`.
    pub fn size(&self) -> (n: u64)
        ensures
            n == (if self.end >= self.start {
                (self.end - self.start) as u64
            } else {
                0u64
            }),
    {
        self.end.saturating_sub(self.start)
    }
}

/// Temperature classification for a memory region.
#[derive(Debug, Clone, Copy, PartialEq, Eq, Structural)]
pub enum Temperature {
    /// Hot: very frequently accessed.
    Hot,
    /// Warm: moderately accessed.
    Warm,
    /// Cold: rarely accessed.
    Cold,
    /// Frozen: essentially never accessed.
    Frozen,
}

/// The class an access count falls in: at least 100 is hot, at least 20 warm,
/// at least 1 cold, 0 frozen.
pub open spec fn temperature_of_count(count: u64) -> Temperature {
    if count >= 100 {
        Temperature::Hot
    } else if count >= 20 {
        Temperature::Warm
    } else if count >= 1 {
        Temperature::Cold
    } else {
        Temperature::Frozen
    }
}

/// Heat rank of a temperature: frozen 0, cold 1, warm 2, hot 3.
pub open spec fn temperature_rank(t: Temperature) -> u8 {
    match t {
        Temperature::Frozen => 0,
        Temperature::Cold => 1,
        Temperature::Warm => 2,
        Temperature::Hot => 3,
    }
}

/// The lower-case display name of a temperature.
pub open spec fn temperature_name(t: Temperature) -> Seq<char> {
    match t {
        Temperature::Hot => "hot"@,
        Temperature::Warm => "warm"@,
        Temperature::Cold => "cold"@,
        Temperature::Frozen => "frozen"@,
    }
}

impl Temperature {
    /// Classify an access count: `>= 100` hot, `>= 20` warm, `>= 1` cold,
    /// `0` frozen.
    pub fn from_access_count(count: u64) -> (t: Temperature)
        ensures
            t == temperature_of_count(count),
    {
        if count >= 100 {
            Temperature::Hot
        } else if count >= 20 {
            Temperature::Warm
        } else if count >= 1 {
            Temperature::Cold
        } else {
            Temperature::Frozen
        }
    }

    /// Heat rank: frozen 0, cold 1, warm 2, hot 3. A warming region moves up
    /// this rank, a cooling one down.
    pub fn value(&self) -> (v: u8)
        ensures
            v == temperature_rank(*self),
    {
        match self {
            Temperature::Frozen => 0,
            Temperature::Cold => 1,
            Temperature::Warm => 2,
            Temperature::Hot => 3,
        }
    }

    /// The lower-case display name of this temperature.
    pub fn as_str(&self) -> (s: &'static str)
        ensures
            s@ == temperature_name(*self),
    {
        match self {
            Temperature::Hot => "hot",
            Temperature::Warm => "warm",
            Temperature::Cold => "cold",
            Temperature::Frozen => "frozen",
        }
    }
}

/// More accesses never give a colder class.
pub proof fn lemma_temperature_monotone(a: u64, b: u64)
    requires
        a <= b,
    ensures
        temperature_rank(temperature_of_count(a)) <= temperature_rank(temperature_of_count(b)),
{
}

/// The samples of a snapshot with temperature `t`, in sample order.
pub open spec fn samples_with(s: Seq<HotnessSample>, t: Temperature) -> Seq<HotnessSample>
    decreases s.len(),
{
    if s.len() == 0 {
        Seq::empty()
    } else if s.last().temperature == t {
        samples_with(s.drop_last(), t).push(s.last())
    } else {
        samples_with(s.drop_last(), t)
    }
}

/// The cold and frozen samples of a snapshot, in sample order.
pub open spec fn inactive_samples_of(s: Seq<HotnessSample>) -> Seq<HotnessSample>
    decreases s.len(),
{
    if s.len() == 0 {
        Seq::empty()
    } else if s.last().temperature == Temperature::Cold || s.last().temperature
        == Temperature::Frozen {
        inactive_samples_of(s.drop_last()).push(s.last())
    } else {
        inactive_samples_of(s.drop_last())
    }
}

impl HotnessSnapshot {
    /// The samples with temperature `t`, in sample order.
    pub fn samples_with_temperature(&self, t: Temperature) -> (r: Vec<HotnessSample>)
        ensures
            r@ == samples_with(self.samples@, t),
    {
        let n = self.samples.len();
        let mut out: Vec<HotnessSample> = Vec::new();
        let mut i: usize = 0;
        while i < n
            invariant
                n == self.samples@.len(),
                0 <= i <= n,
                out@ == samples_with(self.samples@.take(i as int), t),
            decreases n - i,
        {
            let s = self.samples[i];
            proof {
                assert(self.samples@.take(i + 1).drop_last() =~= self.samples@.take(i as int));
            }
            if s.temperature == t {
                out.push(s);
            }
            i = i + 1;
        }
        assert(self.samples@.take(n as int) =~= self.samples@);
        out
    }

    /// The cold and frozen samples, in sample order.
    pub fn inactive_samples(&self) -> (r: Vec<HotnessSample>)
        ensures
            r@ == inactive_samples_of(self.samples@),
    {
        let n = self.samples.len();
        let mut out: Vec<HotnessSample> = Vec::new();
        let mut i: usize = 0;
        while i < n
            invariant
                n == self.samples@.len(),
                0 <= i <= n,
                out@ == inactive_samples_of(self.samples@.take(i as int)),
            decreases n - i,
        {
            let s = self.samples[i];
            proof {
                assert(self.samples@.take(i + 1).drop_last() =~= self.samples@.take(i as int));
            }
            if s.temperature == Temperature::Cold || s.temperature == Temperature::Frozen {
                out.push(s);
            }
            i = i + 1;
        }
        assert(self.samples@.take(n as int) =~= self.samples@);
        out
    }
}

/// A source of hotness data (for instance a kernel access monitor or a
/// simulation). Implementations live outside this library.
pub trait HotnessProvider {
    /// Sample current hotness data, or report why sampling failed.
    fn sample(&self) -> Result<HotnessSnapshot, GhostError>;

    /// The provider name (for logging/debugging).
    fn provider_name(&self) -> &str;

    /// Whether the provider can produce data on this system.
    fn is_available(&self) -> bool;
}

} // verus!
