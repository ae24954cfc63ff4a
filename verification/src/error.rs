//! The unified error type and helpers that build error messages.
use vstd::prelude::*;

use crate::types::TierId;

verus! {

/// Unified error type for GhostPages operations.
///
/// Each variant corresponds to a specific subsystem or failure mode.
#[derive(Debug)]
pub enum GhostError {
    /// Chunk not found in any tier.
    ChunkNotFound(String),
    /// Specified memory tier is at capacity.
    TierFull(TierId),
    /// Specified memory tier is unavailable.
    TierUnavailable(TierId),
    /// Data integrity check failed (checksum mismatch).
    ChecksumMismatch(String),
    /// Data corruption detected during read or write.
    CorruptionDetected(String),
    /// Compression or decompression failed.
    CompressionError(String),
    /// Storage backend operation failed.
    BackendError(String),
    /// IPC communication error.
    IpcError(String),
    /// System ran out of memory.
    OutOfMemory,
    /// Operation exceeded time limit.
    Timeout,
    /// Async pipeline error.
    PipelineError(String),
    /// Operation was cancelled.
    Cancelled,
    /// Trace replay error.
    ReplayError(String),
    /// Invalid configuration.
    InvalidConfig(String),
    /// Invalid state transition attempted.
    InvalidStateTransition { from: String, to: String },
    /// Generic internal error.
    Internal(String),
}

/// Result type alias for GhostPages operations.
pub type GhostResult<T> = Result<T, GhostError>;

/// A new string holding the text of `a`.
pub fn text(a: &str) -> (r: String)
    ensures
        r@ == a@,
{
    String::from_str(a)
}

/// A new string holding `a` followed by `b`.
pub fn join2(a: &str, b: &str) -> (r: String)
    ensures
        r@ == a@ + b@,
{
    let mut s = String::from_str(a);
    s.append(b);
    s
}

/// A new string holding `a`, `b` and `c` in that order.
pub fn join3(a: &str, b: &str, c: &str) -> (r: String)
    ensures
        r@ == a@ + b@ + c@,
{
    let mut s = String::from_str(a);
    s.append(b);
    s.append(c);
    s
}

/// Whether two strings hold the same text.
pub fn same_text(a: &str, b: &str) -> (r: bool)
    ensures
        r == (a@ == b@),
{
    let x = a.to_owned();
    let y = b.to_owned();
    x.eq(&y)
}

/// Decimal digits of a number, most significant first, without leading zeros
/// ("0" for zero).
pub open spec fn decimal_digits(n: nat) -> Seq<char>
    decreases n,
{
    if n < 10 {
        seq![(n + 48) as char]
    } else {
        decimal_digits(n / 10).push(((n % 10) + 48) as char)
    }
}

/// The single-character text for a decimal digit.
pub fn digit_text(d: u64) -> (s: &'static str)
    requires
        d < 10,
    ensures
        s@ == seq![(d + 48) as char],
{
    proof {
        reveal_strlit("0");
        reveal_strlit("1");
        reveal_strlit("2");
        reveal_strlit("3");
        reveal_strlit("4");
        reveal_strlit("5");
        reveal_strlit("6");
        reveal_strlit("7");
        reveal_strlit("8");
        reveal_strlit("9");
    }
    if d == 0 {
        "0"
    } else if d == 1 {
        "1"
    } else if d == 2 {
        "2"
    } else if d == 3 {
        "3"
    } else if d == 4 {
        "4"
    } else if d == 5 {
        "5"
    } else if d == 6 {
        "6"
    } else if d == 7 {
        "7"
    } else if d == 8 {
        "8"
    } else {
        "9"
    }
}

/// Append the decimal digits of `n` to `s`.
pub fn append_decimal(s: &mut String, n: u64)
    ensures
        final(s)@ == old(s)@ + decimal_digits(n as nat),
    decreases n,
{
    if n < 10 {
        s.append(digit_text(n));
    } else {
        append_decimal(s, n / 10);
        s.append(digit_text(n % 10));
    }
}

/// The decimal text of `n`.
pub fn decimal_text(n: u64) -> (r: String)
    ensures
        r@ == decimal_digits(n as nat),
{
    let mut s = String::new();
    append_decimal(&mut s, n);
    assert(s@ =~= decimal_digits(n as nat));
    s
}

/// Decimal digits of a number as ASCII bytes, most significant first.
pub open spec fn decimal_bytes(n: nat) -> Seq<u8>
    decreases n,
{
    if n < 10 {
        seq![(n + 48) as u8]
    } else {
        decimal_bytes(n / 10).push(((n % 10) + 48) as u8)
    }
}

/// Append the decimal digits of `n` to `v` as ASCII bytes.
pub fn append_decimal_bytes(v: &mut Vec<u8>, n: u64)
    ensures
        final(v)@ == old(v)@ + decimal_bytes(n as nat),
    decreases n,
{
    if n < 10 {
        let d: u8 = (n + 48) as u8;
        v.push(d);
        assert(v@ =~= old(v)@ + decimal_bytes(n as nat));
    } else {
        append_decimal_bytes(v, n / 10);
        let d: u8 = (n % 10 + 48) as u8;
        v.push(d);
        assert(v@ =~= old(v)@ + decimal_bytes(n as nat));
    }
}

/// The text that `{:?}` prints for a string: the string in double quotes with
/// special characters escaped.
pub uninterp spec fn debug_str_text(s: Seq<char>) -> Seq<char>;

/// `<str as Debug>::fmt` through `format!("{:?}", s)`: the quoted, escaped
/// text of `s`, a function of the characters of `s` alone.
#[verifier::external_body]
pub(crate) fn debug_text(s: &str) -> (r: String)
    ensures
        r@ == debug_str_text(s@),
{
    format!("{:?}", s)
}

/// The variant name of a tier, as `Debug` shows it.
pub open spec fn tier_debug_name(t: TierId) -> Seq<char> {
    match t {
        TierId::Ram => "Ram"@,
        TierId::GpuVram => "GpuVram"@,
        TierId::Disk => "Disk"@,
        TierId::Simulation => "Simulation"@,
    }
}

/// The human-readable message of an error.
pub open spec fn error_message(e: GhostError) -> Seq<char> {
    match e {
        GhostError::ChunkNotFound(s) => "chunk not found: "@ + s@,
        GhostError::TierFull(t) => "tier "@ + tier_debug_name(t) + " is full"@,
        GhostError::TierUnavailable(t) => "tier "@ + tier_debug_name(t) + " unavailable"@,
        GhostError::ChecksumMismatch(s) => "checksum mismatch for chunk "@ + s@,
        GhostError::CorruptionDetected(s) => "corruption detected in "@ + s@,
        GhostError::CompressionError(s) => "compression error: "@ + s@,
        GhostError::BackendError(s) => "backend error: "@ + s@,
        GhostError::IpcError(s) => "IPC error: "@ + s@,
        GhostError::OutOfMemory => "out of memory"@,
        GhostError::Timeout => "operation timed out"@,
        GhostError::PipelineError(s) => "pipeline error: "@ + s@,
        GhostError::Cancelled => "operation cancelled"@,
        GhostError::ReplayError(s) => "trace replay error: "@ + s@,
        GhostError::InvalidConfig(s) => "invalid configuration: "@ + s@,
        GhostError::InvalidStateTransition { from, to } => "invalid state transition from "@
            + debug_str_text(from@) + " to "@ + debug_str_text(to@),
        GhostError::Internal(s) => "internal error: "@ + s@,
    }
}

/// The variant name of a tier.
fn tier_debug_str(t: TierId) -> (s: &'static str)
    ensures
        s@ == tier_debug_name(t),
{
    match t {
        TierId::Ram => "Ram",
        TierId::GpuVram => "GpuVram",
        TierId::Disk => "Disk",
        TierId::Simulation => "Simulation",
    }
}

impl GhostError {
    /// The human-readable message of this error, as it is displayed.
    pub fn display_string(&self) -> (m: String)
        ensures
            m@ == error_message(*self),
    {
        match self {
            GhostError::ChunkNotFound(s) => join2("chunk not found: ", s.as_str()),
            GhostError::TierFull(t) => join3("tier ", tier_debug_str(*t), " is full"),
            GhostError::TierUnavailable(t) => join3("tier ", tier_debug_str(*t), " unavailable"),
            GhostError::ChecksumMismatch(s) => join2("checksum mismatch for chunk ", s.as_str()),
            GhostError::CorruptionDetected(s) => join2("corruption detected in ", s.as_str()),
            GhostError::CompressionError(s) => join2("compression error: ", s.as_str()),
            GhostError::BackendError(s) => join2("backend error: ", s.as_str()),
            GhostError::IpcError(s) => join2("IPC error: ", s.as_str()),
            GhostError::OutOfMemory => text("out of memory"),
            GhostError::Timeout => text("operation timed out"),
            GhostError::PipelineError(s) => join2("pipeline error: ", s.as_str()),
            GhostError::Cancelled => text("operation cancelled"),
            GhostError::ReplayError(s) => join2("trace replay error: ", s.as_str()),
            GhostError::InvalidConfig(s) => join2("invalid configuration: ", s.as_str()),
            GhostError::InvalidStateTransition { from, to } => {
                let a = debug_text(from.as_str());
                let b = debug_text(to.as_str());
                let mut m = join2("invalid state transition from ", a.as_str());
                m.append(" to ");
                m.append(b.as_str());
                m
            },
            GhostError::Internal(s) => join2("internal error: ", s.as_str()),
        }
    }
}

} // verus!
