//! Per-access records used by chunk hotness tracking.
use vstd::prelude::*;

verus! {

/// One access to a chunk: when it happened and how many bytes it touched.
#[derive(Debug, Clone, Copy, PartialEq, Eq, Structural)]
pub struct AccessRecord {
    /// Unix timestamp (seconds) of the access.
    pub timestamp: u64,
    /// Size of the access in bytes.
    pub size: usize,
}

} // verus!
