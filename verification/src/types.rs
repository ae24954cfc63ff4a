//! Core identifiers and metadata: content-addressed chunk ids, memory tiers,
//! compression algorithms, chunk metadata and pressure levels.
use vstd::prelude::*;

use crate::clock::unix_now_secs;
use crate::state::ChunkState;

verus! {

// ─── Outside hashing and encoding ──────────────────────────────────────────────

/// The 32-byte blake3 digest of `data`.
pub uninterp spec fn blake3_digest(data: Seq<u8>) -> Seq<u8>;

/// `blake3::hash(data).as_bytes()`: the blake3 digest of `data`.
/// The digest is claimed to be a function of the input bytes alone.
#[verifier::external_body]
fn blake3_hash(data: &[u8]) -> (r: [u8; 32])
    ensures
        r@ == blake3_digest(data@),
{
    *blake3::hash(data).as_bytes()
}

/// The lower-case hexadecimal digit for a value below 16.
pub open spec fn hex_digit(n: int) -> char {
    if n < 10 {
        (n + 48) as char
    } else {
        (n + 87) as char
    }
}

/// Lower-case hexadecimal text of a byte string: two digits per byte, the high
/// nibble first.
pub open spec fn hex_lower(bytes: Seq<u8>) -> Seq<char>
    decreases bytes.len(),
{
    if bytes.len() == 0 {
        Seq::empty()
    } else {
        seq![hex_digit((bytes[0] / 16) as int), hex_digit((bytes[0] % 16) as int)] + hex_lower(bytes.drop_first())
    }
}

/// `hex::encode`: the lower-case hexadecimal text of `data`, two characters per
/// byte with the high nibble first (the crate's `byte2hex` with
/// `HEX_CHARS_LOWER`).
#[verifier::external_body]
fn hex_encode(data: Vec<u8>) -> (r: String)
    ensures
        r@ == hex_lower(data@),
{
    hex::encode(data)
}

// ─── Lexicographic order on byte strings ───────────────────────────────────────

/// `a` comes before `b` in lexicographic byte order, comparing from index `i`.
pub open spec fn bytes_lt_from(a: Seq<u8>, b: Seq<u8>, i: int) -> bool
    decreases a.len() - i,
{
    if i < 0 || i >= a.len() || i >= b.len() {
        false
    } else if a[i] != b[i] {
        a[i] < b[i]
    } else {
        bytes_lt_from(a, b, i + 1)
    }
}

proof fn lemma_lt_from_irreflexive(a: Seq<u8>, i: int)
    requires
        0 <= i,
    ensures
        !bytes_lt_from(a, a, i),
    decreases a.len() - i,
{
    if i < a.len() {
        lemma_lt_from_irreflexive(a, i + 1);
    }
}

proof fn lemma_lt_from_asymmetric(a: Seq<u8>, b: Seq<u8>, i: int)
    requires
        0 <= i,
        bytes_lt_from(a, b, i),
    ensures
        !bytes_lt_from(b, a, i),
    decreases a.len() - i,
{
    if i < a.len() && i < b.len() && a[i] == b[i] {
        lemma_lt_from_asymmetric(a, b, i + 1);
    }
}

proof fn lemma_lt_from_transitive(a: Seq<u8>, b: Seq<u8>, c: Seq<u8>, i: int)
    requires
        0 <= i,
        bytes_lt_from(a, b, i),
        bytes_lt_from(b, c, i),
    ensures
        bytes_lt_from(a, c, i),
    decreases a.len() - i,
{
    if a[i] == b[i] && b[i] == c[i] {
        lemma_lt_from_transitive(a, b, c, i + 1);
    }
}

proof fn lemma_lt_from_total(a: Seq<u8>, b: Seq<u8>, i: int)
    requires
        0 <= i,
        a.len() == b.len(),
        !bytes_lt_from(a, b, i),
        !bytes_lt_from(b, a, i),
    ensures
        forall|j: int| i <= j < a.len() ==> a[j] == b[j],
    decreases a.len() - i,
{
    if i < a.len() {
        lemma_lt_from_total(a, b, i + 1);
    }
}

// ─── Chunk identifier ──────────────────────────────────────────────────────────

/// Content-addressed chunk identifier: the blake3 digest of the chunk's data.
///
/// Identical data gives identical identifiers; the identifier of some data
/// verifies against that data.
#[derive(Debug, Clone, Copy, PartialEq, Eq, PartialOrd, Ord, Hash)]
pub struct ChunkId(pub [u8; 32]);

/// The three outcomes of comparing two keys.
#[derive(Debug, Clone, Copy, PartialEq, Eq, Structural)]
pub enum KeyOrder {
    Less,
    Equal,
    Greater,
}

/// `a` comes strictly before `b` in the byte-wise lexicographic order of the
/// identifiers (the order that `Ord` gives `ChunkId`).
pub open spec fn id_lt(a: ChunkId, b: ChunkId) -> bool {
    bytes_lt_from(a.0@, b.0@, 0)
}

/// The order on identifiers is a strict total order.
pub proof fn lemma_id_order(a: ChunkId, b: ChunkId, c: ChunkId)
    ensures
        !id_lt(a, a),
        id_lt(a, b) ==> !id_lt(b, a),
        id_lt(a, b) && id_lt(b, c) ==> id_lt(a, c),
        a == b || id_lt(a, b) || id_lt(b, a),
{
    lemma_lt_from_irreflexive(a.0@, 0);
    if id_lt(a, b) {
        lemma_lt_from_asymmetric(a.0@, b.0@, 0);
    }
    if id_lt(a, b) && id_lt(b, c) {
        lemma_lt_from_transitive(a.0@, b.0@, c.0@, 0);
    }
    if !id_lt(a, b) && !id_lt(b, a) {
        lemma_lt_from_total(a.0@, b.0@, 0);
        assert(a.0 =~= b.0);
    }
}

/// Compare two identifiers in byte-wise lexicographic order.
pub fn compare_ids(a: &ChunkId, b: &ChunkId) -> (r: KeyOrder)
    ensures
        r == KeyOrder::Less <==> id_lt(*a, *b),
        r == KeyOrder::Equal <==> *a == *b,
        r == KeyOrder::Greater <==> id_lt(*b, *a),
{
    proof {
        lemma_id_order(*a, *b, *a);
    }
    let mut i: usize = 0;
    while i < 32
        invariant
            0 <= i <= 32,
            a.0@.len() == 32,
            b.0@.len() == 32,
            forall|j: int| 0 <= j < i ==> a.0@[j] == b.0@[j],
            id_lt(*a, *b) == bytes_lt_from(a.0@, b.0@, i as int),
            id_lt(*b, *a) == bytes_lt_from(b.0@, a.0@, i as int),
        decreases 32 - i,
    {
        let x = a.0[i];
        let y = b.0[i];
        if x < y {
            return KeyOrder::Less;
        } else if y < x {
            return KeyOrder::Greater;
        }
        i = i + 1;
    }
    assert(a.0 =~= b.0);
    KeyOrder::Equal
}

/// Whether two identifiers are equal, byte for byte.
pub fn ids_equal(a: &ChunkId, b: &ChunkId) -> (r: bool)
    ensures
        r == (*a == *b),
{
    let mut i: usize = 0;
    while i < 32
        invariant
            0 <= i <= 32,
            forall|j: int| 0 <= j < i ==> a.0@[j] == b.0@[j],
        decreases 32 - i,
    {
        if a.0[i] != b.0[i] {
            return false;
        }
        i = i + 1;
    }
    assert(a.0 =~= b.0);
    true
}

impl ChunkId {
    /// Compute the identifier of `data`: its blake3 digest.
    pub fn from_data(data: &[u8]) -> (id: ChunkId)
        ensures
            id.0@ == blake3_digest(data@),
    {
        ChunkId(blake3_hash(data))
    }

    /// Whether the blake3 digest of `data` equals this identifier.
    pub fn verify(&self, data: &[u8]) -> (r: bool)
        ensures
            r == (self.0@ == blake3_digest(data@)),
    {
        let computed = ChunkId::from_data(data);
        let r = ids_equal(&computed, self);
        proof {
            if self.0@ == blake3_digest(data@) {
                assert(self.0 =~= computed.0);
            }
        }
        r
    }

    /// The first eight bytes as lower-case hexadecimal text (sixteen characters).
    pub fn short_hex(&self) -> (s: String)
        ensures
            s@ == hex_lower(self.0@.subrange(0, 8)),
    {
        let mut prefix: Vec<u8> = Vec::new();
        let mut i: usize = 0;
        while i < 8
            invariant
                0 <= i <= 8,
                prefix@ == self.0@.subrange(0, i as int),
            decreases 8 - i,
        {
            prefix.push(self.0[i]);
            assert(prefix@ =~= self.0@.subrange(0, i + 1));
            i = i + 1;
        }
        hex_encode(prefix)
    }

    /// The text shown for this identifier: its short hexadecimal form.
    pub fn display_string(&self) -> (s: String)
        ensures
            s@ == hex_lower(self.0@.subrange(0, 8)),
    {
        self.short_hex()
    }
}

/// Identifiers are content addressed: identical data always gives identical
/// identifiers, and an identifier computed from some data (the digest that
/// `from_data` returns) is one that `verify` accepts for that data.
pub proof fn lemma_chunk_id_content_addressed(d1: Seq<u8>, d2: Seq<u8>, id: ChunkId)
    ensures
        d1 == d2 ==> blake3_digest(d1) == blake3_digest(d2),
        id.0@ == blake3_digest(d1) ==> (id.0@ == blake3_digest(d2) <==> blake3_digest(d2)
            == blake3_digest(d1)),
{
}

// ─── Memory tiers ──────────────────────────────────────────────────────────────

/// Memory tier identifier, from hottest (fastest) to coldest.
#[derive(Debug, Clone, Copy, PartialEq, Eq, Structural, PartialOrd, Ord, Hash)]
pub enum TierId {
    /// System RAM (hot tier, fastest access).
    Ram,
    /// GPU VRAM (warm tier, high bandwidth).
    GpuVram,
    /// NVMe/SSD storage (cold tier, persistent).
    Disk,
    /// Simulation backend (for testing and development).
    Simulation,
}

/// Placement priority of a tier (lower is hotter).
pub open spec fn tier_priority(t: TierId) -> u8 {
    match t {
        TierId::Ram => 0,
        TierId::GpuVram => 1,
        TierId::Disk => 2,
        TierId::Simulation => 3,
    }
}

/// The display name of a tier.
pub open spec fn tier_name(t: TierId) -> Seq<char> {
    match t {
        TierId::Ram => "RAM"@,
        TierId::GpuVram => "GPU VRAM"@,
        TierId::Disk => "Disk"@,
        TierId::Simulation => "Simulation"@,
    }
}

impl TierId {
    /// The priority of this tier (lower = hotter).
    pub fn priority(&self) -> (p: u8)
        ensures
            p == tier_priority(*self),
    {
        match self {
            TierId::Ram => 0,
            TierId::GpuVram => 1,
            TierId::Disk => 2,
            TierId::Simulation => 3,
        }
    }

    /// Whether this tier is a GPU-based tier.
    pub fn is_gpu(&self) -> (r: bool)
        ensures
            r == (*self == TierId::GpuVram),
    {
        match self {
            TierId::GpuVram => true,
            _ => false,
        }
    }

    /// Whether this tier is persistent (survives reboot).
    pub fn is_persistent(&self) -> (r: bool)
        ensures
            r == (*self == TierId::Disk),
    {
        match self {
            TierId::Disk => true,
            _ => false,
        }
    }

    /// The display name of this tier.
    pub fn as_str(&self) -> (s: &'static str)
        ensures
            s@ == tier_name(*self),
    {
        match self {
            TierId::Ram => "RAM",
            TierId::GpuVram => "GPU VRAM",
            TierId::Disk => "Disk",
            TierId::Simulation => "Simulation",
        }
    }
}

/// Distinct tiers have distinct priorities, so the priority orders the tiers.
pub proof fn lemma_tier_priority_injective(a: TierId, b: TierId)
    ensures
        tier_priority(a) == tier_priority(b) ==> a == b,
{
}

// ─── Compression algorithm ─────────────────────────────────────────────────────

/// Compression algorithm identifier.
#[derive(Debug, Clone, Copy, PartialEq, Eq, Structural)]
pub enum CompressionAlgorithm {
    /// No compression (passthrough).
    NoCompression,
    /// zstd compression.
    Zstd,
}

impl CompressionAlgorithm {
    /// The display name of this algorithm.
    pub fn as_str(&self) -> (s: &'static str)
        ensures
            s@ == (match *self {
                CompressionAlgorithm::NoCompression => "none"@,
                CompressionAlgorithm::Zstd => "zstd"@,
            }),
    {
        match self {
            CompressionAlgorithm::NoCompression => "none",
            CompressionAlgorithm::Zstd => "zstd",
        }
    }
}

// ─── Chunk metadata ────────────────────────────────────────────────────────────

/// Metadata for a stored chunk: everything about it except its data.
#[derive(Debug, Clone)]
pub struct ChunkMeta {
    /// Content-addressed chunk identifier.
    pub id: ChunkId,
    /// Original (uncompressed) size in bytes.
    pub size: usize,
    /// Compressed size in bytes.
    pub compressed_size: usize,
    /// Current storage tier.
    pub tier: TierId,
    /// Current lifecycle state.
    pub state: ChunkState,
    /// Creation timestamp (Unix timestamp in seconds).
    pub created_at: u64,
    /// Last accessed timestamp (Unix timestamp in seconds).
    pub last_accessed: u64,
    /// Number of times this chunk has been accessed.
    pub access_count: u64,
    /// Compression algorithm used.
    pub compression: CompressionAlgorithm,
    /// blake3 checksum of compressed data for integrity verification.
    pub checksum: [u8; 32],
}

impl ChunkMeta {
    /// New metadata stamped with the current wall-clock time, in the
    /// `Allocated` state and never accessed (as `new_at` with the reading of
    /// the call).
    pub fn new(
        id: ChunkId,
        size: usize,
        compressed_size: usize,
        tier: TierId,
        compression: CompressionAlgorithm,
        checksum: [u8; 32],
    ) -> (m: ChunkMeta)
        ensures
            m.id == id,
            m.size == size,
            m.compressed_size == compressed_size,
            m.tier == tier,
            m.compression == compression,
            m.checksum == checksum,
            m.state == ChunkState::Allocated,
            m.access_count == 0,
            m.created_at == m.last_accessed,
    {
        let now = unix_now_secs();
        ChunkMeta::new_at(id, size, compressed_size, tier, compression, checksum, now)
    }

    /// New metadata created at `now_secs` seconds since the Unix epoch, in the
    /// `Allocated` state and never accessed.
    pub fn new_at(
        id: ChunkId,
        size: usize,
        compressed_size: usize,
        tier: TierId,
        compression: CompressionAlgorithm,
        checksum: [u8; 32],
        now_secs: u64,
    ) -> (m: ChunkMeta)
        ensures
            m.id == id,
            m.size == size,
            m.compressed_size == compressed_size,
            m.tier == tier,
            m.compression == compression,
            m.checksum == checksum,
            m.state == ChunkState::Allocated,
            m.access_count == 0,
            m.created_at == now_secs,
            m.last_accessed == now_secs,
    {
        ChunkMeta {
            id,
            size,
            compressed_size,
            tier,
            state: ChunkState::Allocated,
            created_at: now_secs,
            last_accessed: now_secs,
            access_count: 0,
            compression,
            checksum,
        }
    }

    /// Record an access: the count goes up by one and the last-access time is
    /// set to the current wall-clock time (as `record_access_at` with the
    /// reading of the call).
    pub fn record_access(&mut self)
        requires
            old(self).access_count < u64::MAX,
        ensures
            final(self).access_count == old(self).access_count + 1,
            final(self).id == old(self).id,
            final(self).size == old(self).size,
            final(self).compressed_size == old(self).compressed_size,
            final(self).tier == old(self).tier,
            final(self).state == old(self).state,
            final(self).created_at == old(self).created_at,
            final(self).compression == old(self).compression,
            final(self).checksum == old(self).checksum,
    {
        let now = unix_now_secs();
        self.record_access_at(now);
    }

    /// Record an access at `now_secs` seconds since the Unix epoch: the count
    /// goes up by one and the last-access time becomes `now_secs`.
    pub fn record_access_at(&mut self, now_secs: u64)
        requires
            old(self).access_count < u64::MAX,
        ensures
            final(self).access_count == old(self).access_count + 1,
            final(self).last_accessed == now_secs,
            final(self).id == old(self).id,
            final(self).size == old(self).size,
            final(self).compressed_size == old(self).compressed_size,
            final(self).tier == old(self).tier,
            final(self).state == old(self).state,
            final(self).created_at == old(self).created_at,
            final(self).compression == old(self).compression,
            final(self).checksum == old(self).checksum,
    {
        self.access_count = self.access_count + 1;
        self.last_accessed = now_secs;
    }
}

// ─── Pressure level ────────────────────────────────────────────────────────────

/// System memory pressure levels.
#[derive(Debug, Clone, Copy, PartialEq, Eq, Structural)]
pub enum PressureLevel {
    /// Normal operation, all tiers healthy.
    Normal,
    /// Soft pressure (>80% RAM usage).
    Soft,
    /// Medium pressure (>90% RAM usage).
    Medium,
    /// Hard pressure (>95% RAM usage).
    Hard,
    /// Critical pressure (OOM imminent).
    Critical,
}

/// The numeric level of a pressure level (0 = normal, 4 = critical).
pub open spec fn pressure_level_value(p: PressureLevel) -> u8 {
    match p {
        PressureLevel::Normal => 0,
        PressureLevel::Soft => 1,
        PressureLevel::Medium => 2,
        PressureLevel::Hard => 3,
        PressureLevel::Critical => 4,
    }
}

impl PressureLevel {
    /// The numeric level (0 = normal, 4 = critical).
    pub fn level(&self) -> (l: u8)
        ensures
            l == pressure_level_value(*self),
    {
        match self {
            PressureLevel::Normal => 0,
            PressureLevel::Soft => 1,
            PressureLevel::Medium => 2,
            PressureLevel::Hard => 3,
            PressureLevel::Critical => 4,
        }
    }

    /// The display name of this level.
    pub fn as_str(&self) -> (s: &'static str)
        ensures
            s@ == (match *self {
                PressureLevel::Normal => "normal"@,
                PressureLevel::Soft => "soft"@,
                PressureLevel::Medium => "medium"@,
                PressureLevel::Hard => "hard"@,
                PressureLevel::Critical => "critical"@,
            }),
    {
        match self {
            PressureLevel::Normal => "normal",
            PressureLevel::Soft => "soft",
            PressureLevel::Medium => "medium",
            PressureLevel::Hard => "hard",
            PressureLevel::Critical => "critical",
        }
    }
}

} // verus!
