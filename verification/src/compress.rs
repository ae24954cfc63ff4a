//! Compression of chunk data: a zstd engine and a pass-through engine behind
//! one interface, selected by `CompressionAlgorithm`.
use vstd::prelude::*;

use crate::error::{GhostError, GhostResult};
use crate::types::CompressionAlgorithm;

verus! {

// ─── zstd ──────────────────────────────────────────────────────────────────────

#[verifier::external_type_specification]
#[verifier::external_body]
pub struct ExIoError(std::io::Error);

/// What `zstd::bulk::compress` produces for `data` at `level`: the compressed
/// frame, or `None` where it reports an error.
pub uninterp spec fn zstd_compressed(data: Seq<u8>, level: i32) -> Option<Seq<u8>>;

/// What `zstd::bulk::decompress` produces for `data` with output limit
/// `capacity`: the decompressed bytes, or `None` where it reports an error.
pub uninterp spec fn zstd_decompressed(data: Seq<u8>, capacity: usize) -> Option<Seq<u8>>;

/// `zstd::bulk::compress(data, level)`: compress one block into a zstd frame.
/// The outcome is claimed to be a function of the bytes and the level alone.
#[verifier::external_body]
fn zstd_bulk_compress(data: &[u8], level: i32) -> (r: Result<Vec<u8>, std::io::Error>)
    ensures
        match r {
            Ok(v) => zstd_compressed(data@, level) == Some(v@),
            Err(_) => zstd_compressed(data@, level) is None,
        },
{
    zstd::bulk::compress(data, level)
}

/// `zstd::bulk::decompress(data, capacity)`: decompress one block whose output
/// is at most `capacity` bytes. Claimed: the outcome is a function of the
/// bytes and the limit; what comes out is never longer than the limit (as the
/// crate documents); and, zstd being lossless, a frame that
/// `zstd::bulk::compress` produced from `d` decompresses to `d` whenever `d`
/// fits in the limit.
#[verifier::external_body]
fn zstd_bulk_decompress(data: &[u8], capacity: usize) -> (r: Result<Vec<u8>, std::io::Error>)
    ensures
        match r {
            Ok(v) => zstd_decompressed(data@, capacity) == Some(v@) && v@.len() <= capacity,
            Err(_) => zstd_decompressed(data@, capacity) is None,
        },
        r is Err ==> forall|d: Seq<u8>, level: i32|
            #![trigger zstd_compressed(d, level)]
            !(zstd_compressed(d, level) == Some(data@) && d.len() <= capacity),
        r matches Ok(v) ==> forall|d: Seq<u8>, level: i32|
            #![trigger zstd_compressed(d, level)]
            zstd_compressed(d, level) == Some(data@) && d.len() <= capacity ==> v@ == d,
{
    zstd::bulk::decompress(data, capacity)
}

/// `<std::io::Error as Display>::to_string`: the error's message. Nothing is
/// claimed of the text.
#[verifier::external_body]
fn io_error_text(e: &std::io::Error) -> String {
    e.to_string()
}

// ─── Configuration and engines ─────────────────────────────────────────────────

/// Configuration for compression operations.
#[derive(Debug, Clone)]
pub struct CompressionConfig {
    /// Compression level (1-22 for zstd); higher levels compress better and
    /// more slowly.
    pub level: i32,
}

impl Default for CompressionConfig {
    fn default() -> (c: Self)
        ensures
            c.level == 3,
    {
        CompressionConfig { level: 3 }
    }
}

/// A compression engine. Implemented here by `ZstdEngine` and `NoopEngine`;
/// users may implement it for other algorithms.
pub trait CompressionEngine: Send + Sync + 'static {
    /// Compress `data` according to `config`.
    fn compress(&self, data: &[u8], config: &CompressionConfig) -> GhostResult<Vec<u8>>;

    /// Decompress `data`, expecting at most `expected_size` bytes when given.
    fn decompress(&self, data: &[u8], expected_size: Option<usize>) -> GhostResult<Vec<u8>>;
}

/// The output limit used when no expected size is given: 256 MiB.
pub const DEFAULT_MAX_DECOMPRESSED: usize = 268_435_456;

/// The prefix of the message of a failed zstd compression.
pub open spec fn compress_failure_prefix() -> Seq<char> {
    "zstd compression failed: "@
}

/// The prefix of the message of a failed zstd decompression.
pub open spec fn decompress_failure_prefix() -> Seq<char> {
    "zstd decompression failed: "@
}

/// The output limit for an expected size: the size itself, or the default.
pub open spec fn output_limit(expected_size: Option<usize>) -> usize {
    match expected_size {
        Some(n) => n,
        None => DEFAULT_MAX_DECOMPRESSED,
    }
}

/// Any data of at most 256 MiB fits the output limit used when no expected
/// size is given, so (by `decompress`) a zstd frame of such data
/// decompresses back to it; with an expected size, data fits exactly when it
/// is no longer than that size.
pub proof fn lemma_output_limit(d: Seq<u8>, expected: usize)
    ensures
        d.len() <= 268_435_456 ==> d.len() <= output_limit(None),
        d.len() <= output_limit(Some(expected)) <==> d.len() <= expected,
{
}

/// `r` is a compression error whose message is `prefix` followed by some
/// description of the cause.
pub open spec fn is_compression_error(r: GhostResult<Vec<u8>>, prefix: Seq<char>) -> bool {
    r matches Err(GhostError::CompressionError(m)) && m@.len() >= prefix.len() && m@.subrange(
        0,
        prefix.len() as int,
    ) == prefix
}

/// A compression error whose message is `prefix` followed by the text of `e`.
fn failure(prefix: &str, e: &std::io::Error) -> (r: GhostResult<Vec<u8>>)
    ensures
        is_compression_error(r, prefix@),
{
    let mut m = String::from_str(prefix);
    let cause = io_error_text(e);
    m.append(cause.as_str());
    assert(m@.subrange(0, prefix@.len() as int) =~= prefix@);
    Err(GhostError::CompressionError(m))
}

/// The zstd engine.
#[derive(Debug, Clone, Copy, Default)]
pub struct ZstdEngine;

impl CompressionEngine for ZstdEngine {
    fn compress(&self, data: &[u8], config: &CompressionConfig) -> (r: GhostResult<Vec<u8>>)
        ensures
            match zstd_compressed(data@, config.level) {
                Some(c) => r matches Ok(v) && v@ == c,
                None => is_compression_error(r, compress_failure_prefix()),
            },
    {
        match zstd_bulk_compress(data, config.level) {
            Ok(v) => Ok(v),
            Err(e) => failure("zstd compression failed: ", &e),
        }
    }

    fn decompress(&self, data: &[u8], expected_size: Option<usize>) -> (r: GhostResult<Vec<u8>>)
        ensures
            match zstd_decompressed(data@, output_limit(expected_size)) {
                Some(d) => r matches Ok(v) && v@ == d,
                None => is_compression_error(r, decompress_failure_prefix()),
            },
            forall|d: Seq<u8>, level: i32|
                #![trigger zstd_compressed(d, level)]
                zstd_compressed(d, level) == Some(data@) && d.len() <= output_limit(expected_size)
                    ==> (r matches Ok(v) && v@ == d),
            expected_size is None ==> forall|d: Seq<u8>, level: i32|
                #![trigger zstd_compressed(d, level)]
                zstd_compressed(d, level) == Some(data@) && d.len() <= 268_435_456 ==> (r matches Ok(
                    v,
                ) && v@ == d),
    {
        let max_size = match expected_size {
            Some(n) => n,
            None => DEFAULT_MAX_DECOMPRESSED,
        };
        match zstd_bulk_decompress(data, max_size) {
            Ok(v) => Ok(v),
            Err(e) => failure("zstd decompression failed: ", &e),
        }
    }
}

/// A fresh vector holding the bytes of `data`.
fn copy_bytes(data: &[u8]) -> (v: Vec<u8>)
    ensures
        v@ == data@,
{
    let mut v: Vec<u8> = Vec::with_capacity(data.len());
    let mut i: usize = 0;
    while i < data.len()
        invariant
            0 <= i <= data@.len(),
            v@ == data@.subrange(0, i as int),
        decreases data@.len() - i,
    {
        v.push(data[i]);
        assert(v@ =~= data@.subrange(0, i + 1));
        i = i + 1;
    }
    assert(data@.subrange(0, data@.len() as int) =~= data@);
    v
}

/// The pass-through engine: output equals input.
#[derive(Debug, Clone, Copy, Default)]
pub struct NoopEngine;

impl CompressionEngine for NoopEngine {
    fn compress(&self, data: &[u8], _config: &CompressionConfig) -> (r: GhostResult<Vec<u8>>)
        ensures
            r matches Ok(v) && v@ == data@,
    {
        Ok(copy_bytes(data))
    }

    fn decompress(&self, data: &[u8], _expected_size: Option<usize>) -> (r: GhostResult<Vec<u8>>)
        ensures
            r matches Ok(v) && v@ == data@,
    {
        Ok(copy_bytes(data))
    }
}

// ─── Entry points ──────────────────────────────────────────────────────────────

/// Compress `data` with `algorithm`. Without compression the output is the
/// input; with zstd it is the zstd frame at `config.level`, or a
/// `CompressionError` where zstd fails.
pub fn compress(data: &[u8], algorithm: CompressionAlgorithm, config: &CompressionConfig) -> (r:
    GhostResult<Vec<u8>>)
    ensures
        algorithm == CompressionAlgorithm::NoCompression ==> (r matches Ok(v) && v@ == data@),
        algorithm == CompressionAlgorithm::Zstd ==> match zstd_compressed(data@, config.level) {
            Some(c) => r matches Ok(v) && v@ == c,
            None => is_compression_error(r, compress_failure_prefix()),
        },
{
    match algorithm {
        CompressionAlgorithm::NoCompression => {
            let engine = NoopEngine;
            engine.compress(data, config)
        },
        CompressionAlgorithm::Zstd => {
            let engine = ZstdEngine;
            engine.compress(data, config)
        },
    }
}

/// Decompress `data` with `algorithm`. Without compression the output is the
/// input. With zstd the output is limited to `expected_size` bytes (256 MiB
/// when not given); a zstd frame of some data that fits in the limit gives
/// that data back, and a frame that does not decompress gives a
/// `CompressionError`.
pub fn decompress(data: &[u8], algorithm: CompressionAlgorithm, expected_size: Option<usize>) -> (r:
    GhostResult<Vec<u8>>)
    ensures
        algorithm == CompressionAlgorithm::NoCompression ==> (r matches Ok(v) && v@ == data@),
        algorithm == CompressionAlgorithm::Zstd ==> match zstd_decompressed(
            data@,
            output_limit(expected_size),
        ) {
            Some(d) => r matches Ok(v) && v@ == d,
            None => is_compression_error(r, decompress_failure_prefix()),
        },
        algorithm == CompressionAlgorithm::Zstd ==> forall|d: Seq<u8>, level: i32|
            #![trigger zstd_compressed(d, level)]
            zstd_compressed(d, level) == Some(data@) && d.len() <= output_limit(expected_size) ==> (
            r matches Ok(v) && v@ == d),
        algorithm == CompressionAlgorithm::Zstd && expected_size is None ==> forall|
            d: Seq<u8>,
            level: i32,
        |
            #![trigger zstd_compressed(d, level)]
            zstd_compressed(d, level) == Some(data@) && d.len() <= 268_435_456 ==> (r matches Ok(
                v,
            ) && v@ == d),
{
    match algorithm {
        CompressionAlgorithm::NoCompression => {
            let engine = NoopEngine;
            engine.decompress(data, expected_size)
        },
        CompressionAlgorithm::Zstd => {
            let engine = ZstdEngine;
            engine.decompress(data, expected_size)
        },
    }
}

} // verus!
