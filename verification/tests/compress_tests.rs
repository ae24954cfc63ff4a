use ghostpages::compress::{compress, decompress, CompressionConfig, CompressionEngine, NoopEngine, ZstdEngine};
use ghostpages::error::GhostError;
use ghostpages::types::CompressionAlgorithm;

#[test]
fn test_zstd_roundtrip() {
    let data = b"Hello, GhostPages! This is test data for compression.";
    let config = CompressionConfig::default();

    let compressed = compress(data, CompressionAlgorithm::Zstd, &config).unwrap();
    let decompressed = decompress(&compressed, CompressionAlgorithm::Zstd, Some(data.len())).unwrap();

    assert_eq!(data, decompressed.as_slice());
}

#[test]
fn test_noop_roundtrip() {
    let data = b"Hello, GhostPages!";
    let config = CompressionConfig::default();

    let compressed = compress(data, CompressionAlgorithm::NoCompression, &config).unwrap();
    let decompressed = decompress(&compressed, CompressionAlgorithm::NoCompression, None).unwrap();

    assert_eq!(data, decompressed.as_slice());
    assert_eq!(data, compressed.as_slice());
}

#[test]
fn test_zstd_empty_data() {
    let data = b"";
    let config = CompressionConfig::default();

    let compressed = compress(data, CompressionAlgorithm::Zstd, &config).unwrap();
    let decompressed = decompress(&compressed, CompressionAlgorithm::Zstd, Some(0)).unwrap();

    assert_eq!(data, decompressed.as_slice());
}

#[test]
fn test_zstd_large_data() {
    let data = vec![0u8; 1024 * 1024];
    let config = CompressionConfig::default();

    let compressed = compress(&data, CompressionAlgorithm::Zstd, &config).unwrap();
    assert!(compressed.len() < data.len() / 10);

    let decompressed = decompress(&compressed, CompressionAlgorithm::Zstd, Some(data.len())).unwrap();
    assert_eq!(data, decompressed.as_slice());
}

#[test]
fn test_zstd_corrupted_data() {
    let data = b"Hello, GhostPages!";
    let config = CompressionConfig::default();

    let mut compressed = compress(data, CompressionAlgorithm::Zstd, &config).unwrap();
    if !compressed.is_empty() {
        compressed[0] ^= 0xFF;
    }

    let result = decompress(&compressed, CompressionAlgorithm::Zstd, Some(data.len()));
    assert!(result.is_err());
}

#[test]
fn test_compression_levels() {
    let data = b"Hello, GhostPages! ".repeat(100);

    let low_config = CompressionConfig { level: 1 };
    let high_config = CompressionConfig { level: 19 };

    let low_compressed = compress(&data, CompressionAlgorithm::Zstd, &low_config).unwrap();
    let high_compressed = compress(&data, CompressionAlgorithm::Zstd, &high_config).unwrap();

    assert!(high_compressed.len() <= low_compressed.len());

    let low_decompressed = decompress(&low_compressed, CompressionAlgorithm::Zstd, Some(data.len())).unwrap();
    let high_decompressed = decompress(&high_compressed, CompressionAlgorithm::Zstd, Some(data.len())).unwrap();

    assert_eq!(data, low_decompressed.as_slice());
    assert_eq!(data, high_decompressed.as_slice());
}

// ─── Further cases ─────────────────────────────────────────────────────────────

#[test]
fn zstd_output_is_a_zstd_frame_of_the_input() {
    let data = b"frame frame frame frame";
    let out = compress(data, CompressionAlgorithm::Zstd, &CompressionConfig { level: 3 }).unwrap();
    assert_eq!(out, zstd::bulk::compress(data, 3).unwrap());
    assert_ne!(out.as_slice(), data.as_slice());
    assert_eq!(zstd::bulk::decompress(&out, data.len()).unwrap(), data.to_vec());
}

#[test]
fn decompression_limit_too_small_is_an_error() {
    let data = vec![7u8; 1000];
    let out = compress(&data, CompressionAlgorithm::Zstd, &CompressionConfig::default()).unwrap();
    match decompress(&out, CompressionAlgorithm::Zstd, Some(10)) {
        Err(GhostError::CompressionError(m)) => assert!(m.starts_with("zstd decompression failed: ")),
        other => panic!("expected a compression error, got {:?}", other),
    }
    let back = decompress(&out, CompressionAlgorithm::Zstd, None).unwrap();
    assert_eq!(back, data);
}

#[test]
fn engines_directly() {
    let data = b"engine data";
    let z = ZstdEngine;
    let c = z.compress(data, &CompressionConfig::default()).unwrap();
    assert_eq!(z.decompress(&c, Some(data.len())).unwrap(), data.to_vec());
    let n = NoopEngine;
    assert_eq!(n.compress(data, &CompressionConfig::default()).unwrap(), data.to_vec());
    assert_eq!(n.decompress(data, None).unwrap(), data.to_vec());
    assert_eq!(CompressionConfig::default().level, 3);
}
