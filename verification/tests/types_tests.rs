use ghostpages::state::ChunkState;
use ghostpages::types::{ChunkId, ChunkMeta, CompressionAlgorithm, PressureLevel, TierId};

#[test]
fn test_chunk_id_from_data() {
    let data = b"Hello, GhostPages!";
    let id = ChunkId::from_data(data);

    // Same data produces same ID
    let id2 = ChunkId::from_data(data);
    assert_eq!(id, id2);

    // ID verifies against original data
    assert!(id.verify(data));
}

#[test]
fn test_chunk_id_different_data() {
    let data1 = b"Hello, GhostPages!";
    let data2 = b"Different data";

    let id1 = ChunkId::from_data(data1);
    let id2 = ChunkId::from_data(data2);

    assert_ne!(id1, id2);

    assert!(id1.verify(data1));
    assert!(!id1.verify(data2));
    assert!(id2.verify(data2));
    assert!(!id2.verify(data1));
}

#[test]
fn test_chunk_id_empty_data() {
    let id = ChunkId::from_data(b"");
    assert!(id.verify(b""));
    assert!(!id.verify(b"not empty"));
}

#[test]
fn test_tier_id_priority() {
    assert_eq!(TierId::Ram.priority(), 0);
    assert_eq!(TierId::GpuVram.priority(), 1);
    assert_eq!(TierId::Disk.priority(), 2);
    assert_eq!(TierId::Simulation.priority(), 3);
}

#[test]
fn test_chunk_meta_record_access() {
    let id = ChunkId::from_data(b"test");
    let mut meta = ChunkMeta::new(
        id,
        100,
        50,
        TierId::Ram,
        CompressionAlgorithm::NoCompression,
        [0u8; 32],
    );

    assert_eq!(meta.access_count, 0);
    meta.record_access();
    assert_eq!(meta.access_count, 1);
    meta.record_access();
    assert_eq!(meta.access_count, 2);
}

#[test]
fn test_chunk_meta_initial_state() {
    let id = ChunkId::from_data(b"test");
    let meta = ChunkMeta::new(
        id,
        100,
        50,
        TierId::Ram,
        CompressionAlgorithm::NoCompression,
        [0u8; 32],
    );

    assert_eq!(meta.state, ChunkState::Allocated);
}

#[test]
fn test_pressure_level_ordering() {
    assert!(PressureLevel::Normal.level() < PressureLevel::Soft.level());
    assert!(PressureLevel::Soft.level() < PressureLevel::Medium.level());
    assert!(PressureLevel::Medium.level() < PressureLevel::Hard.level());
    assert!(PressureLevel::Hard.level() < PressureLevel::Critical.level());
}

// ─── Further cases ─────────────────────────────────────────────────────────────

#[test]
fn chunk_id_is_the_blake3_digest() {
    let id = ChunkId::from_data(b"abc");
    assert_eq!(id.0, *blake3::hash(b"abc").as_bytes());
}

#[test]
fn short_hex_is_first_eight_bytes_lower_case() {
    let mut bytes = [0u8; 32];
    bytes[0] = 0xAB;
    bytes[1] = 0x01;
    bytes[7] = 0xFF;
    bytes[8] = 0xEE;
    let id = ChunkId(bytes);
    assert_eq!(id.short_hex(), "ab010000000000ff");
    assert_eq!(id.display_string(), "ab010000000000ff");
}

#[test]
fn tier_flags_and_names() {
    assert!(TierId::GpuVram.is_gpu());
    assert!(!TierId::Ram.is_gpu());
    assert!(TierId::Disk.is_persistent());
    assert!(!TierId::Simulation.is_persistent());
    assert_eq!(TierId::Ram.as_str(), "RAM");
    assert_eq!(TierId::GpuVram.as_str(), "GPU VRAM");
    assert_eq!(TierId::Disk.as_str(), "Disk");
    assert_eq!(TierId::Simulation.as_str(), "Simulation");
}

#[test]
fn compression_and_pressure_names() {
    assert_eq!(CompressionAlgorithm::NoCompression.as_str(), "none");
    assert_eq!(CompressionAlgorithm::Zstd.as_str(), "zstd");
    assert_eq!(PressureLevel::Normal.as_str(), "normal");
    assert_eq!(PressureLevel::Critical.as_str(), "critical");
    assert_eq!(PressureLevel::Critical.level(), 4);
}

#[test]
fn chunk_meta_takes_the_given_reading() {
    let id = ChunkId::from_data(b"meta");
    let mut m = ChunkMeta::new_at(id, 10, 5, TierId::Disk, CompressionAlgorithm::Zstd, [1u8; 32], 1_700_000_000);
    assert_eq!(m.created_at, 1_700_000_000);
    assert_eq!(m.last_accessed, 1_700_000_000);
    assert_eq!(m.access_count, 0);
    m.record_access_at(1_700_000_042);
    assert_eq!(m.last_accessed, 1_700_000_042);
    assert_eq!(m.created_at, 1_700_000_000);
    assert_eq!(m.access_count, 1);
}
