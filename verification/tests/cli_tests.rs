use ghostpages::cli::{format_timestamp, parse_chunk_id, parse_tier, tier_from_lowercase};
use ghostpages::types::{ChunkId, TierId};

#[test]
fn test_parse_tier_ram() {
    assert_eq!(parse_tier("ram").unwrap(), TierId::Ram);
    assert_eq!(parse_tier("RAM").unwrap(), TierId::Ram);
}

#[test]
fn test_parse_tier_gpu() {
    assert_eq!(parse_tier("gpu").unwrap(), TierId::GpuVram);
    assert_eq!(parse_tier("vram").unwrap(), TierId::GpuVram);
    assert_eq!(parse_tier("gpuvram").unwrap(), TierId::GpuVram);
}

#[test]
fn test_parse_tier_disk() {
    assert_eq!(parse_tier("disk").unwrap(), TierId::Disk);
    assert_eq!(parse_tier("ssd").unwrap(), TierId::Disk);
    assert_eq!(parse_tier("nvme").unwrap(), TierId::Disk);
}

#[test]
fn test_parse_tier_sim() {
    assert_eq!(parse_tier("sim").unwrap(), TierId::Simulation);
    assert_eq!(parse_tier("simulation").unwrap(), TierId::Simulation);
}

#[test]
fn test_parse_tier_invalid() {
    assert!(parse_tier("invalid").is_err());
    assert!(parse_tier("").is_err());
}

#[test]
fn test_parse_chunk_id_valid() {
    let hex = "a".repeat(64);
    let id = parse_chunk_id(&hex).unwrap();
    assert_eq!(id, ChunkId([0xaa; 32]));
}

#[test]
fn test_parse_chunk_id_wrong_length() {
    let hex = "a".repeat(32);
    assert!(parse_chunk_id(&hex).is_err());
}

#[test]
fn test_parse_chunk_id_invalid_hex() {
    assert!(parse_chunk_id("zzzz").is_err());
}

#[test]
fn test_format_timestamp() {
    let ts = 1_700_000_000u64;
    let formatted = format_timestamp(ts);
    assert!(formatted.contains("UTC"));
    assert!(formatted.contains("2023") || formatted.contains("2024"));
}

// ─── Further cases ─────────────────────────────────────────────────────────────

#[test]
fn format_timestamp_exact() {
    assert_eq!(format_timestamp(0), "1970-01-01 00:00:00 UTC");
    assert_eq!(format_timestamp(1_700_000_000), "2023-11-14 22:13:20 UTC");
    assert_eq!(format_timestamp(951_782_400), "2000-02-29 00:00:00 UTC");
    assert_eq!(format_timestamp(1_709_164_800), "2024-02-29 00:00:00 UTC");
    assert_eq!(format_timestamp(1_735_689_599), "2024-12-31 23:59:59 UTC");
    assert_eq!(format_timestamp(4_102_444_800), "2100-01-01 00:00:00 UTC");
    // Far beyond year 9999 the year simply takes more digits.
    assert!(format_timestamp(u64::MAX).ends_with(" UTC"));
    assert_eq!(format_timestamp(86_399), "1970-01-01 23:59:59 UTC");
}

#[test]
fn tier_errors_carry_the_lowercased_name() {
    assert_eq!(parse_tier("FLOPPY").unwrap_err(), "unknown tier 'floppy'. Valid tiers: ram, gpu, disk, sim");
    assert_eq!(tier_from_lowercase("Ram").unwrap_err(), "unknown tier 'Ram'. Valid tiers: ram, gpu, disk, sim");
    assert_eq!(parse_tier("GpuVram").unwrap(), TierId::GpuVram);
}

#[test]
fn chunk_id_errors() {
    assert_eq!(parse_chunk_id("zz").unwrap_err(), "invalid hex string for chunk ID");
    assert_eq!(parse_chunk_id("abc").unwrap_err(), "invalid hex string for chunk ID");
    assert_eq!(
        parse_chunk_id(&"0f".repeat(16)).unwrap_err(),
        "chunk ID must be 32 bytes (64 hex chars), got 16 bytes"
    );
    let mixed = format!("{}{}", "Ab".repeat(16), "cD".repeat(16));
    let id = parse_chunk_id(&mixed).unwrap();
    assert_eq!(id.0[0], 0xab);
    assert_eq!(id.0[31], 0xcd);
}
