use ghostpages::workload::{
    all_builtin_workloads, allocator_stress, build_server, database_cache, idle_desktop, memory_pressure_ramp,
    mixed_multitask, tier_saturation, WorkloadClass, WorkloadGenerator,
};
use ghostpages::workload::{classify_workload_name, infer_workload_class, infer_workload_class_name, text_contains};

#[test]
fn test_idle_desktop_definition() {
    let def = idle_desktop();
    assert_eq!(def.name, "idle_desktop");
    assert_eq!(def.class, WorkloadClass::Desktop);
    assert_eq!(def.duration_seconds, 60);
    assert_eq!(def.snapshot_interval_ms, 1000);
    assert_eq!(def.seed, 42);
}

#[test]
fn test_all_builtin_workloads_count() {
    let workloads = all_builtin_workloads();
    assert_eq!(workloads.len(), 7);
}

// ─── Further cases ─────────────────────────────────────────────────────────────

#[test]
fn builtin_workloads_in_order() {
    let names: Vec<String> = all_builtin_workloads().into_iter().map(|d| d.name).collect();
    assert_eq!(
        names,
        vec![
            "idle_desktop",
            "memory_pressure_ramp",
            "build_server",
            "database_cache",
            "mixed_multitask",
            "allocator_stress",
            "tier_saturation"
        ]
    );
    assert_eq!(memory_pressure_ramp().seed, 100);
    assert_eq!(build_server().class, WorkloadClass::BuildSystem);
    assert_eq!(database_cache().duration_seconds, 90);
    assert_eq!(mixed_multitask().description, "Alternating patterns: idle → browser → build → cache → recovery");
    assert_eq!(allocator_stress().snapshot_interval_ms, 500);
    assert_eq!(tier_saturation().seed, 600);
    assert_eq!(WorkloadClass::MemoryPressure.as_str(), "MemoryPressure");
}

#[test]
fn snapshot_count_and_hash() {
    let generator = WorkloadGenerator::new(42);
    assert_eq!(generator.snapshot_count(&idle_desktop()), 60);
    assert_eq!(generator.snapshot_count(&allocator_stress()), 120);
    let mut d = idle_desktop();
    d.snapshot_interval_ms = 0;
    assert_eq!(generator.snapshot_count(&d), 1);
    d.snapshot_interval_ms = 1_000_000;
    assert_eq!(generator.snapshot_count(&d), 1);
    let expected = 42u64
        .wrapping_mul(6364136223846793005)
        .wrapping_add(1000u64.wrapping_mul(1442695040888963407).wrapping_add(1));
    assert_eq!(generator.perturbation_hash(1000), expected);
}

#[test]
fn workload_names_suggest_their_class() {
    for d in all_builtin_workloads() {
        assert_eq!(infer_workload_class(&d.name), d.class, "{}", d.name);
        assert_eq!(classify_workload_name(&d.name), Some(d.class));
    }
    assert_eq!(classify_workload_name("unrelated"), None);
    assert_eq!(infer_workload_class("unrelated"), WorkloadClass::Mixed);
    assert_eq!(infer_workload_class_name("unrelated"), "Unknown");
    assert_eq!(infer_workload_class_name("nightly_build"), "BuildSystem");
    // The first rule that matches wins: "idle" comes before "build".
    assert_eq!(infer_workload_class("idle_build"), WorkloadClass::Desktop);
    assert_eq!(infer_workload_class("redis_cache_tier"), WorkloadClass::MemoryPressure);
}

#[test]
fn text_contains_finds_runs_of_characters() {
    assert!(text_contains("database_cache", "cache"));
    assert!(text_contains("abc", ""));
    assert!(!text_contains("", "a"));
    assert!(!text_contains("cach", "cache"));
    assert!(text_contains("héllo", "llo"));
    assert!(!text_contains("hello", "hé"));
}

#[test]
fn snapshot_timestamps_follow_the_interval() {
    let generator = WorkloadGenerator::new(42);
    for d in all_builtin_workloads() {
        let ts = generator.snapshot_timestamps(&d);
        assert_eq!(ts.len() as u64, generator.snapshot_count(&d));
        for (i, t) in ts.iter().enumerate() {
            assert_eq!(*t, i as u64 * d.snapshot_interval_ms);
        }
    }
    let mut d = idle_desktop();
    d.snapshot_interval_ms = 0;
    assert_eq!(generator.snapshot_timestamps(&d), vec![0]);
}
