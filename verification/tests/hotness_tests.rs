use ghostpages::hotness_history::{HotnessHistory, TemperatureTrend};
use ghostpages::hotness_provider::{AddressRange, HotnessSample, HotnessSnapshot, Temperature};
use ghostpages::hotness_summary::HotnessSummary;

fn create_sample(addr: u64, temp: Temperature, access_count: u64) -> HotnessSample {
    HotnessSample {
        address_range: AddressRange::new(addr, addr + 4096),
        temperature: temp,
        access_count,
    }
}

#[test]
fn test_empty_history() {
    let history = HotnessHistory::new(10);
    assert!(history.is_empty());
    assert_eq!(history.len(), 0);

    let region = AddressRange::new(0, 4096);
    assert_eq!(history.get_temperature_trend(&region), TemperatureTrend::Stable(Temperature::Frozen));
}

#[test]
fn test_temperature_trend_stable() {
    let mut history = HotnessHistory::new(10);
    let region = AddressRange::new(0, 4096);

    history.push(HotnessSnapshot {
        samples: vec![create_sample(0, Temperature::Hot, 100)],
        timestamp: 0,
    });
    history.push(HotnessSnapshot {
        samples: vec![create_sample(0, Temperature::Hot, 100)],
        timestamp: 10,
    });
    history.push(HotnessSnapshot {
        samples: vec![create_sample(0, Temperature::Hot, 100)],
        timestamp: 20,
    });

    match history.get_temperature_trend(&region) {
        TemperatureTrend::Stable(t) => assert_eq!(t, Temperature::Hot),
        _ => panic!("Expected Stable(Hot)"),
    }
}

#[test]
fn test_temperature_trend_warming() {
    let mut history = HotnessHistory::new(10);
    let region = AddressRange::new(0, 4096);

    history.push(HotnessSnapshot {
        samples: vec![create_sample(0, Temperature::Frozen, 0)],
        timestamp: 0,
    });
    history.push(HotnessSnapshot {
        samples: vec![create_sample(0, Temperature::Frozen, 0)],
        timestamp: 5,
    });
    history.push(HotnessSnapshot {
        samples: vec![create_sample(0, Temperature::Cold, 5)],
        timestamp: 10,
    });
    history.push(HotnessSnapshot {
        samples: vec![create_sample(0, Temperature::Warm, 50)],
        timestamp: 20,
    });

    match history.get_temperature_trend(&region) {
        TemperatureTrend::Warming(from, to) => {
            assert_eq!(from, Temperature::Frozen);
            assert_eq!(to, Temperature::Warm);
        }
        _ => panic!("Expected Warming"),
    }
}

#[test]
fn test_temperature_trend_cooling() {
    let mut history = HotnessHistory::new(10);
    let region = AddressRange::new(0, 4096);

    history.push(HotnessSnapshot {
        samples: vec![create_sample(0, Temperature::Hot, 100)],
        timestamp: 0,
    });
    history.push(HotnessSnapshot {
        samples: vec![create_sample(0, Temperature::Hot, 100)],
        timestamp: 5,
    });
    history.push(HotnessSnapshot {
        samples: vec![create_sample(0, Temperature::Warm, 50)],
        timestamp: 10,
    });
    history.push(HotnessSnapshot {
        samples: vec![create_sample(0, Temperature::Cold, 5)],
        timestamp: 20,
    });

    match history.get_temperature_trend(&region) {
        TemperatureTrend::Cooling(from, to) => {
            assert_eq!(from, Temperature::Hot);
            assert_eq!(to, Temperature::Cold);
        }
        _ => panic!("Expected Cooling"),
    }
}

#[test]
fn test_temperature_trend_flapping() {
    let mut history = HotnessHistory::new(10);
    let region = AddressRange::new(0, 4096);

    // Alternating temperatures
    history.push(HotnessSnapshot {
        samples: vec![create_sample(0, Temperature::Hot, 100)],
        timestamp: 0,
    });
    history.push(HotnessSnapshot {
        samples: vec![create_sample(0, Temperature::Frozen, 0)],
        timestamp: 10,
    });
    history.push(HotnessSnapshot {
        samples: vec![create_sample(0, Temperature::Hot, 100)],
        timestamp: 20,
    });
    history.push(HotnessSnapshot {
        samples: vec![create_sample(0, Temperature::Frozen, 0)],
        timestamp: 30,
    });

    assert_eq!(history.get_temperature_trend(&region), TemperatureTrend::Flapping);
}

#[test]
fn test_max_snapshots() {
    let mut history = HotnessHistory::new(3);

    for i in 0..5 {
        history.push(HotnessSnapshot {
            samples: vec![create_sample(0, Temperature::Hot, 100 + i)],
            timestamp: i as u64 * 10,
        });
    }

    assert_eq!(history.len(), 3);
}

#[test]
fn test_clear() {
    let mut history = HotnessHistory::new(10);

    history.push(HotnessSnapshot {
        samples: vec![create_sample(0, Temperature::Hot, 100)],
        timestamp: 0,
    });

    assert_eq!(history.len(), 1);
    history.clear();
    assert!(history.is_empty());
}

// ─── Region commands ───────────────────────────────────────────────────────────

#[test]
fn test_hot_regions_command() {
    let snapshot = HotnessSnapshot {
        samples: vec![
            HotnessSample {
                address_range: AddressRange::new(0x1000000, 0x2000000),
                temperature: Temperature::Hot,
                access_count: 15234,
            },
            HotnessSample {
                address_range: AddressRange::new(0x3000000, 0x4000000),
                temperature: Temperature::Hot,
                access_count: 12891,
            },
            HotnessSample {
                address_range: AddressRange::new(0x5000000, 0x6000000),
                temperature: Temperature::Cold,
                access_count: 23,
            },
        ],
        timestamp: 1_700_000_000,
    };

    let hot_samples = snapshot.samples_with_temperature(Temperature::Hot);

    assert_eq!(hot_samples.len(), 2);
    assert_eq!(hot_samples[0].access_count, 15234);
    assert_eq!(hot_samples[1].access_count, 12891);
}

#[test]
fn test_cold_regions_command() {
    let snapshot = HotnessSnapshot {
        samples: vec![
            HotnessSample {
                address_range: AddressRange::new(0x1000000, 0x2000000),
                temperature: Temperature::Hot,
                access_count: 150,
            },
            HotnessSample {
                address_range: AddressRange::new(0x5000000, 0x6000000),
                temperature: Temperature::Cold,
                access_count: 23,
            },
            HotnessSample {
                address_range: AddressRange::new(0x7000000, 0x8000000),
                temperature: Temperature::Frozen,
                access_count: 0,
            },
        ],
        timestamp: 1_700_000_000,
    };

    let cold_samples = snapshot.inactive_samples();

    assert_eq!(cold_samples.len(), 2);
    assert_eq!(cold_samples[0].access_count, 23);
    assert_eq!(cold_samples[1].access_count, 0);
}

// ─── Further cases ─────────────────────────────────────────────────────────────

fn sample(temp: Temperature, access_count: u64) -> HotnessSample {
    HotnessSample { address_range: AddressRange::new(0, 4096), temperature: temp, access_count }
}

#[test]
fn test_from_snapshot_empty() {
    let snapshot = HotnessSnapshot { samples: vec![], timestamp: 0 };
    let summary = HotnessSummary::from_snapshot(&snapshot);
    assert_eq!(summary.total_regions, 0);
    assert_eq!(summary.dominant_temperature(), Temperature::Frozen);
    assert!(!summary.is_hot_workload());
    assert!(!summary.is_cold_workload());
}

#[test]
fn test_access_statistics() {
    let snapshot = HotnessSnapshot {
        samples: vec![
            sample(Temperature::Hot, 100),
            sample(Temperature::Warm, 50),
            sample(Temperature::Cold, 10),
            sample(Temperature::Frozen, 0),
        ],
        timestamp: 0,
    };
    let summary = HotnessSummary::from_snapshot(&snapshot);
    assert_eq!(summary.avg_access_count, 40); // (100+50+10+0)/4
    assert_eq!(summary.max_access_count, 100);
    assert_eq!(summary.min_access_count, 0);
}

#[test]
fn test_is_hot_workload() {
    // More than 50% hot+warm
    let snapshot = HotnessSnapshot {
        samples: vec![sample(Temperature::Hot, 100), sample(Temperature::Warm, 50), sample(Temperature::Cold, 5)],
        timestamp: 0,
    };
    let summary = HotnessSummary::from_snapshot(&snapshot);
    assert!(summary.is_hot_workload());

    // Exactly 50% - not hot
    let snapshot = HotnessSnapshot { samples: vec![sample(Temperature::Hot, 100), sample(Temperature::Cold, 5)], timestamp: 0 };
    let summary = HotnessSummary::from_snapshot(&snapshot);
    assert!(!summary.is_hot_workload());
}

#[test]
fn test_is_cold_workload() {
    // More than 50% cold+frozen
    let snapshot = HotnessSnapshot {
        samples: vec![sample(Temperature::Cold, 5), sample(Temperature::Frozen, 0), sample(Temperature::Hot, 100)],
        timestamp: 0,
    };
    let summary = HotnessSummary::from_snapshot(&snapshot);
    assert!(summary.is_cold_workload());
}

#[test]
fn mixed_summary_counts() {
    let snapshot = HotnessSnapshot {
        samples: vec![
            sample(Temperature::Hot, 150),
            sample(Temperature::Warm, 50),
            sample(Temperature::Cold, 5),
            sample(Temperature::Frozen, 0),
        ],
        timestamp: 0,
    };
    let summary = HotnessSummary::from_snapshot(&snapshot);
    assert_eq!(summary.total_regions, 4);
    assert_eq!(summary.hot_count, 1);
    assert_eq!(summary.warm_count, 1);
    assert_eq!(summary.cold_count, 1);
    assert_eq!(summary.frozen_count, 1);
    assert_eq!(summary.dominant_temperature(), Temperature::Hot);
    assert!(!summary.is_hot_workload());
    assert!(!summary.is_cold_workload());
    assert_eq!(summary.active_count(), 2);
    assert_eq!(summary.inactive_count(), 2);
}

#[test]
fn dominant_temperature_breaks_ties_toward_hot() {
    let snapshot = HotnessSnapshot {
        samples: vec![sample(Temperature::Cold, 5), sample(Temperature::Warm, 50), sample(Temperature::Frozen, 0), sample(Temperature::Warm, 60), sample(Temperature::Cold, 3)],
        timestamp: 0,
    };
    // Warm and cold both appear twice; warm is hotter.
    assert_eq!(HotnessSummary::from_snapshot(&snapshot).dominant_temperature(), Temperature::Warm);
}

#[test]
fn temperature_from_access_count_thresholds() {
    assert_eq!(Temperature::from_access_count(0), Temperature::Frozen);
    assert_eq!(Temperature::from_access_count(1), Temperature::Cold);
    assert_eq!(Temperature::from_access_count(19), Temperature::Cold);
    assert_eq!(Temperature::from_access_count(20), Temperature::Warm);
    assert_eq!(Temperature::from_access_count(99), Temperature::Warm);
    assert_eq!(Temperature::from_access_count(100), Temperature::Hot);
    assert_eq!(Temperature::Hot.value(), 3);
    assert_eq!(Temperature::Frozen.value(), 0);
    assert_eq!(Temperature::Warm.as_str(), "warm");
    assert_eq!(AddressRange::new(10, 4).size(), 0);
    assert_eq!(AddressRange::new(4, 10).size(), 6);
}

#[test]
fn history_reports_region_series() {
    let mut history = HotnessHistory::new(2);
    for (i, count) in [5u64, 50, 500].iter().enumerate() {
        history.push(HotnessSnapshot {
            samples: vec![sample(Temperature::from_access_count(*count), *count)],
            timestamp: i as u64,
        });
    }
    let region = AddressRange::new(0, 4096);
    assert_eq!(history.len(), 2);
    assert_eq!(history.region_access_counts(&region), vec![50, 500]);
    assert_eq!(history.region_temperatures(&region), vec![Temperature::Warm, Temperature::Hot]);
    assert_eq!(history.snapshots()[0].timestamp, 1);
}
