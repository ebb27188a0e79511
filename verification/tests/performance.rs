use caxton::performance::memory_monitor::{LeakDetector, MemoryMonitor, MemoryMonitorConfig};
use caxton::performance::{
    generate_optimization_recommendations, identify_bottlenecks, memory_findings,
    recommendation_for, BottleneckSeverity, OptimizationPriority, CategoryStats, MemoryFinding, MemoryPool, MemoryStats, TrackedAllocator,
};

#[test]
fn slow_spawning_is_a_high_severity_bottleneck() {
    let found = identify_bottlenecks(Some(150), Some(5), None);
    assert_eq!(found.len(), 1);
    assert_eq!(found[0].area, "agent_spawn");
    assert_eq!(found[0].description, "Agent spawn P95 latency is 150ms (target: <100ms)");
    assert_eq!(found[0].severity, BottleneckSeverity::High);
    let all = identify_bottlenecks(Some(101), Some(11), Some("Memory usage is 2000.0MB".to_string()));
    let areas: Vec<&str> = all.iter().map(|b| b.area.as_str()).collect();
    assert_eq!(areas, vec!["agent_spawn", "message_routing", "memory_usage"]);
    assert!(identify_bottlenecks(Some(100), Some(10), None).is_empty());
}

#[test]
fn healthy_systems_get_the_healthy_recommendation() {
    let healthy = generate_optimization_recommendations(0);
    assert_eq!(healthy.len(), 4);
    assert_eq!(healthy[3].title, "Performance Monitoring is Healthy");
    assert_eq!(generate_optimization_recommendations(2).len(), 3);
}

#[test]
fn test_memory_stats_leak_heuristic() {
    let stats = MemoryStats {
        total_allocated: 1000,
        total_deallocated: 800,
        current_usage: 200,
        peak_usage: 500,
        allocation_count: 10,
        deallocation_count: 8,
    };
    assert!(!stats.potential_leak());
    let leaking = MemoryStats { allocation_count: 2000, current_usage: 460, ..stats };
    assert!(leaking.potential_leak());
    let at_ninety = MemoryStats { allocation_count: 2000, current_usage: 450, ..stats };
    assert!(!at_ninety.potential_leak());
}

#[test]
fn memory_findings_pick_the_largest_category() {
    let stats = MemoryStats {
        total_allocated: 5_000_000_000,
        total_deallocated: 0,
        current_usage: 10,
        peak_usage: 100,
        allocation_count: 2_000_000,
        deallocation_count: 0,
    };
    let cats = vec![
        ("small".to_string(), CategoryStats { allocated_bytes: 10, allocation_count: 1 }),
        ("big".to_string(), CategoryStats { allocated_bytes: 200_000_000, allocation_count: 3 }),
    ];
    let findings = memory_findings(stats, &cats);
    assert_eq!(findings.len(), 2);
    assert!(matches!(findings[0], MemoryFinding::HighAllocationFrequency { allocation_count: 2_000_000, .. }));
    match &findings[1] {
        MemoryFinding::HighCategoryUsage { category, allocated_bytes, .. } => {
            assert_eq!(category, "big");
            assert_eq!(*allocated_bytes, 200_000_000);
        }
        other => panic!("unexpected finding: {other:?}"),
    }
}

#[test]
fn pool_reuses_returned_items() {
    let mut pool: MemoryPool<String> = MemoryPool::new(10);
    assert!(pool.take().is_none());
    pool.return_item("test".to_string());
    assert_eq!(pool.take().unwrap(), "test");
    let stats = pool.get_stats();
    assert_eq!(stats.total_allocated, 1);
    assert_eq!(stats.total_reused, 1);
    let mut tiny: MemoryPool<u8> = MemoryPool::new(1);
    tiny.return_item(1);
    tiny.return_item(2);
    assert_eq!(tiny.get_stats().pooled_items, 1);
}

#[test]
fn allocator_counters_track_peak() {
    let mut a = TrackedAllocator::new();
    a.record_allocation(100);
    a.record_allocation(50);
    a.record_deallocation(120);
    let s = a.get_stats();
    assert_eq!(s.current_usage, 30);
    assert_eq!(s.peak_usage, 150);
    assert_eq!(s.allocation_count, 2);
    assert_eq!(s.deallocation_count, 1);
    a.reset_stats();
    assert_eq!(a.get_stats().peak_usage, 0);
}

#[test]
fn test_memory_monitor_category_tracking() {
    let mut monitor = MemoryMonitor::new(MemoryMonitorConfig::default());
    monitor.track_allocation("test_category", 1024);
    monitor.track_allocation("test_category", 512);
    let stats = monitor.get_category_stats();
    assert_eq!(stats.len(), 1);
    assert_eq!(stats[0].0, "test_category");
    assert_eq!(stats[0].1.allocated_bytes, 1536);
    assert_eq!(stats[0].1.allocation_count, 2);
}

#[test]
fn new_categories_stop_at_the_limit() {
    let mut monitor = MemoryMonitor::new(MemoryMonitorConfig { monitoring_interval_ms: 10, max_categories: 1 });
    monitor.track_allocation("a", 1);
    monitor.track_allocation("b", 1);
    monitor.track_allocation("a", 200_000_000);
    let stats = monitor.get_category_stats();
    assert_eq!(stats.len(), 1);
    assert_eq!(stats[0].1.allocated_bytes, 200_000_001);
    let quiet = MemoryStats {
        total_allocated: 10,
        total_deallocated: 10,
        current_usage: 0,
        peak_usage: 10,
        allocation_count: 1,
        deallocation_count: 1,
    };
    let findings = monitor.get_optimization_findings(quiet);
    assert_eq!(findings.len(), 1);
    assert!(matches!(&findings[0], MemoryFinding::HighCategoryUsage { category, .. } if category == "a"));
}

#[test]
fn growing_memory_with_little_released_is_warned_about() {
    let stats = |current: u64, allocated: u64, deallocated: u64| MemoryStats {
        total_allocated: allocated,
        total_deallocated: deallocated,
        current_usage: current,
        peak_usage: current,
        allocation_count: 10,
        deallocation_count: 5,
    };
    let mut detector = LeakDetector::new();
    assert!(!detector.check_for_leaks(stats(1000, 2000, 1000)));
    assert!(detector.check_for_leaks(stats(1101, 2101, 1000)));
    assert!(!detector.check_for_leaks(stats(1200, 2200, 1000)));
    assert!(!detector.check_for_leaks(stats(2000, 10_000, 9_000)));
    assert_eq!(detector.leak_warnings, 1);
}

#[test]
fn test_memory_pool_basic_operations() {
    let mut pool: MemoryPool<String> = MemoryPool::new(10);
    let item1 = pool.get(|| String::from("test"));
    assert_eq!(item1, "test");
    pool.return_item(item1);
    let item2 = pool.get(|| String::from("should not be created"));
    assert_eq!(item2, "test");
    let stats = pool.get_stats();
    assert_eq!(stats.total_allocated, 1);
    assert_eq!(stats.total_reused, 1);
}

#[test]
fn memory_recommendations_follow_the_finding() {
    let leak = recommendation_for(
        &MemoryFinding::PotentialLeak { current_usage: 95, peak_usage: 100 },
        "figures".to_string(),
    );
    assert_eq!(leak.title, "Potential Memory Leak Detected");
    assert_eq!(leak.description, "figures");
    assert_eq!(leak.priority, OptimizationPriority::High);
    assert_eq!(leak.actions.len(), 3);
    assert_eq!(leak.actions[0], "Profile memory allocations to identify leak sources");

    let frequent = recommendation_for(
        &MemoryFinding::HighAllocationFrequency { allocation_count: 2_000_000, total_allocated: 10 },
        String::new(),
    );
    assert_eq!(frequent.title, "High Allocation Frequency");
    assert_eq!(frequent.priority, OptimizationPriority::Medium);
    assert_eq!(frequent.actions[2], "Consider using stack allocation for small objects");

    let category = recommendation_for(
        &MemoryFinding::HighCategoryUsage {
            category: "wasm".to_string(),
            allocated_bytes: 200_000_000,
            allocation_count: 4,
        },
        String::new(),
    );
    assert_eq!(category.title, "High Memory Usage in 'wasm'");
    assert_eq!(category.priority, OptimizationPriority::Medium);
    assert_eq!(category.actions[0], "Review memory usage patterns in 'wasm'");
    assert_eq!(category.actions[1], "Consider using more efficient data structures");
}

#[test]
fn recommendations_carry_their_descriptions_and_notes() {
    let r = generate_optimization_recommendations(1);
    assert_eq!(r.len(), 3);
    assert_eq!(r[1].description, "Use MessagePack instead of JSON for FIPA message serialization");
    assert_eq!(r[2].implementation_notes[0], "Buffer events for 100ms or 1000 events, whichever comes first");
    let healthy = generate_optimization_recommendations(0);
    assert_eq!(healthy.len(), 4);
    assert_eq!(healthy[3].implementation_notes.len(), 2);
}
