use caxton::performance::instance_pool::{InstanceLimits, InstancePool, ModuleCache};
use caxton::performance::monitor::{sort_latencies, summarize_histogram, PerformanceMonitor};
use caxton::performance::observability::{
    processing_order, BatchProcessorStats, EmissionTimes, EventKey, EventPriority, MetricsCollectorStats,
    ObservabilityError,
};

#[test]
fn test_performance_monitor_basic_operations() {
    let mut monitor = PerformanceMonitor::new();
    monitor.increment_counter("test_counter", 5);
    monitor.increment_counter("test_counter", 3);
    monitor.record_histogram("test_histogram", 100_000_000);
    monitor.record_histogram("test_histogram", 200_000_000);
    assert!(monitor.can_summarize());
    let summary = monitor.get_performance_summary();
    assert_eq!(summary.counters, vec![("test_counter".to_string(), 8)]);
    assert_eq!(summary.histogram_stats.len(), 1);
    assert_eq!(summary.histogram_stats[0].0, "test_histogram");
}

#[test]
fn test_bottleneck_identification() {
    let mut monitor = PerformanceMonitor::new();
    for _ in 0..10 {
        monitor.record_histogram("caxton_agent_spawn_duration_seconds", 150_000_000);
    }
    let bottlenecks = monitor.identify_bottlenecks(None);
    assert!(!bottlenecks.is_empty());
    assert!(bottlenecks.iter().any(|b| b.area == "agent_spawn"));
    assert_eq!(bottlenecks[0].description, "Agent spawn P95 latency is 150ms (target: <100ms)");
    assert_eq!(monitor.generate_optimization_recommendations(None).len(), 3);
    assert_eq!(PerformanceMonitor::new().generate_optimization_recommendations(None).len(), 4);
}

#[test]
fn histogram_summary_gives_mean_and_percentiles() {
    let values: Vec<u128> = (1..=20).rev().map(|v| v * 10).collect();
    assert_eq!(sort_latencies(&values), (1..=20).map(|v| v * 10).collect::<Vec<u128>>());
    let stats = summarize_histogram(&values).unwrap();
    assert_eq!(stats.count, 20);
    assert_eq!(stats.mean_nanos, 105);
    assert_eq!(stats.p50_nanos, 110);
    assert_eq!(stats.p95_nanos, 200);
    assert_eq!(stats.p99_nanos, 200);
    assert!(summarize_histogram(&Vec::new()).is_none());
    let one = summarize_histogram(&vec![7]).unwrap();
    assert_eq!((one.mean_nanos, one.p50_nanos, one.p95_nanos, one.p99_nanos), (7, 7, 7, 7));
}

#[test]
fn events_are_processed_by_priority_then_time_then_arrival() {
    let keys = vec![
        EventKey { priority: EventPriority::High, timestamp_nanos: 5 },
        EventKey { priority: EventPriority::Low, timestamp_nanos: 9 },
        EventKey { priority: EventPriority::Low, timestamp_nanos: -3 },
        EventKey { priority: EventPriority::High, timestamp_nanos: 5 },
        EventKey { priority: EventPriority::Normal, timestamp_nanos: 0 },
    ];
    assert_eq!(processing_order(&keys), vec![2, 1, 4, 0, 3]);
}

#[test]
fn emission_window_keeps_the_last_hundred() {
    let mut times = EmissionTimes::new();
    assert_eq!(times.get_stats(), (0, 0));
    for t in 1..=150u128 {
        times.record_event_emission(t);
    }
    assert!(times.can_summarize());
    let (average, p95) = times.get_stats();
    assert_eq!(average, 100);
    assert_eq!(p95, 146);
}

#[test]
fn observability_counters_and_errors() {
    let mut stats = BatchProcessorStats::default();
    stats.record_batch(10, 300);
    stats.record_batch(5, 100);
    assert_eq!(stats.average_processing_time(), 200);
    assert_eq!(stats.total_events_processed, 15);
    let mut collector = MetricsCollectorStats::default();
    collector.record_collection(std::time::Instant::now(), 50);
    assert_eq!(collector.collections_performed, 1);
    assert!(collector.last_collection.is_some());
    assert_eq!(ObservabilityError::ChannelClosed.message(), "Event channel closed");
    assert_eq!(ObservabilityError::BackendError("down".to_string()).message(), "Backend connection error: down");
}

#[test]
fn pools_count_misses_and_drop_instances_beyond_the_limit() {
    let mut pool: InstancePool<u32> = InstancePool::new(100, 0);
    assert_eq!(pool.get_instance("worker"), None);
    assert_eq!(pool.get_stats().misses, 0);
    pool.return_instance("worker", 1);
    assert_eq!(pool.get_instance("worker"), None);
    assert_eq!(pool.get_stats().misses, 1);
    assert_eq!(pool.get_stats().hits, 0);
    assert_eq!(pool.get_stats().total_active, 0);
}

#[test]
fn growth_is_limited_by_the_module_and_the_instance_caps() {
    let mut limits = InstanceLimits::new();
    assert!(limits.memory_growing(0, 1024, None));
    assert_eq!(limits.memory_used, 1024);
    assert!(!limits.memory_growing(1024, 4096, Some(2048)));
    assert!(!limits.memory_growing(1024, 64 * 1024 * 1024 + 1, None));
    assert_eq!(limits.memory_used, 1024);
    assert!(limits.table_growing(0, 10_000, None));
    assert!(!limits.table_growing(10_000, 10_001, None));
}

#[test]
fn module_cache_replaces_by_name() {
    let mut cache: ModuleCache<u32> = ModuleCache::new();
    assert!(cache.get("a").is_none());
    cache.insert("a", 1);
    cache.insert("b", 2);
    cache.insert("a", 3);
    assert_eq!(cache.get("a"), Some(&3));
    assert_eq!(cache.len(), 2);
}
