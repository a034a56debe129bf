use kwality_runtime_validator::container::ResourceUsage;
use kwality_runtime_validator::performance::{
    integer_sqrt, BenchmarkKind, BottleneckSeverity, BottleneckType, ImplementationEffort,
    MemoryLeak, PerformanceMetrics, PerformanceProfiler, RecommendationPriority,
    RecommendationType,
};
use kwality_runtime_validator::RuntimeConfig;

fn profiler() -> PerformanceProfiler {
    PerformanceProfiler::new(RuntimeConfig::default().performance)
}

fn usage(cpu: u64, memory: u64) -> ResourceUsage {
    ResourceUsage {
        cpu_usage_percent: cpu,
        memory_usage_mb: memory,
        disk_usage_mb: 3,
        network_io_bytes: 5 * 1024 * 1024 + 17,
        file_descriptors: 0,
        max_memory_mb: 1024,
        max_cpu_percent: 100_000_000,
    }
}

#[test]
fn square_roots_round_down() {
    assert_eq!(integer_sqrt(0), 0);
    assert_eq!(integer_sqrt(1), 1);
    assert_eq!(integer_sqrt(3), 1);
    assert_eq!(integer_sqrt(4), 2);
    assert_eq!(integer_sqrt(99), 9);
    assert_eq!(integer_sqrt(100), 10);
    assert_eq!(integer_sqrt(1 << 64), 1 << 32);
    assert_eq!(integer_sqrt((1 << 64) - 1), (1 << 32) - 1);
    assert_eq!(integer_sqrt(u128::MAX), u64::MAX);
}

#[test]
fn benchmark_statistics() {
    let b = profiler()
        .calculate_benchmark_result("cpu_intensive", 4, &vec![100, 200, 300, 400])
        .unwrap();
    assert_eq!(b.name, "cpu_intensive");
    assert_eq!(b.iterations, 4);
    assert_eq!(b.avg_duration_ns, 250);
    assert_eq!(b.min_duration_ns, 100);
    assert_eq!(b.max_duration_ns, 400);
    assert_eq!(b.std_deviation_ns, 111);
    assert_eq!(b.throughput_ops_per_sec, 4_000_000_000_000);
    assert_eq!(b.memory_per_iteration_bytes, 1_048_576);
}

#[test]
fn benchmark_of_equal_durations_has_no_deviation() {
    let b = profiler().calculate_benchmark_result("io_operations", 3, &vec![7, 7, 7]).unwrap();
    assert_eq!(b.avg_duration_ns, 7);
    assert_eq!(b.std_deviation_ns, 0);
    assert_eq!(b.min_duration_ns, 7);
    assert_eq!(b.max_duration_ns, 7);
    assert_eq!(b.throughput_ops_per_sec, 142_857_142_857_142);
}

#[test]
fn benchmark_edges() {
    assert!(profiler().calculate_benchmark_result("x", 0, &vec![1, 2]).is_none());
    let zero = profiler().calculate_benchmark_result("x", 2, &vec![0, 0]).unwrap();
    assert_eq!(zero.throughput_ops_per_sec, 0);
    let none = profiler().calculate_benchmark_result("x", 1, &Vec::new()).unwrap();
    assert_eq!(none.avg_duration_ns, 0);
    assert_eq!(none.min_duration_ns, 0);
    assert_eq!(none.max_duration_ns, 0);
    assert!(profiler()
        .calculate_benchmark_result("x", 1, &vec![u64::MAX, u64::MAX])
        .is_none());
    let wide = profiler().calculate_benchmark_result("x", 2, &vec![u64::MAX, 0]).unwrap();
    assert_eq!(wide.avg_duration_ns, u64::MAX / 2);
    assert_eq!(wide.max_duration_ns, u64::MAX);
    assert_eq!(wide.min_duration_ns, 0);
    assert_eq!(wide.std_deviation_ns, u64::MAX / 2);
}

#[test]
fn benchmarks_follow_the_configuration() {
    assert_eq!(
        profiler().run_benchmarks(),
        vec![BenchmarkKind::CpuIntensive, BenchmarkKind::MemoryAllocation, BenchmarkKind::IoOperations]
    );
    let mut config = RuntimeConfig::default().performance;
    config.enable_memory_profiling = false;
    assert_eq!(
        PerformanceProfiler::new(config.clone()).run_benchmarks(),
        vec![BenchmarkKind::CpuIntensive, BenchmarkKind::IoOperations]
    );
    config.benchmark_iterations = 0;
    assert!(PerformanceProfiler::new(config).run_benchmarks().is_empty());
    assert_eq!(PerformanceProfiler::name_of_benchmark(BenchmarkKind::CpuIntensive), "cpu_intensive");
    assert_eq!(
        PerformanceProfiler::name_of_benchmark(BenchmarkKind::MemoryAllocation),
        "memory_allocation"
    );
    assert_eq!(PerformanceProfiler::name_of_benchmark(BenchmarkKind::IoOperations), "io_operations");
}

#[test]
fn processor_workload_sums_the_squares() {
    assert_eq!(PerformanceProfiler::run_cpu_benchmark(), 333_328_333_350_000);
}

#[test]
fn host_figures() {
    assert_eq!(PerformanceProfiler::collect_memory_usage(8 << 30, 2 << 30), 6 * 1024);
    assert_eq!(PerformanceProfiler::collect_memory_usage(1, 2), 0);
    assert_eq!(PerformanceProfiler::collect_cpu_usage(&vec![10, 20, 31]), 20);
    assert_eq!(PerformanceProfiler::collect_cpu_usage(&Vec::new()), 0);
    assert_eq!(PerformanceProfiler::collect_cpu_usage(&vec![u64::MAX, u64::MAX]), u64::MAX);
}

#[test]
fn quiet_run_has_no_bottleneck() {
    let data = profiler().collect_profiling_data(&usage(45_000_000, 64), 2_000);
    assert_eq!(data.cpu_profile.cpu_utilization_percent, 45_000_000);
    assert_eq!(data.cpu_profile.total_cpu_time_ms, 900);
    assert_eq!(data.memory_profile.peak_heap_size_mb, 64);
    assert!(profiler().identify_bottlenecks(&data).is_empty());
    assert!(profiler().generate_recommendations(&data, &Vec::new()).is_empty());
}

#[test]
fn memory_hog_is_memory_bound() {
    let metrics = profiler().collect_metrics(1_500, &usage(10_000_000, 600), Vec::new());
    assert_eq!(metrics.execution_time_ms, 1_500);
    assert_eq!(metrics.memory_usage_mb, 600);
    assert_eq!(metrics.peak_memory_mb, 600);
    assert_eq!(metrics.disk_io_mb, 3);
    assert_eq!(metrics.network_io_mb, 5);
    assert_eq!(metrics.bottlenecks.len(), 1);
    assert_eq!(metrics.bottlenecks[0].bottleneck_type, BottleneckType::MemoryBound);
    assert_eq!(metrics.bottlenecks[0].severity, BottleneckSeverity::Medium);
    assert_eq!(metrics.bottlenecks[0].impact_percent, 30_000_000);
    assert_eq!(metrics.recommendations.len(), 1);
    assert_eq!(metrics.recommendations[0].recommendation_type, RecommendationType::MemoryOptimization);
}

#[test]
fn every_threshold_has_its_bottleneck() {
    let mut data = profiler().collect_profiling_data(&usage(95_000_000, 513), 10);
    data.memory_profile.memory_leaks = vec![
        MemoryLeak {
            allocation_site: "a".to_string(),
            leaked_bytes: 1,
            allocation_count: 1,
            confidence: 1,
        },
        MemoryLeak {
            allocation_site: "b".to_string(),
            leaked_bytes: 1,
            allocation_count: 1,
            confidence: 1,
        },
    ];
    data.io_profile.io_wait_time_ms = 101;
    data.io_profile.file_reads = 51;
    data.call_graph.call_depth = 11;
    let found = profiler().identify_bottlenecks(&data);
    assert_eq!(found.len(), 4);
    assert_eq!(found[0].bottleneck_type, BottleneckType::CpuBound);
    assert_eq!(found[0].severity, BottleneckSeverity::High);
    assert_eq!(found[0].impact_percent, 95_000_000);
    assert_eq!(found[1].bottleneck_type, BottleneckType::MemoryBound);
    assert_eq!(found[2].bottleneck_type, BottleneckType::MemoryLeak);
    assert_eq!(found[2].severity, BottleneckSeverity::Critical);
    assert_eq!(found[2].description, "2 memory leaks detected");
    assert_eq!(found[3].bottleneck_type, BottleneckType::IoBound);
    let advice = profiler().generate_recommendations(&data, &found);
    assert_eq!(advice.len(), 4);
    assert_eq!(advice[0].priority, RecommendationPriority::High);
    assert_eq!(advice[2].recommendation_type, RecommendationType::CachingStrategy);
    assert_eq!(advice[2].implementation_effort, ImplementationEffort::Low);
    assert_eq!(advice[3].recommendation_type, RecommendationType::ParallelProcessing);
    assert_eq!(advice[3].expected_improvement_percent, 40_000_000);
}

#[test]
fn thresholds_are_exclusive() {
    let mut data = profiler().collect_profiling_data(&usage(90_000_000, 512), 10);
    data.io_profile.io_wait_time_ms = 100;
    assert!(profiler().identify_bottlenecks(&data).is_empty());
    let advice = profiler().generate_recommendations(&data, &Vec::new());
    assert_eq!(advice.len(), 2);
    let calm = profiler().collect_profiling_data(&usage(70_000_000, 256), 10);
    assert!(profiler().generate_recommendations(&calm, &Vec::new()).is_empty());
}

#[test]
fn default_metrics_are_zero() {
    let metrics = PerformanceMetrics::default();
    assert_eq!(metrics.execution_time_ms, 0);
    assert_eq!(metrics.cpu_usage_percent, 0);
    assert!(metrics.benchmarks.is_empty());
    assert!(metrics.bottlenecks.is_empty());
    assert!(metrics.recommendations.is_empty());
    assert_eq!(metrics.profiling_data.memory_profile.peak_heap_size_mb, 0);
}
