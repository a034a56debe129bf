use kwality_runtime_validator::metrics::{
    AlertSeverity, AlertType, ContainerEvent, EngineMetrics, ErrorSeverity, HealthStatus,
    MetricsCollector, ResourceUsage, ScoreDistribution, TimeSeriesBuffer, TimeSeriesPoint,
    TrendDirection,
};
use kwality_runtime_validator::DataValue;
use std::collections::VecDeque;

fn engine(name: &str, executions: u64) -> EngineMetrics {
    EngineMetrics {
        engine_name: name.to_string(),
        total_executions: executions,
        avg_execution_time: 1,
        success_rate: 1_000_000,
        findings_generated: 0,
        resource_usage: ResourceUsage {
            cpu_time_ms: 0,
            memory_peak_mb: 0,
            disk_read_mb: 0,
            disk_write_mb: 0,
            network_rx_mb: 0,
            network_tx_mb: 0,
        },
    }
}

#[test]
fn ring_buffer_drops_the_oldest() {
    let mut series: VecDeque<TimeSeriesPoint> = VecDeque::new();
    for i in 0..5u64 {
        TimeSeriesBuffer::add_point(&mut series, 3, TimeSeriesPoint { timestamp: i, value: i * 10 });
        assert!(series.len() <= 3);
    }
    let kept: Vec<u64> = series.iter().map(|p| p.timestamp).collect();
    assert_eq!(kept, vec![2, 3, 4]);
    let mut none: VecDeque<TimeSeriesPoint> = VecDeque::new();
    TimeSeriesBuffer::add_point(&mut none, 0, TimeSeriesPoint { timestamp: 1, value: 1 });
    assert!(none.is_empty());
}

#[test]
fn the_four_series_are_separate() {
    let mut buffer = TimeSeriesBuffer::new(2);
    buffer.add_validation_time(1, 10);
    buffer.add_cpu_usage(2, 20);
    buffer.add_cpu_usage(3, 30);
    buffer.add_cpu_usage(4, 40);
    buffer.add_memory_usage(5, 50);
    buffer.add_error_rate(6, 60);
    assert_eq!(buffer.validation_times.len(), 1);
    assert_eq!(buffer.cpu_usage.len(), 2);
    assert_eq!(buffer.cpu_usage[0], TimeSeriesPoint { timestamp: 3, value: 30 });
    assert_eq!(buffer.cpu_usage[1], TimeSeriesPoint { timestamp: 4, value: 40 });
    assert_eq!(buffer.memory_usage[0].value, 50);
    assert_eq!(buffer.error_rates[0].timestamp, 6);
}

#[test]
fn a_new_sink_has_recorded_nothing() {
    let sink = MetricsCollector::new();
    assert_eq!(sink.validation_metrics.total_validations, 0);
    assert_eq!(sink.performance_metrics.cpu_usage_percent, 0);
    assert_eq!(sink.system_metrics.health_status, HealthStatus::Unknown);
    assert_eq!(sink.system_metrics.configuration_hash, "unknown");
    assert_eq!(sink.system_metrics.version_info.version, "0.1.0");
    assert_eq!(sink.error_metrics.total_errors, 0);
    assert_eq!(sink.time_series_buffer.max_points, 1000);
    assert!(sink.time_series_buffer.cpu_usage.is_empty());
}

#[test]
fn validations_move_the_average() {
    let mut sink = MetricsCollector::new();
    sink.record_validation(100, true, 85_000_000, &Vec::new(), 1);
    assert_eq!(sink.validation_metrics.total_validations, 1);
    assert_eq!(sink.validation_metrics.successful_validations, 1);
    assert_eq!(sink.validation_metrics.avg_validation_time, 100);
    sink.record_validation(201, false, 15_000_000, &Vec::new(), 2);
    assert_eq!(sink.validation_metrics.total_validations, 2);
    assert_eq!(sink.validation_metrics.failed_validations, 1);
    assert_eq!(sink.validation_metrics.avg_validation_time, 150);
    sink.record_validation(0, true, 100_000_000, &Vec::new(), 3);
    assert_eq!(sink.validation_metrics.avg_validation_time, 100);
    assert_eq!(sink.validation_metrics.validation_throughput, 555);
    let times: Vec<u64> =
        sink.time_series_buffer.validation_times.iter().map(|p| p.value).collect();
    assert_eq!(times, vec![100_000_000, 201_000_000, 0]);
    let histogram = &sink.validation_metrics.quality_score_distribution.score_histogram;
    assert_eq!(histogram.len(), 10);
    assert_eq!(histogram[8].count, 1);
    assert_eq!(histogram[1].count, 1);
    assert_eq!(histogram[9].count, 1);
    assert_eq!(histogram[9].range_start, 90_000_000);
    assert_eq!(histogram[9].range_end, 100_000_000);
    assert_eq!(
        sink.validation_metrics.quality_score_distribution.mean_score,
        (50_000_000 * 2 + 100_000_000) / 3
    );
}

#[test]
fn score_distribution_mean_and_bars() {
    let mut distribution = ScoreDistribution::default();
    MetricsCollector::update_score_distribution(&mut distribution, 40_000_000);
    assert_eq!(distribution.mean_score, 40_000_000);
    MetricsCollector::update_score_distribution(&mut distribution, 45_000_000);
    assert_eq!(distribution.mean_score, 42_500_000);
    assert_eq!(distribution.score_histogram[4].count, 2);
    MetricsCollector::update_score_distribution(&mut distribution, 9_999_999);
    assert_eq!(distribution.score_histogram[0].count, 1);
    MetricsCollector::update_score_distribution(&mut distribution, u64::MAX);
    assert_eq!(distribution.score_histogram[9].count, 1);
}

#[test]
fn engine_metrics_are_kept_by_name() {
    let mut sink = MetricsCollector::new();
    sink.record_validation(1, true, 0, &vec![engine("security", 1), engine("fuzz", 1)], 1);
    sink.record_validation(1, true, 0, &vec![engine("security", 2), engine("security", 3)], 2);
    let engines = &sink.validation_metrics.engine_metrics;
    assert_eq!(engines.len(), 2);
    assert_eq!(engines[0].engine_name, "security");
    assert_eq!(engines[0].total_executions, 3);
    assert_eq!(engines[1].engine_name, "fuzz");
}

#[test]
fn performance_samples_keep_the_peak() {
    let mut sink = MetricsCollector::new();
    sink.record_performance_on(50_000_000, 4096, 10, 100, 4, 1);
    sink.record_performance_on(25_000_000, 1024, 5, 50, 4, 2);
    let metrics = sink.performance_metrics;
    assert_eq!(metrics.cpu_usage_percent, 25_000_000);
    assert_eq!(metrics.memory_usage_mb, 1024);
    assert_eq!(metrics.memory_peak_mb, 4096);
    assert_eq!(metrics.disk_io_ops, 15);
    assert_eq!(metrics.network_io_bytes, 150);
    assert_eq!(metrics.resource_utilization.cpu_cores_used, 1_000_000);
    assert_eq!(metrics.resource_utilization.memory_efficiency, 125_000);
    assert_eq!(sink.time_series_buffer.cpu_usage.len(), 2);
    assert_eq!(sink.time_series_buffer.memory_usage[0].value, 4_096_000_000);
    sink.record_performance_on(0, 0, u64::MAX, u64::MAX, 1, 3);
    assert_eq!(sink.performance_metrics.disk_io_ops, u64::MAX);
    assert_eq!(sink.performance_metrics.network_io_bytes, u64::MAX);
}

#[test]
fn performance_on_this_host_counts_at_least_one_processor() {
    let mut sink = MetricsCollector::new();
    sink.record_performance(50_000_000, 8192, 0, 0, 9);
    assert!(sink.performance_metrics.resource_utilization.cpu_cores_used >= 500_000);
    assert_eq!(sink.performance_metrics.resource_utilization.cpu_cores_used % 500_000, 0);
    assert_eq!(sink.performance_metrics.resource_utilization.memory_efficiency, 1_000_000);
    assert_eq!(sink.time_series_buffer.cpu_usage[0], TimeSeriesPoint { timestamp: 9, value: 50_000_000 });
}

#[test]
fn container_events_are_counted() {
    let mut sink = MetricsCollector::new();
    sink.record_container_event(ContainerEvent::Created);
    sink.record_container_event(ContainerEvent::Created);
    sink.record_container_event(ContainerEvent::Destroyed { lifetime: 1_000 });
    sink.record_container_event(ContainerEvent::Destroyed { lifetime: 2_001 });
    sink.record_container_event(ContainerEvent::Failed);
    sink.record_container_event(ContainerEvent::ResourceViolation);
    let c = sink.performance_metrics.container_metrics;
    assert_eq!(c.containers_created, 2);
    assert_eq!(c.containers_destroyed, 2);
    assert_eq!(c.avg_container_lifetime, 1_500);
    assert_eq!(c.container_failures, 1);
    assert_eq!(c.resource_violations, 1);
}

#[test]
fn errors_are_counted_by_kind_and_kept() {
    let mut sink = MetricsCollector::new();
    sink.record_error("Timeout".to_string(), "first".to_string(), ErrorSeverity::High, 1);
    sink.record_error("Io".to_string(), "second".to_string(), ErrorSeverity::Low, 2);
    sink.record_error("Timeout".to_string(), "third".to_string(), ErrorSeverity::High, 3);
    let e = &sink.error_metrics;
    assert_eq!(e.total_errors, 3);
    assert_eq!(e.error_rate, 50_000);
    assert_eq!(e.error_types.len(), 2);
    assert_eq!(e.error_types[0].error_type, "Timeout");
    assert_eq!(e.error_types[0].count, 2);
    assert_eq!(e.error_types[1].count, 1);
    assert_eq!(e.recent_errors.len(), 3);
    assert_eq!(e.recent_errors[2].error_message, "third");
    assert_eq!(e.recent_errors[2].timestamp, 3);
    assert_eq!(e.recent_errors[1].severity, ErrorSeverity::Low);
    let rates: Vec<u64> = sink.time_series_buffer.error_rates.iter().map(|p| p.value).collect();
    assert_eq!(rates, vec![16_666, 33_333, 50_000]);
}

#[test]
fn only_the_last_hundred_errors_are_kept() {
    let mut sink = MetricsCollector::new();
    for i in 0..130u64 {
        sink.record_error("E".to_string(), format!("m{}", i), ErrorSeverity::Info, i);
    }
    assert_eq!(sink.error_metrics.total_errors, 130);
    assert_eq!(sink.error_metrics.recent_errors.len(), 100);
    assert_eq!(sink.error_metrics.recent_errors[0].error_message, "m30");
    assert_eq!(sink.error_metrics.recent_errors[99].error_message, "m129");
    assert_eq!(sink.error_metrics.error_types[0].count, 130);
}

#[test]
fn alerts_at_their_thresholds() {
    let mut sink = MetricsCollector::new();
    let quiet = sink.get_metrics_summary(7);
    assert_eq!(quiet.alerts.len(), 1);
    assert_eq!(quiet.alerts[0].alert_type, AlertType::LowThroughput);
    assert_eq!(quiet.alerts[0].severity, AlertSeverity::Warning);
    assert_eq!(quiet.alerts[0].threshold, 100_000);
    assert_eq!(quiet.alerts[0].actual_value, 0);
    assert_eq!(quiet.alerts[0].timestamp, 7);
    assert_eq!(quiet.trends.validation_time_trend, TrendDirection::Stable);
    assert_eq!(quiet.trends.error_rate_trend, TrendDirection::Decreasing);
    assert_eq!(quiet.trends.throughput_trend, TrendDirection::Increasing);

    sink.validation_metrics.validation_throughput = 100_000;
    sink.performance_metrics.cpu_usage_percent = 90_000_000;
    sink.error_metrics.error_rate = 10_000_000;
    assert!(sink.get_metrics_summary(8).alerts.is_empty());

    sink.performance_metrics.cpu_usage_percent = 90_000_001;
    sink.error_metrics.error_rate = 10_000_001;
    let loud = sink.get_metrics_summary(9);
    assert_eq!(loud.alerts.len(), 2);
    assert_eq!(loud.alerts[0].alert_type, AlertType::HighErrorRate);
    assert_eq!(loud.alerts[0].severity, AlertSeverity::Critical);
    assert_eq!(loud.alerts[0].message, "Error rate exceeds threshold");
    assert_eq!(loud.alerts[1].alert_type, AlertType::ResourceExhaustion);
    assert_eq!(loud.alerts[1].severity, AlertSeverity::Warning);
    assert_eq!(loud.alerts[1].actual_value, 90_000_001);
    assert_eq!(loud.performance_metrics, sink.performance_metrics);
    assert_eq!(loud.error_metrics, sink.error_metrics);
}

#[test]
fn system_status_is_noted() {
    let mut sink = MetricsCollector::new();
    sink.update_system_status(4, 17, HealthStatus::Degraded);
    assert_eq!(sink.system_metrics.active_workers, 4);
    assert_eq!(sink.system_metrics.queue_depth, 17);
    assert_eq!(sink.system_metrics.health_status, HealthStatus::Degraded);
    assert_eq!(sink.system_metrics.uptime, 0);
}

#[test]
fn prometheus_text_has_the_five_metrics() {
    let mut sink = MetricsCollector::new();
    sink.record_validation(1_234, true, 0, &Vec::new(), 1);
    sink.record_performance_on(12_345_678, 512, 0, 0, 1, 1);
    sink.update_system_status(3, 0, HealthStatus::Healthy);
    let expected = "# HELP kwality_validations_total Total number of validations performed\n\
# TYPE kwality_validations_total counter\n\
kwality_validations_total 1\n\
# HELP kwality_validation_duration_seconds Average validation duration\n\
# TYPE kwality_validation_duration_seconds gauge\n\
kwality_validation_duration_seconds 1.234\n\
# HELP kwality_cpu_usage_percent Current CPU usage percentage\n\
# TYPE kwality_cpu_usage_percent gauge\n\
kwality_cpu_usage_percent 12.35\n\
# HELP kwality_memory_usage_mb Current memory usage in MB\n\
# TYPE kwality_memory_usage_mb gauge\n\
kwality_memory_usage_mb 512\n\
# HELP kwality_active_workers Number of active worker processes\n\
# TYPE kwality_active_workers gauge\n\
kwality_active_workers 3\n";
    assert_eq!(sink.export_prometheus(), expected);
}

#[test]
fn realtime_metrics_by_name() {
    let mut sink = MetricsCollector::new();
    sink.record_validation(10, true, 0, &Vec::new(), 1);
    sink.record_performance_on(1_500_000, 64, 0, 0, 1, 1);
    sink.update_system_status(2, 5, HealthStatus::Healthy);
    let shown = sink.get_realtime_metrics();
    let keys: Vec<&str> = shown.iter().map(|e| e.key.as_str()).collect();
    assert_eq!(
        keys,
        vec![
            "total_validations",
            "validation_throughput",
            "cpu_usage",
            "memory_usage_mb",
            "active_workers",
            "queue_depth",
        ]
    );
    assert_eq!(shown[0].value, DataValue::Count(1));
    assert_eq!(shown[1].value, DataValue::Fraction(277));
    assert_eq!(shown[2].value, DataValue::Fraction(1_500_000));
    assert_eq!(shown[3].value, DataValue::Count(64));
    assert_eq!(shown[4].value, DataValue::Count(2));
    assert_eq!(shown[5].value, DataValue::Count(5));
}
