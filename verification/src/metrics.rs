//! The metrics sink: counters, moving averages, bounded time series, alerts
//! and the textual export.

use std::collections::VecDeque;
use vstd::prelude::*;

use crate::outside::cpu_count;
use crate::text::{decimal, decimal_digits, fixed, fixed_digits, same_text, thousandths, thousandths_digits};
use crate::{DataEntry, DataEntryModel, DataValueModel, TextEntry, TextEntryModel};

verus! {

/// The health of the validation service.
#[derive(Debug, Clone, Copy, PartialEq, Eq, Structural)]
pub enum HealthStatus {
    Healthy,
    Degraded,
    Critical,
    Unknown,
}

impl DeepView for HealthStatus {
    type V = HealthStatus;

    open spec fn deep_view(&self) -> HealthStatus {
        *self
    }
}

/// How grave a recorded error is.
#[derive(Debug, Clone, Copy, PartialEq, Eq, Structural)]
pub enum ErrorSeverity {
    Critical,
    High,
    Medium,
    Low,
    Info,
}

impl DeepView for ErrorSeverity {
    type V = ErrorSeverity;

    open spec fn deep_view(&self) -> ErrorSeverity {
        *self
    }
}

/// The direction a metric is moving in.
#[derive(Debug, Clone, Copy, PartialEq, Eq, Structural)]
pub enum TrendDirection {
    Increasing,
    Decreasing,
    Stable,
    Volatile,
}

impl DeepView for TrendDirection {
    type V = TrendDirection;

    open spec fn deep_view(&self) -> TrendDirection {
        *self
    }
}

/// What an alert is about.
#[derive(Debug, Clone, Copy, PartialEq, Eq, Structural)]
pub enum AlertType {
    HighErrorRate,
    LowThroughput,
    ResourceExhaustion,
    QualityDegradation,
    SystemFailure,
}

impl DeepView for AlertType {
    type V = AlertType;

    open spec fn deep_view(&self) -> AlertType {
        *self
    }
}

/// How grave an alert is.
#[derive(Debug, Clone, Copy, PartialEq, Eq, Structural)]
pub enum AlertSeverity {
    Critical,
    Warning,
    Info,
}

impl DeepView for AlertSeverity {
    type V = AlertSeverity;

    open spec fn deep_view(&self) -> AlertSeverity {
        *self
    }
}

/// What one engine consumed.
#[derive(Debug, Clone, Copy, PartialEq, Eq, Structural)]
pub struct ResourceUsage {
    pub cpu_time_ms: u64,
    pub memory_peak_mb: u64,
    pub disk_read_mb: u64,
    pub disk_write_mb: u64,
    pub network_rx_mb: u64,
    pub network_tx_mb: u64,
}

impl DeepView for ResourceUsage {
    type V = ResourceUsage;

    open spec fn deep_view(&self) -> ResourceUsage {
        *self
    }
}

/// Counters of one validation engine.
#[derive(Debug, PartialEq, Eq)]
pub struct EngineMetrics {
    pub engine_name: String,
    pub total_executions: u64,
    /// In milliseconds.
    pub avg_execution_time: u64,
    /// In millionths.
    pub success_rate: u64,
    pub findings_generated: u64,
    pub resource_usage: ResourceUsage,
}

/// The mathematical value of a [`EngineMetrics`].
pub ghost struct EngineMetricsModel {
    pub engine_name: Seq<char>,
    pub total_executions: u64,
    pub avg_execution_time: u64,
    pub success_rate: u64,
    pub findings_generated: u64,
    pub resource_usage: ResourceUsage,
}

impl DeepView for EngineMetrics {
    type V = EngineMetricsModel;

    open spec fn deep_view(&self) -> EngineMetricsModel {
        EngineMetricsModel {
            engine_name: self.engine_name.deep_view(),
            total_executions: self.total_executions.deep_view(),
            avg_execution_time: self.avg_execution_time.deep_view(),
            success_rate: self.success_rate.deep_view(),
            findings_generated: self.findings_generated.deep_view(),
            resource_usage: self.resource_usage.deep_view(),
        }
    }
}

impl Clone for EngineMetrics {
    fn clone(&self) -> (r: Self)
        ensures
            r.deep_view() == self.deep_view(),
    {
        let r = EngineMetrics {
            engine_name: self.engine_name.clone(),
            total_executions: self.total_executions,
            avg_execution_time: self.avg_execution_time,
            success_rate: self.success_rate,
            findings_generated: self.findings_generated,
            resource_usage: self.resource_usage,
        };
        r
    }
}

/// One bar of the score histogram.
#[derive(Debug, Clone, Copy, PartialEq, Eq, Structural)]
pub struct ScoreBucket {
    /// In millionths of a point.
    pub range_start: u64,
    /// In millionths of a point.
    pub range_end: u64,
    pub count: u64,
}

impl DeepView for ScoreBucket {
    type V = ScoreBucket;

    open spec fn deep_view(&self) -> ScoreBucket {
        *self
    }
}

/// One named percentile of the score distribution.
#[derive(Debug, PartialEq, Eq)]
pub struct Percentile {
    pub name: String,
    /// In millionths of a point.
    pub value: u64,
}

/// The mathematical value of a [`Percentile`].
pub ghost struct PercentileModel {
    pub name: Seq<char>,
    pub value: u64,
}

impl DeepView for Percentile {
    type V = PercentileModel;

    open spec fn deep_view(&self) -> PercentileModel {
        PercentileModel {
            name: self.name.deep_view(),
            value: self.value.deep_view(),
        }
    }
}

impl Clone for Percentile {
    fn clone(&self) -> (r: Self)
        ensures
            r.deep_view() == self.deep_view(),
    {
        let r = Percentile {
            name: self.name.clone(),
            value: self.value,
        };
        r
    }
}

/// How the overall scores are distributed.
#[derive(Debug, PartialEq, Eq)]
pub struct ScoreDistribution {
    /// In millionths of a point.
    pub mean_score: u64,
    /// In millionths of a point.
    pub median_score: u64,
    /// In millionths of a point.
    pub std_deviation: u64,
    pub percentiles: Vec<Percentile>,
    pub score_histogram: Vec<ScoreBucket>,
}

/// The mathematical value of a [`ScoreDistribution`].
pub ghost struct ScoreDistributionModel {
    pub mean_score: u64,
    pub median_score: u64,
    pub std_deviation: u64,
    pub percentiles: Seq<PercentileModel>,
    pub score_histogram: Seq<ScoreBucket>,
}

impl DeepView for ScoreDistribution {
    type V = ScoreDistributionModel;

    open spec fn deep_view(&self) -> ScoreDistributionModel {
        ScoreDistributionModel {
            mean_score: self.mean_score.deep_view(),
            median_score: self.median_score.deep_view(),
            std_deviation: self.std_deviation.deep_view(),
            percentiles: self.percentiles.deep_view(),
            score_histogram: self.score_histogram.deep_view(),
        }
    }
}

impl Clone for ScoreDistribution {
    fn clone(&self) -> (r: Self)
        ensures
            r.deep_view() == self.deep_view(),
    {
        let r = ScoreDistribution {
            mean_score: self.mean_score,
            median_score: self.median_score,
            std_deviation: self.std_deviation,
            percentiles: self.percentiles.clone(),
            score_histogram: self.score_histogram.clone(),
        };
        assert(r.percentiles.deep_view() =~= self.percentiles.deep_view());
        assert(r.score_histogram.deep_view() =~= self.score_histogram.deep_view());
        r
    }
}

/// Counters over all validations.
#[derive(Debug, PartialEq, Eq)]
pub struct ValidationMetrics {
    pub total_validations: u64,
    pub successful_validations: u64,
    pub failed_validations: u64,
    /// In milliseconds.
    pub avg_validation_time: u64,
    /// In millionths of a validation per second.
    pub validation_throughput: u64,
    /// One entry for each engine, found by its name.
    pub engine_metrics: Vec<EngineMetrics>,
    pub quality_score_distribution: ScoreDistribution,
}

/// The mathematical value of a [`ValidationMetrics`].
pub ghost struct ValidationMetricsModel {
    pub total_validations: u64,
    pub successful_validations: u64,
    pub failed_validations: u64,
    pub avg_validation_time: u64,
    pub validation_throughput: u64,
    pub engine_metrics: Seq<EngineMetricsModel>,
    pub quality_score_distribution: ScoreDistributionModel,
}

impl DeepView for ValidationMetrics {
    type V = ValidationMetricsModel;

    open spec fn deep_view(&self) -> ValidationMetricsModel {
        ValidationMetricsModel {
            total_validations: self.total_validations.deep_view(),
            successful_validations: self.successful_validations.deep_view(),
            failed_validations: self.failed_validations.deep_view(),
            avg_validation_time: self.avg_validation_time.deep_view(),
            validation_throughput: self.validation_throughput.deep_view(),
            engine_metrics: self.engine_metrics.deep_view(),
            quality_score_distribution: self.quality_score_distribution.deep_view(),
        }
    }
}

impl Clone for ValidationMetrics {
    fn clone(&self) -> (r: Self)
        ensures
            r.deep_view() == self.deep_view(),
    {
        let r = ValidationMetrics {
            total_validations: self.total_validations,
            successful_validations: self.successful_validations,
            failed_validations: self.failed_validations,
            avg_validation_time: self.avg_validation_time,
            validation_throughput: self.validation_throughput,
            engine_metrics: self.engine_metrics.clone(),
            quality_score_distribution: self.quality_score_distribution.clone(),
        };
        assert(r.engine_metrics.deep_view() =~= self.engine_metrics.deep_view());
        r
    }
}

/// Counters over all containers.
#[derive(Debug, Clone, Copy, PartialEq, Eq, Structural)]
pub struct ContainerMetrics {
    pub containers_created: u64,
    pub containers_destroyed: u64,
    /// In milliseconds.
    pub avg_container_lifetime: u64,
    pub container_failures: u64,
    pub resource_violations: u64,
}

impl DeepView for ContainerMetrics {
    type V = ContainerMetrics;

    open spec fn deep_view(&self) -> ContainerMetrics {
        *self
    }
}

/// How much of the host is in use, each in millionths.
#[derive(Debug, Clone, Copy, PartialEq, Eq, Structural)]
pub struct ResourceUtilization {
    pub cpu_cores_used: u64,
    pub memory_efficiency: u64,
    pub disk_io_efficiency: u64,
    pub network_bandwidth_used: u64,
    pub container_density: u64,
}

impl DeepView for ResourceUtilization {
    type V = ResourceUtilization;

    open spec fn deep_view(&self) -> ResourceUtilization {
        *self
    }
}

/// Resource counters of the validation service.
#[derive(Debug, Clone, Copy, PartialEq, Eq, Structural)]
pub struct PerformanceMetrics {
    /// In millionths of a percent.
    pub cpu_usage_percent: u64,
    pub memory_usage_mb: u64,
    pub memory_peak_mb: u64,
    pub disk_io_ops: u64,
    pub network_io_bytes: u64,
    pub container_metrics: ContainerMetrics,
    pub resource_utilization: ResourceUtilization,
}

impl DeepView for PerformanceMetrics {
    type V = PerformanceMetrics;

    open spec fn deep_view(&self) -> PerformanceMetrics {
        *self
    }
}

/// Version and build of the service.
#[derive(Debug, PartialEq, Eq)]
pub struct VersionInfo {
    pub version: String,
    pub build_date: String,
    pub git_commit: String,
    pub rust_version: String,
}

/// The mathematical value of a [`VersionInfo`].
pub ghost struct VersionInfoModel {
    pub version: Seq<char>,
    pub build_date: Seq<char>,
    pub git_commit: Seq<char>,
    pub rust_version: Seq<char>,
}

impl DeepView for VersionInfo {
    type V = VersionInfoModel;

    open spec fn deep_view(&self) -> VersionInfoModel {
        VersionInfoModel {
            version: self.version.deep_view(),
            build_date: self.build_date.deep_view(),
            git_commit: self.git_commit.deep_view(),
            rust_version: self.rust_version.deep_view(),
        }
    }
}

impl Clone for VersionInfo {
    fn clone(&self) -> (r: Self)
        ensures
            r.deep_view() == self.deep_view(),
    {
        let r = VersionInfo {
            version: self.version.clone(),
            build_date: self.build_date.clone(),
            git_commit: self.git_commit.clone(),
            rust_version: self.rust_version.clone(),
        };
        r
    }
}

/// The state of the service as a whole.
#[derive(Debug, PartialEq, Eq)]
pub struct SystemMetrics {
    /// In milliseconds.
    pub uptime: u64,
    pub active_workers: u32,
    pub queue_depth: u32,
    pub health_status: HealthStatus,
    pub version_info: VersionInfo,
    pub configuration_hash: String,
}

/// The mathematical value of a [`SystemMetrics`].
pub ghost struct SystemMetricsModel {
    pub uptime: u64,
    pub active_workers: u32,
    pub queue_depth: u32,
    pub health_status: HealthStatus,
    pub version_info: VersionInfoModel,
    pub configuration_hash: Seq<char>,
}

impl DeepView for SystemMetrics {
    type V = SystemMetricsModel;

    open spec fn deep_view(&self) -> SystemMetricsModel {
        SystemMetricsModel {
            uptime: self.uptime.deep_view(),
            active_workers: self.active_workers.deep_view(),
            queue_depth: self.queue_depth.deep_view(),
            health_status: self.health_status.deep_view(),
            version_info: self.version_info.deep_view(),
            configuration_hash: self.configuration_hash.deep_view(),
        }
    }
}

impl Clone for SystemMetrics {
    fn clone(&self) -> (r: Self)
        ensures
            r.deep_view() == self.deep_view(),
    {
        let r = SystemMetrics {
            uptime: self.uptime,
            active_workers: self.active_workers,
            queue_depth: self.queue_depth,
            health_status: self.health_status,
            version_info: self.version_info.clone(),
            configuration_hash: self.configuration_hash.clone(),
        };
        r
    }
}

/// One recorded error.
#[derive(Debug, PartialEq, Eq)]
pub struct ErrorEvent {
    /// Milliseconds since the Unix epoch.
    pub timestamp: u64,
    pub error_type: String,
    pub error_message: String,
    pub severity: ErrorSeverity,
    pub context: Vec<TextEntry>,
}

/// The mathematical value of a [`ErrorEvent`].
pub ghost struct ErrorEventModel {
    pub timestamp: u64,
    pub error_type: Seq<char>,
    pub error_message: Seq<char>,
    pub severity: ErrorSeverity,
    pub context: Seq<TextEntryModel>,
}

impl DeepView for ErrorEvent {
    type V = ErrorEventModel;

    open spec fn deep_view(&self) -> ErrorEventModel {
        ErrorEventModel {
            timestamp: self.timestamp.deep_view(),
            error_type: self.error_type.deep_view(),
            error_message: self.error_message.deep_view(),
            severity: self.severity.deep_view(),
            context: self.context.deep_view(),
        }
    }
}

impl Clone for ErrorEvent {
    fn clone(&self) -> (r: Self)
        ensures
            r.deep_view() == self.deep_view(),
    {
        let r = ErrorEvent {
            timestamp: self.timestamp,
            error_type: self.error_type.clone(),
            error_message: self.error_message.clone(),
            severity: self.severity,
            context: self.context.clone(),
        };
        assert(r.context.deep_view() =~= self.context.deep_view());
        r
    }
}

/// How often one kind of error was recorded.
#[derive(Debug, PartialEq, Eq)]
pub struct ErrorCount {
    pub error_type: String,
    pub count: u64,
}

/// The mathematical value of a [`ErrorCount`].
pub ghost struct ErrorCountModel {
    pub error_type: Seq<char>,
    pub count: u64,
}

impl DeepView for ErrorCount {
    type V = ErrorCountModel;

    open spec fn deep_view(&self) -> ErrorCountModel {
        ErrorCountModel {
            error_type: self.error_type.deep_view(),
            count: self.count.deep_view(),
        }
    }
}

impl Clone for ErrorCount {
    fn clone(&self) -> (r: Self)
        ensures
            r.deep_view() == self.deep_view(),
    {
        let r = ErrorCount {
            error_type: self.error_type.clone(),
            count: self.count,
        };
        r
    }
}

/// Counters over all recorded errors.
#[derive(Debug, PartialEq, Eq)]
pub struct ErrorMetrics {
    pub total_errors: u64,
    /// In millionths of an error per minute.
    pub error_rate: u64,
    /// One entry for each kind, found by its name.
    pub error_types: Vec<ErrorCount>,
    /// The most recent errors, oldest first.
    pub recent_errors: VecDeque<ErrorEvent>,
    pub critical_failures: u64,
    pub timeout_events: u64,
}

/// The mathematical value of a [`ErrorMetrics`].
pub ghost struct ErrorMetricsModel {
    pub total_errors: u64,
    pub error_rate: u64,
    pub error_types: Seq<ErrorCountModel>,
    pub recent_errors: Seq<ErrorEventModel>,
    pub critical_failures: u64,
    pub timeout_events: u64,
}

impl DeepView for ErrorMetrics {
    type V = ErrorMetricsModel;

    open spec fn deep_view(&self) -> ErrorMetricsModel {
        ErrorMetricsModel {
            total_errors: self.total_errors.deep_view(),
            error_rate: self.error_rate.deep_view(),
            error_types: self.error_types.deep_view(),
            recent_errors: self.recent_errors.deep_view(),
            critical_failures: self.critical_failures.deep_view(),
            timeout_events: self.timeout_events.deep_view(),
        }
    }
}

impl Clone for ErrorMetrics {
    fn clone(&self) -> (r: Self)
        ensures
            r.deep_view() == self.deep_view(),
    {
        let r = ErrorMetrics {
            total_errors: self.total_errors,
            error_rate: self.error_rate,
            error_types: self.error_types.clone(),
            recent_errors: self.recent_errors.clone(),
            critical_failures: self.critical_failures,
            timeout_events: self.timeout_events,
        };
        assert(r.error_types.deep_view() =~= self.error_types.deep_view());
        assert(r.recent_errors.deep_view() =~= self.recent_errors.deep_view());
        r
    }
}

/// One sample of a time series.
#[derive(Debug, Clone, Copy, PartialEq, Eq, Structural)]
pub struct TimeSeriesPoint {
    /// Milliseconds since the Unix epoch.
    pub timestamp: u64,
    /// In millionths of the series' unit.
    pub value: u64,
}

impl DeepView for TimeSeriesPoint {
    type V = TimeSeriesPoint;

    open spec fn deep_view(&self) -> TimeSeriesPoint {
        *self
    }
}

/// Four time series, each holding at most `max_points` samples, oldest first.
#[derive(Debug, PartialEq, Eq)]
pub struct TimeSeriesBuffer {
    pub validation_times: VecDeque<TimeSeriesPoint>,
    pub cpu_usage: VecDeque<TimeSeriesPoint>,
    pub memory_usage: VecDeque<TimeSeriesPoint>,
    pub error_rates: VecDeque<TimeSeriesPoint>,
    pub max_points: usize,
}

/// The mathematical value of a [`TimeSeriesBuffer`].
pub ghost struct TimeSeriesBufferModel {
    pub validation_times: Seq<TimeSeriesPoint>,
    pub cpu_usage: Seq<TimeSeriesPoint>,
    pub memory_usage: Seq<TimeSeriesPoint>,
    pub error_rates: Seq<TimeSeriesPoint>,
    pub max_points: usize,
}

impl DeepView for TimeSeriesBuffer {
    type V = TimeSeriesBufferModel;

    open spec fn deep_view(&self) -> TimeSeriesBufferModel {
        TimeSeriesBufferModel {
            validation_times: self.validation_times.deep_view(),
            cpu_usage: self.cpu_usage.deep_view(),
            memory_usage: self.memory_usage.deep_view(),
            error_rates: self.error_rates.deep_view(),
            max_points: self.max_points.deep_view(),
        }
    }
}

impl Clone for TimeSeriesBuffer {
    fn clone(&self) -> (r: Self)
        ensures
            r.deep_view() == self.deep_view(),
    {
        let r = TimeSeriesBuffer {
            validation_times: self.validation_times.clone(),
            cpu_usage: self.cpu_usage.clone(),
            memory_usage: self.memory_usage.clone(),
            error_rates: self.error_rates.clone(),
            max_points: self.max_points,
        };
        assert(r.validation_times.deep_view() =~= self.validation_times.deep_view());
        assert(r.cpu_usage.deep_view() =~= self.cpu_usage.deep_view());
        assert(r.memory_usage.deep_view() =~= self.memory_usage.deep_view());
        assert(r.error_rates.deep_view() =~= self.error_rates.deep_view());
        r
    }
}

/// The direction of each tracked metric.
#[derive(Debug, Clone, Copy, PartialEq, Eq, Structural)]
pub struct TrendAnalysis {
    pub validation_time_trend: TrendDirection,
    pub error_rate_trend: TrendDirection,
    pub throughput_trend: TrendDirection,
    pub resource_usage_trend: TrendDirection,
}

impl DeepView for TrendAnalysis {
    type V = TrendAnalysis;

    open spec fn deep_view(&self) -> TrendAnalysis {
        *self
    }
}

/// A threshold that was crossed.
#[derive(Debug, PartialEq, Eq)]
pub struct MetricAlert {
    pub alert_type: AlertType,
    pub severity: AlertSeverity,
    pub message: String,
    /// In millionths of the metric's unit.
    pub threshold: u64,
    /// In millionths of the metric's unit.
    pub actual_value: u64,
    /// Milliseconds since the Unix epoch.
    pub timestamp: u64,
}

/// The mathematical value of a [`MetricAlert`].
pub ghost struct MetricAlertModel {
    pub alert_type: AlertType,
    pub severity: AlertSeverity,
    pub message: Seq<char>,
    pub threshold: u64,
    pub actual_value: u64,
    pub timestamp: u64,
}

impl DeepView for MetricAlert {
    type V = MetricAlertModel;

    open spec fn deep_view(&self) -> MetricAlertModel {
        MetricAlertModel {
            alert_type: self.alert_type.deep_view(),
            severity: self.severity.deep_view(),
            message: self.message.deep_view(),
            threshold: self.threshold.deep_view(),
            actual_value: self.actual_value.deep_view(),
            timestamp: self.timestamp.deep_view(),
        }
    }
}

impl Clone for MetricAlert {
    fn clone(&self) -> (r: Self)
        ensures
            r.deep_view() == self.deep_view(),
    {
        let r = MetricAlert {
            alert_type: self.alert_type,
            severity: self.severity,
            message: self.message.clone(),
            threshold: self.threshold,
            actual_value: self.actual_value,
            timestamp: self.timestamp,
        };
        r
    }
}

/// A snapshot of all metrics with the alerts they raise.
#[derive(Debug, PartialEq, Eq)]
pub struct MetricsSummary {
    pub validation_metrics: ValidationMetrics,
    pub performance_metrics: PerformanceMetrics,
    pub system_metrics: SystemMetrics,
    pub error_metrics: ErrorMetrics,
    pub trends: TrendAnalysis,
    pub alerts: Vec<MetricAlert>,
}

/// The mathematical value of a [`MetricsSummary`].
pub ghost struct MetricsSummaryModel {
    pub validation_metrics: ValidationMetricsModel,
    pub performance_metrics: PerformanceMetrics,
    pub system_metrics: SystemMetricsModel,
    pub error_metrics: ErrorMetricsModel,
    pub trends: TrendAnalysis,
    pub alerts: Seq<MetricAlertModel>,
}

impl DeepView for MetricsSummary {
    type V = MetricsSummaryModel;

    open spec fn deep_view(&self) -> MetricsSummaryModel {
        MetricsSummaryModel {
            validation_metrics: self.validation_metrics.deep_view(),
            performance_metrics: self.performance_metrics.deep_view(),
            system_metrics: self.system_metrics.deep_view(),
            error_metrics: self.error_metrics.deep_view(),
            trends: self.trends.deep_view(),
            alerts: self.alerts.deep_view(),
        }
    }
}

impl Clone for MetricsSummary {
    fn clone(&self) -> (r: Self)
        ensures
            r.deep_view() == self.deep_view(),
    {
        let r = MetricsSummary {
            validation_metrics: self.validation_metrics.clone(),
            performance_metrics: self.performance_metrics,
            system_metrics: self.system_metrics.clone(),
            error_metrics: self.error_metrics.clone(),
            trends: self.trends,
            alerts: self.alerts.clone(),
        };
        assert(r.alerts.deep_view() =~= self.alerts.deep_view());
        r
    }
}

/// The metrics sink.
#[derive(Debug, PartialEq, Eq)]
pub struct MetricsCollector {
    pub validation_metrics: ValidationMetrics,
    pub performance_metrics: PerformanceMetrics,
    pub system_metrics: SystemMetrics,
    pub error_metrics: ErrorMetrics,
    pub time_series_buffer: TimeSeriesBuffer,
}

/// The mathematical value of a [`MetricsCollector`].
pub ghost struct MetricsCollectorModel {
    pub validation_metrics: ValidationMetricsModel,
    pub performance_metrics: PerformanceMetrics,
    pub system_metrics: SystemMetricsModel,
    pub error_metrics: ErrorMetricsModel,
    pub time_series_buffer: TimeSeriesBufferModel,
}

impl DeepView for MetricsCollector {
    type V = MetricsCollectorModel;

    open spec fn deep_view(&self) -> MetricsCollectorModel {
        MetricsCollectorModel {
            validation_metrics: self.validation_metrics.deep_view(),
            performance_metrics: self.performance_metrics.deep_view(),
            system_metrics: self.system_metrics.deep_view(),
            error_metrics: self.error_metrics.deep_view(),
            time_series_buffer: self.time_series_buffer.deep_view(),
        }
    }
}

impl Clone for MetricsCollector {
    fn clone(&self) -> (r: Self)
        ensures
            r.deep_view() == self.deep_view(),
    {
        let r = MetricsCollector {
            validation_metrics: self.validation_metrics.clone(),
            performance_metrics: self.performance_metrics,
            system_metrics: self.system_metrics.clone(),
            error_metrics: self.error_metrics.clone(),
            time_series_buffer: self.time_series_buffer.clone(),
        };
        r
    }
}

/// What the sink is told about a container.
#[derive(Debug, Clone, Copy, PartialEq, Eq, Structural)]
pub enum ContainerEvent {
    Created,
    /// The container is gone after `lifetime` milliseconds.
    Destroyed { lifetime: u64 },
    Failed,
    ResourceViolation,
}

/// A series with one more sample at its end, without its oldest sample when
/// it would hold more than `max_points`.
pub open spec fn series_after(series: Seq<TimeSeriesPoint>, max_points: usize, point: TimeSeriesPoint) -> Seq<
    TimeSeriesPoint,
> {
    if series.len() + 1 > max_points {
        series.push(point).subrange(1, series.len() as int + 1)
    } else {
        series.push(point)
    }
}

/// `x`, held at the largest number a `u64` can take.
pub open spec fn saturated(x: int) -> u64 {
    if x > u64::MAX {
        u64::MAX
    } else if x < 0 {
        0
    } else {
        x as u64
    }
}

fn saturate(x: u128) -> (r: u64)
    ensures
        r == saturated(x as int),
{
    if x > 0xffff_ffff_ffff_ffff {
        u64::MAX
    } else {
        x as u64
    }
}

fn times(a: u64, b: u64) -> (r: u128)
    ensures
        r == a * b,
        r <= 0xffff_ffff_ffff_fffe_0000_0000_0000_0001,
{
    assert(a * b <= 0xffff_ffff_ffff_ffff * 0xffff_ffff_ffff_ffff) by (nonlinear_arith)
        requires
            a <= 0xffff_ffff_ffff_ffff,
            b <= 0xffff_ffff_ffff_ffff,
    ;
    (a as u128) * (b as u128)
}

/// The mean of `count` samples, given the mean of the `count - 1` before
/// the last and the last sample, rounded down.
pub open spec fn moving_average(mean: u64, count: u64, sample: u64) -> u64 {
    if count == 0 {
        sample
    } else {
        saturated((mean * (count - 1) + sample) / (count as int))
    }
}

fn average_with(mean: u64, count: u64, sample: u64) -> (r: u64)
    ensures
        r == moving_average(mean, count, sample),
{
    if count == 0 {
        sample
    } else {
        let total: u128 = times(mean, count - 1) + sample as u128;
        saturate(total / (count as u128))
    }
}

impl TimeSeriesBuffer {
    /// Whether every series is within the limit.
    pub open spec fn wf(&self) -> bool {
        &&& self.validation_times@.len() <= self.max_points
        &&& self.cpu_usage@.len() <= self.max_points
        &&& self.memory_usage@.len() <= self.max_points
        &&& self.error_rates@.len() <= self.max_points
    }

    /// Four empty series that hold at most `max_points` samples each.
    pub fn new(max_points: usize) -> (r: Self)
        ensures
            r.max_points == max_points,
            r.validation_times@ == Seq::<TimeSeriesPoint>::empty(),
            r.cpu_usage@ == Seq::<TimeSeriesPoint>::empty(),
            r.memory_usage@ == Seq::<TimeSeriesPoint>::empty(),
            r.error_rates@ == Seq::<TimeSeriesPoint>::empty(),
            r.wf(),
    {
        TimeSeriesBuffer {
            validation_times: VecDeque::new(),
            cpu_usage: VecDeque::new(),
            memory_usage: VecDeque::new(),
            error_rates: VecDeque::new(),
            max_points: max_points,
        }
    }

    /// Puts a sample at the end of a series and drops the oldest sample
    /// when the series would hold more than `max_points`.
    pub fn add_point(series: &mut VecDeque<TimeSeriesPoint>, max_points: usize, point: TimeSeriesPoint)
        ensures
            final(series)@ == series_after(old(series)@, max_points, point),
            old(series)@.len() <= max_points ==> final(series)@.len() <= max_points,
    {
        series.push_back(point);
        if series.len() > max_points {
            let _oldest = series.pop_front();
        }
    }

    /// Notes how long a validation took, in millionths of a millisecond.
    pub fn add_validation_time(&mut self, now: u64, value: u64)
        ensures
            final(self).validation_times@ == series_after(
                old(self).validation_times@,
                old(self).max_points,
                TimeSeriesPoint { timestamp: now, value: value },
            ),
            final(self).cpu_usage == old(self).cpu_usage,
            final(self).memory_usage == old(self).memory_usage,
            final(self).error_rates == old(self).error_rates,
            final(self).max_points == old(self).max_points,
            old(self).wf() ==> final(self).wf(),
    {
        Self::add_point(&mut self.validation_times, self.max_points, TimeSeriesPoint { timestamp: now, value: value });
    }

    /// Notes the CPU share, in millionths of a percent.
    pub fn add_cpu_usage(&mut self, now: u64, value: u64)
        ensures
            final(self).cpu_usage@ == series_after(
                old(self).cpu_usage@,
                old(self).max_points,
                TimeSeriesPoint { timestamp: now, value: value },
            ),
            final(self).validation_times == old(self).validation_times,
            final(self).memory_usage == old(self).memory_usage,
            final(self).error_rates == old(self).error_rates,
            final(self).max_points == old(self).max_points,
            old(self).wf() ==> final(self).wf(),
    {
        Self::add_point(&mut self.cpu_usage, self.max_points, TimeSeriesPoint { timestamp: now, value: value });
    }

    /// Notes the memory in use, in millionths of a megabyte.
    pub fn add_memory_usage(&mut self, now: u64, value: u64)
        ensures
            final(self).memory_usage@ == series_after(
                old(self).memory_usage@,
                old(self).max_points,
                TimeSeriesPoint { timestamp: now, value: value },
            ),
            final(self).validation_times == old(self).validation_times,
            final(self).cpu_usage == old(self).cpu_usage,
            final(self).error_rates == old(self).error_rates,
            final(self).max_points == old(self).max_points,
            old(self).wf() ==> final(self).wf(),
    {
        Self::add_point(&mut self.memory_usage, self.max_points, TimeSeriesPoint { timestamp: now, value: value });
    }

    /// Notes the error rate, in millionths of an error per minute.
    pub fn add_error_rate(&mut self, now: u64, value: u64)
        ensures
            final(self).error_rates@ == series_after(
                old(self).error_rates@,
                old(self).max_points,
                TimeSeriesPoint { timestamp: now, value: value },
            ),
            final(self).validation_times == old(self).validation_times,
            final(self).cpu_usage == old(self).cpu_usage,
            final(self).memory_usage == old(self).memory_usage,
            final(self).max_points == old(self).max_points,
            old(self).wf() ==> final(self).wf(),
    {
        Self::add_point(&mut self.error_rates, self.max_points, TimeSeriesPoint { timestamp: now, value: value });
    }
}

/// A series never holds more samples than its limit, and when it is full
/// the sample that leaves is the oldest: what stays is what was there,
/// without its first sample, with the new sample at the end.
pub proof fn lemma_series_is_bounded(series: Seq<TimeSeriesPoint>, max_points: usize, point: TimeSeriesPoint)
    requires
        series.len() <= max_points,
    ensures
        series_after(series, max_points, point).len() <= max_points,
        max_points > 0 ==> series_after(series, max_points, point).last() == point,
        0 < series.len() == max_points ==> series_after(series, max_points, point) == series.drop_first().push(
            point,
        ),
        series.len() < max_points ==> series_after(series, max_points, point) == series.push(point),
{
    if 0 < series.len() == max_points {
        assert(series_after(series, max_points, point) =~= series.drop_first().push(point));
    }
}

/// A counter with one more, held at the largest number a `u64` can take.
pub open spec fn counted(count: u64) -> u64 {
    if count == u64::MAX {
        count
    } else {
        (count + 1) as u64
    }
}

fn count_up(count: u64) -> (r: u64)
    ensures
        r == counted(count),
{
    if count == u64::MAX {
        count
    } else {
        count + 1
    }
}

/// The sum of the counts of a histogram.
pub open spec fn count_total(histogram: Seq<ScoreBucket>) -> int
    decreases histogram.len(),
{
    if histogram.len() == 0 {
        0
    } else {
        count_total(histogram.drop_last()) + histogram.last().count
    }
}

/// The bar of the histogram a score falls into: one bar for each ten
/// points, the last for everything from ninety points on.
pub open spec fn bucket_of(score: u64) -> int {
    if score / 10_000_000 > 9 {
        9
    } else {
        (score / 10_000_000) as int
    }
}

/// Ten empty bars of ten points each.
pub open spec fn fresh_histogram() -> Seq<ScoreBucket> {
    Seq::new(
        10,
        |i: int|
            ScoreBucket {
                range_start: (i * 10_000_000) as u64,
                range_end: ((i + 1) * 10_000_000) as u64,
                count: 0,
            },
    )
}

/// The distribution after one more score: the mean moves with it, and the
/// bar it falls into counts one more. A histogram that does not have ten
/// bars is set up anew first.
pub open spec fn distribution_after(distribution: ScoreDistributionModel, score: u64) -> ScoreDistributionModel {
    let total = saturated(count_total(distribution.score_histogram) + 1);
    let bars = if distribution.score_histogram.len() == 10 {
        distribution.score_histogram
    } else {
        fresh_histogram()
    };
    let at = bucket_of(score);
    ScoreDistributionModel {
        mean_score: moving_average(distribution.mean_score, total, score),
        score_histogram: bars.update(at, ScoreBucket { count: counted(bars[at].count), ..bars[at] }),
        ..distribution
    }
}

/// The position of the first entry for the engine `name`, or the number of
/// entries when there is none.
pub open spec fn engine_index(engines: Seq<EngineMetricsModel>, name: Seq<char>) -> int
    decreases engines.len(),
{
    if engines.len() == 0 {
        0
    } else if engines[0].engine_name == name {
        0
    } else {
        1 + engine_index(engines.subrange(1, engines.len() as int), name)
    }
}

/// The entries with `entry` in place of the one for its engine, or at the
/// end when its engine has none.
pub open spec fn engines_with(engines: Seq<EngineMetricsModel>, entry: EngineMetricsModel) -> Seq<EngineMetricsModel> {
    let at = engine_index(engines, entry.engine_name);
    if 0 <= at < engines.len() {
        engines.update(at, entry)
    } else {
        engines.push(entry)
    }
}

/// The entries after each of `added` was put in, one after the other.
pub open spec fn engines_after(engines: Seq<EngineMetricsModel>, added: Seq<EngineMetricsModel>) -> Seq<
    EngineMetricsModel,
>
    decreases added.len(),
{
    if added.len() == 0 {
        engines
    } else {
        engines_with(engines_after(engines, added.drop_last()), added.last())
    }
}

/// The validation counters after one more validation.
pub open spec fn validation_recorded(
    metrics: ValidationMetricsModel,
    duration: u64,
    success: bool,
    quality_score: u64,
    engine_results: Seq<EngineMetricsModel>,
) -> ValidationMetricsModel {
    let total = counted(metrics.total_validations);
    let successful = if success {
        counted(metrics.successful_validations)
    } else {
        metrics.successful_validations
    };
    ValidationMetricsModel {
        total_validations: total,
        successful_validations: successful,
        failed_validations: if success {
            metrics.failed_validations
        } else {
            counted(metrics.failed_validations)
        },
        avg_validation_time: moving_average(metrics.avg_validation_time, total, duration),
        validation_throughput: saturated(successful * 1_000_000 / 3600),
        engine_metrics: engines_after(metrics.engine_metrics, engine_results),
        quality_score_distribution: distribution_after(metrics.quality_score_distribution, quality_score),
    }
}

fn zero_bucket(i: u64) -> (r: ScoreBucket)
    requires
        i < 10,
    ensures
        r == fresh_histogram()[i as int],
{
    ScoreBucket { range_start: i * 10_000_000, range_end: (i + 1) * 10_000_000, count: 0 }
}

impl MetricsCollector {
    /// Moves the distribution on by one score.
    pub fn update_score_distribution(distribution: &mut ScoreDistribution, score: u64)
        ensures
            final(distribution).deep_view() == distribution_after(old(distribution).deep_view(), score),
    {
        let ghost before = distribution.deep_view();
        let ghost bars = distribution.score_histogram@;
        assert(distribution.score_histogram.deep_view() =~= bars);
        let mut sum: u128 = 0;
        let mut i: usize = 0;
        while i < distribution.score_histogram.len()
            invariant
                i <= distribution.score_histogram.len(),
                bars == distribution.score_histogram@,
                *distribution == *old(distribution),
                sum == count_total(bars.take(i as int)),
                sum <= i * 0xffff_ffff_ffff_ffff,
            decreases distribution.score_histogram.len() - i,
        {
            assert(bars.take(i + 1).drop_last() == bars.take(i as int));
            assert(i * 0xffff_ffff_ffff_ffff + 0xffff_ffff_ffff_ffff <= 0xffff_ffff_ffff_ffff
                * 0x1_0000_0000_0000_0000) by (nonlinear_arith)
                requires
                    i <= 0xffff_ffff_ffff_ffff,
            ;
            sum = sum + distribution.score_histogram[i].count as u128;
            i += 1;
        }
        assert(bars.take(distribution.score_histogram.len() as int) == bars);
        let total = saturate(sum + 1);
        distribution.mean_score = average_with(distribution.mean_score, total, score);
        if distribution.score_histogram.len() != 10 {
            let mut fresh: Vec<ScoreBucket> = Vec::new();
            let mut k: u64 = 0;
            while k < 10
                invariant
                    k <= 10,
                    fresh@.len() == k,
                    forall|j: int| 0 <= j < k ==> fresh@[j] == fresh_histogram()[j],
                decreases 10 - k,
            {
                fresh.push(zero_bucket(k));
                k += 1;
            }
            assert(fresh@ =~= fresh_histogram());
            distribution.score_histogram = fresh;
        }
        let at: usize = if score / 10_000_000 > 9 {
            9
        } else {
            (score / 10_000_000) as usize
        };
        let bar = distribution.score_histogram[at];
        let ghost base = distribution.score_histogram@;
        distribution.score_histogram.set(at, ScoreBucket { count: count_up(bar.count), ..bar });
        assert(distribution.score_histogram.deep_view() =~= base.update(
            at as int,
            ScoreBucket { count: counted(base[at as int].count), ..base[at as int] },
        ));
    }

    fn find_engine(engines: &Vec<EngineMetrics>, name: &str) -> (r: usize)
        ensures
            r == engine_index(engines.deep_view(), name@),
            r <= engines.len(),
    {
        let ghost all = engines.deep_view();
        let mut i: usize = 0;
        assert(all.subrange(0, all.len() as int) == all);
        while i < engines.len()
            invariant
                i <= engines.len(),
                all == engines.deep_view(),
                engine_index(all, name@) == i + engine_index(all.subrange(i as int, all.len() as int), name@),
            decreases engines.len() - i,
        {
            let ghost rest = all.subrange(i as int, all.len() as int);
            assert(rest[0] == engines[i as int].deep_view());
            if same_text(engines[i].engine_name.as_str(), name) {
                return i;
            }
            assert(rest.subrange(1, rest.len() as int) == all.subrange(i + 1, all.len() as int));
            i += 1;
        }
        i
    }

    /// Enters one validation: how long it took in milliseconds, whether it
    /// succeeded, its overall score and what each engine reports.
    pub fn record_validation(
        &mut self,
        duration: u64,
        success: bool,
        quality_score: u64,
        engine_results: &Vec<EngineMetrics>,
        now: u64,
    )
        ensures
            final(self).validation_metrics.deep_view() == validation_recorded(
                old(self).validation_metrics.deep_view(),
                duration,
                success,
                quality_score,
                engine_results.deep_view(),
            ),
            final(self).time_series_buffer.validation_times@ == series_after(
                old(self).time_series_buffer.validation_times@,
                old(self).time_series_buffer.max_points,
                TimeSeriesPoint { timestamp: now, value: saturated(duration * 1_000_000) },
            ),
            final(self).time_series_buffer.cpu_usage == old(self).time_series_buffer.cpu_usage,
            final(self).time_series_buffer.memory_usage == old(self).time_series_buffer.memory_usage,
            final(self).time_series_buffer.error_rates == old(self).time_series_buffer.error_rates,
            final(self).time_series_buffer.max_points == old(self).time_series_buffer.max_points,
            old(self).time_series_buffer.wf() ==> final(self).time_series_buffer.wf(),
            final(self).performance_metrics == old(self).performance_metrics,
            final(self).system_metrics == old(self).system_metrics,
            final(self).error_metrics == old(self).error_metrics,
    {
        let ghost before = self.validation_metrics.deep_view();
        self.validation_metrics.total_validations = count_up(self.validation_metrics.total_validations);
        if success {
            self.validation_metrics.successful_validations = count_up(
                self.validation_metrics.successful_validations,
            );
        } else {
            self.validation_metrics.failed_validations = count_up(self.validation_metrics.failed_validations);
        }
        self.validation_metrics.avg_validation_time = average_with(
            self.validation_metrics.avg_validation_time,
            self.validation_metrics.total_validations,
            duration,
        );
        self.validation_metrics.validation_throughput = saturate(
            times(self.validation_metrics.successful_validations, 1_000_000) / 3600,
        );
        let ghost added = engine_results.deep_view();
        let mut i: usize = 0;
        while i < engine_results.len()
            invariant
                i <= engine_results.len(),
                added == engine_results.deep_view(),
                before == old(self).validation_metrics.deep_view(),
                self.validation_metrics.engine_metrics.deep_view() == engines_after(
                    before.engine_metrics,
                    added.take(i as int),
                ),
                self.validation_metrics.total_validations == counted(before.total_validations),
                self.validation_metrics.successful_validations == (if success {
                    counted(before.successful_validations)
                } else {
                    before.successful_validations
                }),
                self.validation_metrics.failed_validations == (if success {
                    before.failed_validations
                } else {
                    counted(before.failed_validations)
                }),
                self.validation_metrics.avg_validation_time == moving_average(
                    before.avg_validation_time,
                    counted(before.total_validations),
                    duration,
                ),
                self.validation_metrics.validation_throughput == saturated(
                    self.validation_metrics.successful_validations * 1_000_000 / 3600,
                ),
                self.validation_metrics.quality_score_distribution == old(
                    self,
                ).validation_metrics.quality_score_distribution,
                self.time_series_buffer == old(self).time_series_buffer,
                self.performance_metrics == old(self).performance_metrics,
                self.system_metrics == old(self).system_metrics,
                self.error_metrics == old(self).error_metrics,
            decreases engine_results.len() - i,
        {
            let entry = engine_results[i].clone();
            let ghost had = self.validation_metrics.engine_metrics.deep_view();
            assert(added.take(i + 1).drop_last() == added.take(i as int));
            assert(added.take(i + 1).last() == entry.deep_view());
            let at = Self::find_engine(&self.validation_metrics.engine_metrics, entry.engine_name.as_str());
            if at < self.validation_metrics.engine_metrics.len() {
                self.validation_metrics.engine_metrics.set(at, entry);
                assert(self.validation_metrics.engine_metrics.deep_view() =~= had.update(
                    at as int,
                    entry.deep_view(),
                ));
            } else {
                self.validation_metrics.engine_metrics.push(entry);
                assert(self.validation_metrics.engine_metrics.deep_view() =~= had.push(entry.deep_view()));
            }
            i += 1;
        }
        assert(added.take(engine_results.len() as int) == added);
        Self::update_score_distribution(&mut self.validation_metrics.quality_score_distribution, quality_score);
        self.time_series_buffer.add_validation_time(now, saturate(times(duration, 1_000_000)));
    }
}

/// The performance counters after one more sample, on a host of so many
/// processors.
pub open spec fn performance_recorded(
    metrics: PerformanceMetrics,
    cpu_usage: u64,
    memory_usage: u64,
    disk_io: u64,
    network_io: u64,
    processors: usize,
) -> PerformanceMetrics {
    PerformanceMetrics {
        cpu_usage_percent: cpu_usage,
        memory_usage_mb: memory_usage,
        memory_peak_mb: if memory_usage > metrics.memory_peak_mb {
            memory_usage
        } else {
            metrics.memory_peak_mb
        },
        disk_io_ops: saturated(metrics.disk_io_ops + disk_io),
        network_io_bytes: saturated(metrics.network_io_bytes + network_io),
        container_metrics: metrics.container_metrics,
        resource_utilization: ResourceUtilization {
            cpu_cores_used: saturated(cpu_usage * processors / 100),
            memory_efficiency: saturated(memory_usage * 1_000_000 / 8192),
            ..metrics.resource_utilization
        },
    }
}

/// The container counters after an event.
pub open spec fn container_recorded(metrics: ContainerMetrics, event: ContainerEvent) -> ContainerMetrics {
    match event {
        ContainerEvent::Created => ContainerMetrics {
            containers_created: counted(metrics.containers_created),
            ..metrics
        },
        ContainerEvent::Destroyed { lifetime } => ContainerMetrics {
            containers_destroyed: counted(metrics.containers_destroyed),
            avg_container_lifetime: moving_average(
                metrics.avg_container_lifetime,
                counted(metrics.containers_destroyed),
                lifetime,
            ),
            ..metrics
        },
        ContainerEvent::Failed => ContainerMetrics {
            container_failures: counted(metrics.container_failures),
            ..metrics
        },
        ContainerEvent::ResourceViolation => ContainerMetrics {
            resource_violations: counted(metrics.resource_violations),
            ..metrics
        },
    }
}

/// The position of the first entry for the kind of error `name`, or the
/// number of entries when there is none.
pub open spec fn error_index(counts: Seq<ErrorCountModel>, name: Seq<char>) -> int
    decreases counts.len(),
{
    if counts.len() == 0 {
        0
    } else if counts[0].error_type == name {
        0
    } else {
        1 + error_index(counts.subrange(1, counts.len() as int), name)
    }
}

/// The counts by kind after one more error of the kind `name`.
pub open spec fn errors_counted(counts: Seq<ErrorCountModel>, name: Seq<char>) -> Seq<ErrorCountModel> {
    let at = error_index(counts, name);
    if 0 <= at < counts.len() {
        counts.update(at, ErrorCountModel { error_type: name, count: counted(counts[at].count) })
    } else {
        counts.push(ErrorCountModel { error_type: name, count: 1 })
    }
}

/// The most recent errors that are kept.
pub const RECENT_ERRORS_LIMIT: usize = 100;

/// The recent errors with one more, without the oldest when there would be
/// more than are kept.
pub open spec fn recent_with(recent: Seq<ErrorEventModel>, event: ErrorEventModel) -> Seq<ErrorEventModel> {
    if recent.len() + 1 > RECENT_ERRORS_LIMIT {
        recent.push(event).subrange(1, recent.len() as int + 1)
    } else {
        recent.push(event)
    }
}

/// The error counters after one more error.
pub open spec fn error_recorded(
    metrics: ErrorMetricsModel,
    error_type: Seq<char>,
    error_message: Seq<char>,
    severity: ErrorSeverity,
    now: u64,
) -> ErrorMetricsModel {
    let total = counted(metrics.total_errors);
    ErrorMetricsModel {
        total_errors: total,
        error_rate: saturated(total * 1_000_000 / 60),
        error_types: errors_counted(metrics.error_types, error_type),
        recent_errors: recent_with(
            metrics.recent_errors,
            ErrorEventModel {
                timestamp: now,
                error_type: error_type,
                error_message: error_message,
                severity: severity,
                context: Seq::empty(),
            },
        ),
        ..metrics
    }
}

impl MetricsCollector {
    /// Enters one sample of the host's resources, on a host of so many
    /// processors.
    pub fn record_performance_on(
        &mut self,
        cpu_usage: u64,
        memory_usage: u64,
        disk_io: u64,
        network_io: u64,
        processors: usize,
        now: u64,
    )
        ensures
            final(self).performance_metrics == performance_recorded(
                old(self).performance_metrics,
                cpu_usage,
                memory_usage,
                disk_io,
                network_io,
                processors,
            ),
            final(self).time_series_buffer.cpu_usage@ == series_after(
                old(self).time_series_buffer.cpu_usage@,
                old(self).time_series_buffer.max_points,
                TimeSeriesPoint { timestamp: now, value: cpu_usage },
            ),
            final(self).time_series_buffer.memory_usage@ == series_after(
                old(self).time_series_buffer.memory_usage@,
                old(self).time_series_buffer.max_points,
                TimeSeriesPoint { timestamp: now, value: saturated(memory_usage * 1_000_000) },
            ),
            final(self).time_series_buffer.validation_times == old(self).time_series_buffer.validation_times,
            final(self).time_series_buffer.error_rates == old(self).time_series_buffer.error_rates,
            final(self).time_series_buffer.max_points == old(self).time_series_buffer.max_points,
            old(self).time_series_buffer.wf() ==> final(self).time_series_buffer.wf(),
            final(self).validation_metrics == old(self).validation_metrics,
            final(self).system_metrics == old(self).system_metrics,
            final(self).error_metrics == old(self).error_metrics,
    {
        let before = self.performance_metrics;
        self.performance_metrics = PerformanceMetrics {
            cpu_usage_percent: cpu_usage,
            memory_usage_mb: memory_usage,
            memory_peak_mb: if memory_usage > before.memory_peak_mb {
                memory_usage
            } else {
                before.memory_peak_mb
            },
            disk_io_ops: saturate(before.disk_io_ops as u128 + disk_io as u128),
            network_io_bytes: saturate(before.network_io_bytes as u128 + network_io as u128),
            container_metrics: before.container_metrics,
            resource_utilization: ResourceUtilization {
                cpu_cores_used: saturate(times(cpu_usage, processors as u64) / 100),
                memory_efficiency: saturate(times(memory_usage, 1_000_000) / 8192),
                ..before.resource_utilization
            },
        };
        self.time_series_buffer.add_cpu_usage(now, cpu_usage);
        self.time_series_buffer.add_memory_usage(now, saturate(times(memory_usage, 1_000_000)));
    }

    /// Enters one sample of the host's resources. The number of processors
    /// is that of the host, which is at least one.
    pub fn record_performance(&mut self, cpu_usage: u64, memory_usage: u64, disk_io: u64, network_io: u64, now: u64)
        ensures
            exists|processors: usize|
                processors >= 1 && final(self).performance_metrics == #[trigger] performance_recorded(
                    old(self).performance_metrics,
                    cpu_usage,
                    memory_usage,
                    disk_io,
                    network_io,
                    processors,
                ),
            final(self).time_series_buffer.cpu_usage@ == series_after(
                old(self).time_series_buffer.cpu_usage@,
                old(self).time_series_buffer.max_points,
                TimeSeriesPoint { timestamp: now, value: cpu_usage },
            ),
            final(self).time_series_buffer.memory_usage@ == series_after(
                old(self).time_series_buffer.memory_usage@,
                old(self).time_series_buffer.max_points,
                TimeSeriesPoint { timestamp: now, value: saturated(memory_usage * 1_000_000) },
            ),
            final(self).time_series_buffer.validation_times == old(self).time_series_buffer.validation_times,
            final(self).time_series_buffer.error_rates == old(self).time_series_buffer.error_rates,
            final(self).time_series_buffer.max_points == old(self).time_series_buffer.max_points,
            old(self).time_series_buffer.wf() ==> final(self).time_series_buffer.wf(),
            final(self).validation_metrics == old(self).validation_metrics,
            final(self).system_metrics == old(self).system_metrics,
            final(self).error_metrics == old(self).error_metrics,
    {
        let processors = cpu_count();
        self.record_performance_on(cpu_usage, memory_usage, disk_io, network_io, processors, now);
    }

    /// Enters what happened to a container.
    pub fn record_container_event(&mut self, event: ContainerEvent)
        ensures
            final(self).performance_metrics == (PerformanceMetrics {
                container_metrics: container_recorded(old(self).performance_metrics.container_metrics, event),
                ..old(self).performance_metrics
            }),
            final(self).validation_metrics == old(self).validation_metrics,
            final(self).system_metrics == old(self).system_metrics,
            final(self).error_metrics == old(self).error_metrics,
            final(self).time_series_buffer == old(self).time_series_buffer,
    {
        let before = self.performance_metrics.container_metrics;
        self.performance_metrics.container_metrics = match event {
            ContainerEvent::Created => ContainerMetrics {
                containers_created: count_up(before.containers_created),
                ..before
            },
            ContainerEvent::Destroyed { lifetime } => ContainerMetrics {
                containers_destroyed: count_up(before.containers_destroyed),
                avg_container_lifetime: average_with(
                    before.avg_container_lifetime,
                    count_up(before.containers_destroyed),
                    lifetime,
                ),
                ..before
            },
            ContainerEvent::Failed => ContainerMetrics {
                container_failures: count_up(before.container_failures),
                ..before
            },
            ContainerEvent::ResourceViolation => ContainerMetrics {
                resource_violations: count_up(before.resource_violations),
                ..before
            },
        };
    }

    fn find_error(counts: &Vec<ErrorCount>, name: &str) -> (r: usize)
        ensures
            r == error_index(counts.deep_view(), name@),
            r <= counts.len(),
    {
        let ghost all = counts.deep_view();
        let mut i: usize = 0;
        assert(all.subrange(0, all.len() as int) == all);
        while i < counts.len()
            invariant
                i <= counts.len(),
                all == counts.deep_view(),
                error_index(all, name@) == i + error_index(all.subrange(i as int, all.len() as int), name@),
            decreases counts.len() - i,
        {
            let ghost rest = all.subrange(i as int, all.len() as int);
            assert(rest[0] == counts[i as int].deep_view());
            if same_text(counts[i].error_type.as_str(), name) {
                return i;
            }
            assert(rest.subrange(1, rest.len() as int) == all.subrange(i + 1, all.len() as int));
            i += 1;
        }
        i
    }

    /// Enters one error: counts it, by its kind too, keeps it among the
    /// recent errors and notes the new error rate.
    pub fn record_error(&mut self, error_type: String, error_message: String, severity: ErrorSeverity, now: u64)
        ensures
            final(self).error_metrics.deep_view() == error_recorded(
                old(self).error_metrics.deep_view(),
                error_type@,
                error_message@,
                severity,
                now,
            ),
            final(self).time_series_buffer.error_rates@ == series_after(
                old(self).time_series_buffer.error_rates@,
                old(self).time_series_buffer.max_points,
                TimeSeriesPoint { timestamp: now, value: final(self).error_metrics.error_rate },
            ),
            final(self).time_series_buffer.validation_times == old(self).time_series_buffer.validation_times,
            final(self).time_series_buffer.cpu_usage == old(self).time_series_buffer.cpu_usage,
            final(self).time_series_buffer.memory_usage == old(self).time_series_buffer.memory_usage,
            final(self).time_series_buffer.max_points == old(self).time_series_buffer.max_points,
            old(self).time_series_buffer.wf() ==> final(self).time_series_buffer.wf(),
            final(self).validation_metrics == old(self).validation_metrics,
            final(self).performance_metrics == old(self).performance_metrics,
            final(self).system_metrics == old(self).system_metrics,
    {
        let ghost before = self.error_metrics.deep_view();
        self.error_metrics.total_errors = count_up(self.error_metrics.total_errors);
        let at = Self::find_error(&self.error_metrics.error_types, error_type.as_str());
        if at < self.error_metrics.error_types.len() {
            let count = self.error_metrics.error_types[at].count;
            let entry = ErrorCount { error_type: error_type.clone(), count: count_up(count) };
            self.error_metrics.error_types.set(at, entry);
            assert(self.error_metrics.error_types.deep_view() =~= before.error_types.update(
                at as int,
                entry.deep_view(),
            ));
        } else {
            let entry = ErrorCount { error_type: error_type.clone(), count: 1 };
            self.error_metrics.error_types.push(entry);
            assert(self.error_metrics.error_types.deep_view() =~= before.error_types.push(entry.deep_view()));
        }
        let context: Vec<TextEntry> = Vec::new();
        assert(context.deep_view() =~= Seq::empty());
        let event = ErrorEvent {
            timestamp: now,
            error_type: error_type,
            error_message: error_message,
            severity: severity,
            context: context,
        };
        let ghost shown = event.deep_view();
        self.error_metrics.recent_errors.push_back(event);
        assert(self.error_metrics.recent_errors.deep_view() =~= before.recent_errors.push(shown));
        if self.error_metrics.recent_errors.len() > RECENT_ERRORS_LIMIT {
            let _oldest = self.error_metrics.recent_errors.pop_front();
            assert(self.error_metrics.recent_errors.deep_view() =~= before.recent_errors.push(shown).subrange(
                1,
                before.recent_errors.len() as int + 1,
            ));
        }
        self.error_metrics.error_rate = saturate(times(self.error_metrics.total_errors, 1_000_000) / 60);
        self.time_series_buffer.add_error_rate(now, self.error_metrics.error_rate);
    }

    /// Notes how many workers are busy, how long the queue is and how the
    /// service fares.
    pub fn update_system_status(&mut self, active_workers: u32, queue_depth: u32, health: HealthStatus)
        ensures
            final(self).system_metrics.active_workers == active_workers,
            final(self).system_metrics.queue_depth == queue_depth,
            final(self).system_metrics.health_status == health,
            final(self).system_metrics.uptime == old(self).system_metrics.uptime,
            final(self).system_metrics.version_info == old(self).system_metrics.version_info,
            final(self).system_metrics.configuration_hash == old(self).system_metrics.configuration_hash,
            final(self).validation_metrics == old(self).validation_metrics,
            final(self).performance_metrics == old(self).performance_metrics,
            final(self).error_metrics == old(self).error_metrics,
            final(self).time_series_buffer == old(self).time_series_buffer,
    {
        self.system_metrics.active_workers = active_workers;
        self.system_metrics.queue_depth = queue_depth;
        self.system_metrics.health_status = health;
    }
}

/// The alert raised for more than ten errors a minute.
pub open spec fn error_rate_alert(error_rate: u64, now: u64) -> MetricAlertModel {
    MetricAlertModel {
        alert_type: AlertType::HighErrorRate,
        severity: AlertSeverity::Critical,
        message: "Error rate exceeds threshold"@,
        threshold: 10_000_000,
        actual_value: error_rate,
        timestamp: now,
    }
}

/// The alert raised for a CPU share over ninety percent.
pub open spec fn cpu_alert(cpu_usage_percent: u64, now: u64) -> MetricAlertModel {
    MetricAlertModel {
        alert_type: AlertType::ResourceExhaustion,
        severity: AlertSeverity::Warning,
        message: "CPU usage is critically high"@,
        threshold: 90_000_000,
        actual_value: cpu_usage_percent,
        timestamp: now,
    }
}

/// The alert raised for less than a tenth of a validation a second.
pub open spec fn throughput_alert(throughput: u64, now: u64) -> MetricAlertModel {
    MetricAlertModel {
        alert_type: AlertType::LowThroughput,
        severity: AlertSeverity::Warning,
        message: "Validation throughput is below expected levels"@,
        threshold: 100_000,
        actual_value: throughput,
        timestamp: now,
    }
}

/// The alerts that the metrics raise: error rate, CPU, throughput, each
/// where its threshold is crossed, in this order.
pub open spec fn alerts_for(throughput: u64, cpu_usage_percent: u64, error_rate: u64, now: u64) -> Seq<
    MetricAlertModel,
> {
    (if error_rate > 10_000_000 {
        seq![error_rate_alert(error_rate, now)]
    } else {
        Seq::empty()
    }) + (if cpu_usage_percent > 90_000_000 {
        seq![cpu_alert(cpu_usage_percent, now)]
    } else {
        Seq::empty()
    }) + (if throughput < 100_000 {
        seq![throughput_alert(throughput, now)]
    } else {
        Seq::empty()
    })
}

/// The trends that are reported.
pub open spec fn reported_trends() -> TrendAnalysis {
    TrendAnalysis {
        validation_time_trend: TrendDirection::Stable,
        error_rate_trend: TrendDirection::Decreasing,
        throughput_trend: TrendDirection::Increasing,
        resource_usage_trend: TrendDirection::Stable,
    }
}

/// The metrics in the text format that Prometheus reads: for each metric a
/// help line, a type line and the value. The duration is in seconds with
/// three decimal places, the CPU share in percent with two.
pub open spec fn prometheus_text(
    total_validations: u64,
    avg_validation_time: u64,
    cpu_usage_percent: u64,
    memory_usage_mb: u64,
    active_workers: u32,
) -> Seq<char> {
    "# HELP kwality_validations_total Total number of validations performed\n"@
        + "# TYPE kwality_validations_total counter\n"@ + "kwality_validations_total "@ + decimal_digits(
        total_validations as nat,
    ) + "\n"@ + "# HELP kwality_validation_duration_seconds Average validation duration\n"@
        + "# TYPE kwality_validation_duration_seconds gauge\n"@ + "kwality_validation_duration_seconds "@
        + thousandths_digits(avg_validation_time as nat) + "\n"@
        + "# HELP kwality_cpu_usage_percent Current CPU usage percentage\n"@
        + "# TYPE kwality_cpu_usage_percent gauge\n"@ + "kwality_cpu_usage_percent "@ + fixed_digits(
        cpu_usage_percent as nat,
        2,
    ) + "\n"@ + "# HELP kwality_memory_usage_mb Current memory usage in MB\n"@
        + "# TYPE kwality_memory_usage_mb gauge\n"@ + "kwality_memory_usage_mb "@ + decimal_digits(
        memory_usage_mb as nat,
    ) + "\n"@ + "# HELP kwality_active_workers Number of active worker processes\n"@
        + "# TYPE kwality_active_workers gauge\n"@ + "kwality_active_workers "@ + decimal_digits(
        active_workers as nat,
    ) + "\n"@
}

/// The metrics a dashboard shows, by name.
pub open spec fn realtime_metrics(
    total_validations: u64,
    throughput: u64,
    cpu_usage_percent: u64,
    memory_usage_mb: u64,
    active_workers: u32,
    queue_depth: u32,
) -> Seq<DataEntryModel> {
    seq![
        DataEntryModel { key: "total_validations"@, value: DataValueModel::Count(total_validations) },
        DataEntryModel { key: "validation_throughput"@, value: DataValueModel::Fraction(fraction_of(throughput)) },
        DataEntryModel { key: "cpu_usage"@, value: DataValueModel::Fraction(fraction_of(cpu_usage_percent)) },
        DataEntryModel { key: "memory_usage_mb"@, value: DataValueModel::Count(memory_usage_mb) },
        DataEntryModel { key: "active_workers"@, value: DataValueModel::Count(active_workers as u64) },
        DataEntryModel { key: "queue_depth"@, value: DataValueModel::Count(queue_depth as u64) },
    ]
}

/// A number in millionths as a signed fraction, held at the largest number
/// an `i64` can take.
pub open spec fn fraction_of(millionths: u64) -> i64 {
    if millionths > i64::MAX {
        i64::MAX
    } else {
        millionths as i64
    }
}

fn as_fraction(millionths: u64) -> (r: i64)
    ensures
        r == fraction_of(millionths),
{
    if millionths > 0x7fff_ffff_ffff_ffff {
        i64::MAX
    } else {
        millionths as i64
    }
}

fn push_alert(out: &mut Vec<MetricAlert>, wanted: bool, item: MetricAlert)
    ensures
        final(out).deep_view() == old(out).deep_view() + (if wanted {
            seq![item.deep_view()]
        } else {
            Seq::empty()
        }),
{
    let ghost before = out.deep_view();
    if wanted {
        out.push(item);
        assert(out.deep_view() =~= before + seq![item.deep_view()]);
    } else {
        assert(out.deep_view() =~= before + Seq::empty());
    }
}

impl MetricsCollector {
    /// The alerts that the metrics raise.
    pub fn generate_alerts(
        validation: &ValidationMetrics,
        performance: &PerformanceMetrics,
        errors: &ErrorMetrics,
        now: u64,
    ) -> (r: Vec<MetricAlert>)
        ensures
            r.deep_view() == alerts_for(
                validation.validation_throughput,
                performance.cpu_usage_percent,
                errors.error_rate,
                now,
            ),
    {
        let mut out: Vec<MetricAlert> = Vec::new();
        assert(out.deep_view() =~= Seq::empty());
        push_alert(
            &mut out,
            errors.error_rate > 10_000_000,
            MetricAlert {
                alert_type: AlertType::HighErrorRate,
                severity: AlertSeverity::Critical,
                message: String::from_str("Error rate exceeds threshold"),
                threshold: 10_000_000,
                actual_value: errors.error_rate,
                timestamp: now,
            },
        );
        push_alert(
            &mut out,
            performance.cpu_usage_percent > 90_000_000,
            MetricAlert {
                alert_type: AlertType::ResourceExhaustion,
                severity: AlertSeverity::Warning,
                message: String::from_str("CPU usage is critically high"),
                threshold: 90_000_000,
                actual_value: performance.cpu_usage_percent,
                timestamp: now,
            },
        );
        push_alert(
            &mut out,
            validation.validation_throughput < 100_000,
            MetricAlert {
                alert_type: AlertType::LowThroughput,
                severity: AlertSeverity::Warning,
                message: String::from_str("Validation throughput is below expected levels"),
                threshold: 100_000,
                actual_value: validation.validation_throughput,
                timestamp: now,
            },
        );
        out
    }

    /// The trends that are reported.
    pub fn analyze_trends(&self) -> (r: TrendAnalysis)
        ensures
            r == reported_trends(),
    {
        TrendAnalysis {
            validation_time_trend: TrendDirection::Stable,
            error_rate_trend: TrendDirection::Decreasing,
            throughput_trend: TrendDirection::Increasing,
            resource_usage_trend: TrendDirection::Stable,
        }
    }

    /// A snapshot of all metrics, with the trends and with the alerts that
    /// the metrics raise.
    pub fn get_metrics_summary(&self, now: u64) -> (r: MetricsSummary)
        ensures
            r.validation_metrics.deep_view() == self.validation_metrics.deep_view(),
            r.performance_metrics == self.performance_metrics,
            r.system_metrics.deep_view() == self.system_metrics.deep_view(),
            r.error_metrics.deep_view() == self.error_metrics.deep_view(),
            r.trends == reported_trends(),
            r.alerts.deep_view() == alerts_for(
                self.validation_metrics.validation_throughput,
                self.performance_metrics.cpu_usage_percent,
                self.error_metrics.error_rate,
                now,
            ),
    {
        MetricsSummary {
            validation_metrics: self.validation_metrics.clone(),
            performance_metrics: self.performance_metrics,
            system_metrics: self.system_metrics.clone(),
            error_metrics: self.error_metrics.clone(),
            trends: self.analyze_trends(),
            alerts: Self::generate_alerts(
                &self.validation_metrics,
                &self.performance_metrics,
                &self.error_metrics,
                now,
            ),
        }
    }

    /// The metrics in the text format that Prometheus reads.
    pub fn export_prometheus(&self) -> (r: String)
        ensures
            r@ == prometheus_text(
                self.validation_metrics.total_validations,
                self.validation_metrics.avg_validation_time,
                self.performance_metrics.cpu_usage_percent,
                self.performance_metrics.memory_usage_mb,
                self.system_metrics.active_workers,
            ),
    {
        let total = decimal(self.validation_metrics.total_validations);
        let seconds = thousandths(self.validation_metrics.avg_validation_time);
        let cpu = fixed(self.performance_metrics.cpu_usage_percent, 2);
        let memory = decimal(self.performance_metrics.memory_usage_mb);
        let workers = decimal(self.system_metrics.active_workers as u64);
        let mut out = String::from_str("# HELP kwality_validations_total Total number of validations performed\n");
        out.append("# TYPE kwality_validations_total counter\n");
        out.append("kwality_validations_total ");
        out.append(total.as_str());
        out.append("\n");
        out.append("# HELP kwality_validation_duration_seconds Average validation duration\n");
        out.append("# TYPE kwality_validation_duration_seconds gauge\n");
        out.append("kwality_validation_duration_seconds ");
        out.append(seconds.as_str());
        out.append("\n");
        out.append("# HELP kwality_cpu_usage_percent Current CPU usage percentage\n");
        out.append("# TYPE kwality_cpu_usage_percent gauge\n");
        out.append("kwality_cpu_usage_percent ");
        out.append(cpu.as_str());
        out.append("\n");
        out.append("# HELP kwality_memory_usage_mb Current memory usage in MB\n");
        out.append("# TYPE kwality_memory_usage_mb gauge\n");
        out.append("kwality_memory_usage_mb ");
        out.append(memory.as_str());
        out.append("\n");
        out.append("# HELP kwality_active_workers Number of active worker processes\n");
        out.append("# TYPE kwality_active_workers gauge\n");
        out.append("kwality_active_workers ");
        out.append(workers.as_str());
        out.append("\n");
        out
    }

    /// The metrics a dashboard shows, by name.
    pub fn get_realtime_metrics(&self) -> (r: Vec<DataEntry>)
        ensures
            r.deep_view() == realtime_metrics(
                self.validation_metrics.total_validations,
                self.validation_metrics.validation_throughput,
                self.performance_metrics.cpu_usage_percent,
                self.performance_metrics.memory_usage_mb,
                self.system_metrics.active_workers,
                self.system_metrics.queue_depth,
            ),
    {
        let mut out: Vec<DataEntry> = Vec::new();
        out.push(crate::count_entry("total_validations", self.validation_metrics.total_validations));
        out.push(
            crate::fraction_entry(
                "validation_throughput",
                as_fraction(self.validation_metrics.validation_throughput),
            ),
        );
        out.push(crate::fraction_entry("cpu_usage", as_fraction(self.performance_metrics.cpu_usage_percent)));
        out.push(crate::count_entry("memory_usage_mb", self.performance_metrics.memory_usage_mb));
        out.push(crate::count_entry("active_workers", self.system_metrics.active_workers as u64));
        out.push(crate::count_entry("queue_depth", self.system_metrics.queue_depth as u64));
        assert(out.deep_view() =~= realtime_metrics(
            self.validation_metrics.total_validations,
            self.validation_metrics.validation_throughput,
            self.performance_metrics.cpu_usage_percent,
            self.performance_metrics.memory_usage_mb,
            self.system_metrics.active_workers,
            self.system_metrics.queue_depth,
        ));
        out
    }
}

/// The version of this library.
pub open spec fn library_version() -> Seq<char> {
    "0.1.0"@
}

/// The distribution before any score.
pub open spec fn no_scores() -> ScoreDistributionModel {
    ScoreDistributionModel {
        mean_score: 0,
        median_score: 0,
        std_deviation: 0,
        percentiles: Seq::empty(),
        score_histogram: Seq::empty(),
    }
}

/// The validation counters before any validation.
pub open spec fn no_validations() -> ValidationMetricsModel {
    ValidationMetricsModel {
        total_validations: 0,
        successful_validations: 0,
        failed_validations: 0,
        avg_validation_time: 0,
        validation_throughput: 0,
        engine_metrics: Seq::empty(),
        quality_score_distribution: no_scores(),
    }
}

/// The container counters before any container.
pub open spec fn no_containers() -> ContainerMetrics {
    ContainerMetrics {
        containers_created: 0,
        containers_destroyed: 0,
        avg_container_lifetime: 0,
        container_failures: 0,
        resource_violations: 0,
    }
}

/// A host of which nothing is in use.
pub open spec fn no_utilization() -> ResourceUtilization {
    ResourceUtilization {
        cpu_cores_used: 0,
        memory_efficiency: 0,
        disk_io_efficiency: 0,
        network_bandwidth_used: 0,
        container_density: 0,
    }
}

/// The performance counters before any sample.
pub open spec fn no_performance() -> PerformanceMetrics {
    PerformanceMetrics {
        cpu_usage_percent: 0,
        memory_usage_mb: 0,
        memory_peak_mb: 0,
        disk_io_ops: 0,
        network_io_bytes: 0,
        container_metrics: no_containers(),
        resource_utilization: no_utilization(),
    }
}

/// The version information of a build of which nothing else is known.
pub open spec fn unknown_build() -> VersionInfoModel {
    VersionInfoModel {
        version: library_version(),
        build_date: "unknown"@,
        git_commit: "unknown"@,
        rust_version: "unknown"@,
    }
}

/// The state of a service of which nothing is known yet.
pub open spec fn unknown_system() -> SystemMetricsModel {
    SystemMetricsModel {
        uptime: 0,
        active_workers: 0,
        queue_depth: 0,
        health_status: HealthStatus::Unknown,
        version_info: unknown_build(),
        configuration_hash: "unknown"@,
    }
}

/// The error counters before any error.
pub open spec fn no_errors() -> ErrorMetricsModel {
    ErrorMetricsModel {
        total_errors: 0,
        error_rate: 0,
        error_types: Seq::empty(),
        recent_errors: Seq::empty(),
        critical_failures: 0,
        timeout_events: 0,
    }
}

impl Default for ScoreDistribution {
    fn default() -> (r: Self)
        ensures
            r.deep_view() == no_scores(),
    {
        let r = ScoreDistribution {
            mean_score: 0,
            median_score: 0,
            std_deviation: 0,
            percentiles: Vec::new(),
            score_histogram: Vec::new(),
        };
        assert(r.percentiles.deep_view() =~= Seq::empty());
        assert(r.score_histogram.deep_view() =~= Seq::empty());
        r
    }
}

impl Default for ValidationMetrics {
    fn default() -> (r: Self)
        ensures
            r.deep_view() == no_validations(),
    {
        let r = ValidationMetrics {
            total_validations: 0,
            successful_validations: 0,
            failed_validations: 0,
            avg_validation_time: 0,
            validation_throughput: 0,
            engine_metrics: Vec::new(),
            quality_score_distribution: ScoreDistribution::default(),
        };
        assert(r.engine_metrics.deep_view() =~= Seq::empty());
        r
    }
}

impl Default for ContainerMetrics {
    fn default() -> (r: Self)
        ensures
            r == no_containers(),
    {
        ContainerMetrics {
            containers_created: 0,
            containers_destroyed: 0,
            avg_container_lifetime: 0,
            container_failures: 0,
            resource_violations: 0,
        }
    }
}

impl Default for ResourceUtilization {
    fn default() -> (r: Self)
        ensures
            r == no_utilization(),
    {
        ResourceUtilization {
            cpu_cores_used: 0,
            memory_efficiency: 0,
            disk_io_efficiency: 0,
            network_bandwidth_used: 0,
            container_density: 0,
        }
    }
}

impl Default for PerformanceMetrics {
    fn default() -> (r: Self)
        ensures
            r == no_performance(),
    {
        PerformanceMetrics {
            cpu_usage_percent: 0,
            memory_usage_mb: 0,
            memory_peak_mb: 0,
            disk_io_ops: 0,
            network_io_bytes: 0,
            container_metrics: ContainerMetrics::default(),
            resource_utilization: ResourceUtilization::default(),
        }
    }
}

impl Default for VersionInfo {
    fn default() -> (r: Self)
        ensures
            r.deep_view() == unknown_build(),
    {
        VersionInfo {
            version: String::from_str("0.1.0"),
            build_date: String::from_str("unknown"),
            git_commit: String::from_str("unknown"),
            rust_version: String::from_str("unknown"),
        }
    }
}

impl Default for SystemMetrics {
    fn default() -> (r: Self)
        ensures
            r.deep_view() == unknown_system(),
    {
        SystemMetrics {
            uptime: 0,
            active_workers: 0,
            queue_depth: 0,
            health_status: HealthStatus::Unknown,
            version_info: VersionInfo::default(),
            configuration_hash: String::from_str("unknown"),
        }
    }
}

impl Default for ErrorMetrics {
    fn default() -> (r: Self)
        ensures
            r.deep_view() == no_errors(),
    {
        let r = ErrorMetrics {
            total_errors: 0,
            error_rate: 0,
            error_types: Vec::new(),
            recent_errors: VecDeque::new(),
            critical_failures: 0,
            timeout_events: 0,
        };
        assert(r.error_types.deep_view() =~= Seq::empty());
        assert(r.recent_errors.deep_view() =~= Seq::empty());
        r
    }
}

impl MetricsCollector {
    /// A sink that has recorded nothing, with time series of a thousand
    /// samples each.
    pub fn new() -> (r: Self)
        ensures
            r.validation_metrics.deep_view() == no_validations(),
            r.performance_metrics == no_performance(),
            r.system_metrics.deep_view() == unknown_system(),
            r.error_metrics.deep_view() == no_errors(),
            r.time_series_buffer.max_points == 1000,
            r.time_series_buffer.validation_times@ == Seq::<TimeSeriesPoint>::empty(),
            r.time_series_buffer.cpu_usage@ == Seq::<TimeSeriesPoint>::empty(),
            r.time_series_buffer.memory_usage@ == Seq::<TimeSeriesPoint>::empty(),
            r.time_series_buffer.error_rates@ == Seq::<TimeSeriesPoint>::empty(),
            r.time_series_buffer.wf(),
    {
        MetricsCollector {
            validation_metrics: ValidationMetrics::default(),
            performance_metrics: PerformanceMetrics::default(),
            system_metrics: SystemMetrics::default(),
            error_metrics: ErrorMetrics::default(),
            time_series_buffer: TimeSeriesBuffer::new(1000),
        }
    }
}

} // verus!
