//! Validation of untrusted source code that runs inside a sandbox: the rules
//! that choose an entrypoint, classify what a run showed, score it and keep
//! the books, each with a contract that Verus proves.
//!
//! Fractional quantities are fixed-point integers in millionths of their
//! unit: a score of 85 points is `85_000_000`, a confidence of 0.8 is
//! `800_000`. Instants are milliseconds since the Unix epoch and durations
//! are milliseconds.

use vstd::prelude::*;

pub mod container;
pub mod fuzzing;
pub mod metrics;
pub mod outside;
pub mod performance;
pub mod security;
pub mod text;
pub mod validation;

use crate::container::{ContainerManager, ExecutionResult};
use crate::fuzzing::{FuzzingEngine, FuzzingResult, FuzzingResultModel};
use crate::metrics::MetricsCollector;
use crate::outside::new_id;
use crate::performance::{PerformanceMetrics, PerformanceMetricsModel, PerformanceProfiler};
use crate::security::{SecurityMonitor, SecurityResult, SecurityResultModel};
use crate::text::{decimal, decimal_digits, fixed, fixed_digits, join2, join3, join5, signed_decimal,
    signed_decimal_digits};

verus! {

/// One unit of a fractional quantity, in millionths.
pub const MICRO: u64 = 1_000_000;

/// One hundred points, the top of every score scale, in millionths of a point.
pub const FULL_SCORE: u64 = 100_000_000;

/// A value of an evidence or metadata mapping.
#[derive(Debug, PartialEq, Eq)]
pub enum DataValue {
    Null,
    Flag(bool),
    Integer(i64),
    Count(u64),
    /// A fractional number in millionths.
    Fraction(i64),
    Text(String),
}

/// The mathematical value of a [`DataValue`].
pub ghost enum DataValueModel {
    Null,
    Flag(bool),
    Integer(i64),
    Count(u64),
    Fraction(i64),
    Text(Seq<char>),
}

impl DeepView for DataValue {
    type V = DataValueModel;

    open spec fn deep_view(&self) -> DataValueModel {
        match self {
            DataValue::Null => DataValueModel::Null,
            DataValue::Flag(b) => DataValueModel::Flag(*b),
            DataValue::Integer(n) => DataValueModel::Integer(*n),
            DataValue::Count(n) => DataValueModel::Count(*n),
            DataValue::Fraction(n) => DataValueModel::Fraction(*n),
            DataValue::Text(s) => DataValueModel::Text(s@),
        }
    }
}

impl Clone for DataValue {
    fn clone(&self) -> (r: Self)
        ensures
            r.deep_view() == self.deep_view(),
    {
        match self {
            DataValue::Null => DataValue::Null,
            DataValue::Flag(b) => DataValue::Flag(*b),
            DataValue::Integer(n) => DataValue::Integer(*n),
            DataValue::Count(n) => DataValue::Count(*n),
            DataValue::Fraction(n) => DataValue::Fraction(*n),
            DataValue::Text(s) => DataValue::Text(s.clone()),
        }
    }
}

/// How the fuzz driver produces its inputs.
#[derive(Debug, Clone, Copy, PartialEq, Eq, Structural)]
pub enum FuzzingStrategy {
    Random,
    Structured,
    Mutation,
    Grammar,
}

impl DeepView for FuzzingStrategy {
    type V = FuzzingStrategy;

    open spec fn deep_view(&self) -> FuzzingStrategy {
        *self
    }
}

/// What a file of a codebase is for.
#[derive(Debug, Clone, Copy, PartialEq, Eq, Structural)]
pub enum FileType {
    Source,
    Test,
    Config,
    Build,
    Documentation,
    Asset,
    Other,
}

impl DeepView for FileType {
    type V = FileType;

    open spec fn deep_view(&self) -> FileType {
        *self
    }
}

/// Where a validation stands.
#[derive(Debug, Clone, Copy, PartialEq, Eq, Structural)]
pub enum ValidationStatus {
    Pending,
    Running,
    Completed,
    Failed,
    Timeout,
    Cancelled,
}

impl DeepView for ValidationStatus {
    type V = ValidationStatus;

    open spec fn deep_view(&self) -> ValidationStatus {
        *self
    }
}

/// The kind of observation a finding records.
#[derive(Debug, Clone, Copy, PartialEq, Eq, Structural)]
pub enum FindingType {
    SecurityVulnerability,
    PerformanceIssue,
    RuntimeError,
    MemoryLeak,
    ResourceExhaustion,
    UnexpectedBehavior,
    CrashProne,
}

impl DeepView for FindingType {
    type V = FindingType;

    open spec fn deep_view(&self) -> FindingType {
        *self
    }
}

/// How grave a finding is.
#[derive(Debug, Clone, Copy, PartialEq, Eq, Structural)]
pub enum Severity {
    Critical,
    High,
    Medium,
    Low,
    Info,
}

impl DeepView for Severity {
    type V = Severity;

    open spec fn deep_view(&self) -> Severity {
        *self
    }
}

/// How urgent a recommendation is.
#[derive(Debug, Clone, Copy, PartialEq, Eq, Structural)]
pub enum Priority {
    Critical,
    High,
    Medium,
    Low,
}

impl DeepView for Priority {
    type V = Priority;

    open spec fn deep_view(&self) -> Priority {
        *self
    }
}

/// How much work a recommendation asks for.
#[derive(Debug, Clone, Copy, PartialEq, Eq, Structural)]
pub enum EffortLevel {
    Low,
    Medium,
    High,
    VeryHigh,
}

impl DeepView for EffortLevel {
    type V = EffortLevel;

    open spec fn deep_view(&self) -> EffortLevel {
        *self
    }
}

/// How much a recommendation is expected to change.
#[derive(Debug, Clone, Copy, PartialEq, Eq, Structural)]
pub enum ImpactLevel {
    Low,
    Medium,
    High,
    Critical,
}

impl DeepView for ImpactLevel {
    type V = ImpactLevel;

    open spec fn deep_view(&self) -> ImpactLevel {
        *self
    }
}

/// One named value of an evidence or metadata mapping.
#[derive(Debug, PartialEq, Eq)]
pub struct DataEntry {
    pub key: String,
    pub value: DataValue,
}

/// The mathematical value of a [`DataEntry`].
pub ghost struct DataEntryModel {
    pub key: Seq<char>,
    pub value: DataValueModel,
}

impl DeepView for DataEntry {
    type V = DataEntryModel;

    open spec fn deep_view(&self) -> DataEntryModel {
        DataEntryModel {
            key: self.key.deep_view(),
            value: self.value.deep_view(),
        }
    }
}

impl Clone for DataEntry {
    fn clone(&self) -> (r: Self)
        ensures
            r.deep_view() == self.deep_view(),
    {
        let r = DataEntry {
            key: self.key.clone(),
            value: self.value.clone(),
        };
        r
    }
}

/// One named text of a string-to-string mapping.
#[derive(Debug, PartialEq, Eq)]
pub struct TextEntry {
    pub key: String,
    pub value: String,
}

/// The mathematical value of a [`TextEntry`].
pub ghost struct TextEntryModel {
    pub key: Seq<char>,
    pub value: Seq<char>,
}

impl DeepView for TextEntry {
    type V = TextEntryModel;

    open spec fn deep_view(&self) -> TextEntryModel {
        TextEntryModel {
            key: self.key.deep_view(),
            value: self.value.deep_view(),
        }
    }
}

impl Clone for TextEntry {
    fn clone(&self) -> (r: Self)
        ensures
            r.deep_view() == self.deep_view(),
    {
        let r = TextEntry {
            key: self.key.clone(),
            value: self.value.clone(),
        };
        r
    }
}

/// Limits and settings of the container a validation runs in.
#[derive(Debug, PartialEq, Eq)]
pub struct ContainerConfig {
    /// Image the container is created from.
    pub image: String,
    /// Memory cap in megabytes.
    pub memory_limit_mb: u64,
    /// CPU cap in millionths of a core.
    pub cpu_limit_cores: u64,
    /// Time allowed for one run, in seconds.
    pub timeout_seconds: u64,
    /// Whether the container has no network.
    pub network_isolation: bool,
    /// Whether the root filesystem and the workspace are read-only.
    pub readonly_filesystem: bool,
    /// Size of the temporary filesystem at `/tmp`, in megabytes.
    pub temp_dir_size_mb: u64,
    /// Environment variables, in the order they are handed to the container.
    pub environment: Vec<TextEntry>,
    /// Security options of the container runtime.
    pub security_opts: Vec<String>,
}

/// The mathematical value of a [`ContainerConfig`].
pub ghost struct ContainerConfigModel {
    pub image: Seq<char>,
    pub memory_limit_mb: u64,
    pub cpu_limit_cores: u64,
    pub timeout_seconds: u64,
    pub network_isolation: bool,
    pub readonly_filesystem: bool,
    pub temp_dir_size_mb: u64,
    pub environment: Seq<TextEntryModel>,
    pub security_opts: Seq<Seq<char>>,
}

impl DeepView for ContainerConfig {
    type V = ContainerConfigModel;

    open spec fn deep_view(&self) -> ContainerConfigModel {
        ContainerConfigModel {
            image: self.image.deep_view(),
            memory_limit_mb: self.memory_limit_mb.deep_view(),
            cpu_limit_cores: self.cpu_limit_cores.deep_view(),
            timeout_seconds: self.timeout_seconds.deep_view(),
            network_isolation: self.network_isolation.deep_view(),
            readonly_filesystem: self.readonly_filesystem.deep_view(),
            temp_dir_size_mb: self.temp_dir_size_mb.deep_view(),
            environment: self.environment.deep_view(),
            security_opts: self.security_opts.deep_view(),
        }
    }
}

impl Clone for ContainerConfig {
    fn clone(&self) -> (r: Self)
        ensures
            r.deep_view() == self.deep_view(),
    {
        let r = ContainerConfig {
            image: self.image.clone(),
            memory_limit_mb: self.memory_limit_mb,
            cpu_limit_cores: self.cpu_limit_cores,
            timeout_seconds: self.timeout_seconds,
            network_isolation: self.network_isolation,
            readonly_filesystem: self.readonly_filesystem,
            temp_dir_size_mb: self.temp_dir_size_mb,
            environment: self.environment.clone(),
            security_opts: self.security_opts.clone(),
        };
        assert(r.environment.deep_view() =~= self.environment.deep_view());
        assert(r.security_opts.deep_view() =~= self.security_opts.deep_view());
        r
    }
}

/// Limits above which performance findings are raised.
#[derive(Debug, PartialEq, Eq)]
pub struct PerformanceThresholds {
    pub max_execution_time_ms: u64,
    pub max_memory_usage_mb: u64,
    /// In millionths of a percent.
    pub max_cpu_usage_percent: u64,
    pub max_io_ops_per_second: u64,
}

/// The mathematical value of a [`PerformanceThresholds`].
pub ghost struct PerformanceThresholdsModel {
    pub max_execution_time_ms: u64,
    pub max_memory_usage_mb: u64,
    pub max_cpu_usage_percent: u64,
    pub max_io_ops_per_second: u64,
}

impl DeepView for PerformanceThresholds {
    type V = PerformanceThresholdsModel;

    open spec fn deep_view(&self) -> PerformanceThresholdsModel {
        PerformanceThresholdsModel {
            max_execution_time_ms: self.max_execution_time_ms.deep_view(),
            max_memory_usage_mb: self.max_memory_usage_mb.deep_view(),
            max_cpu_usage_percent: self.max_cpu_usage_percent.deep_view(),
            max_io_ops_per_second: self.max_io_ops_per_second.deep_view(),
        }
    }
}

impl Clone for PerformanceThresholds {
    fn clone(&self) -> (r: Self)
        ensures
            r.deep_view() == self.deep_view(),
    {
        let r = PerformanceThresholds {
            max_execution_time_ms: self.max_execution_time_ms,
            max_memory_usage_mb: self.max_memory_usage_mb,
            max_cpu_usage_percent: self.max_cpu_usage_percent,
            max_io_ops_per_second: self.max_io_ops_per_second,
        };
        r
    }
}

/// Settings of the performance observer.
#[derive(Debug, PartialEq, Eq)]
pub struct PerformanceConfig {
    pub enable_cpu_profiling: bool,
    pub enable_memory_profiling: bool,
    pub enable_io_profiling: bool,
    pub benchmark_iterations: u32,
    pub thresholds: PerformanceThresholds,
}

/// The mathematical value of a [`PerformanceConfig`].
pub ghost struct PerformanceConfigModel {
    pub enable_cpu_profiling: bool,
    pub enable_memory_profiling: bool,
    pub enable_io_profiling: bool,
    pub benchmark_iterations: u32,
    pub thresholds: PerformanceThresholdsModel,
}

impl DeepView for PerformanceConfig {
    type V = PerformanceConfigModel;

    open spec fn deep_view(&self) -> PerformanceConfigModel {
        PerformanceConfigModel {
            enable_cpu_profiling: self.enable_cpu_profiling.deep_view(),
            enable_memory_profiling: self.enable_memory_profiling.deep_view(),
            enable_io_profiling: self.enable_io_profiling.deep_view(),
            benchmark_iterations: self.benchmark_iterations.deep_view(),
            thresholds: self.thresholds.deep_view(),
        }
    }
}

impl Clone for PerformanceConfig {
    fn clone(&self) -> (r: Self)
        ensures
            r.deep_view() == self.deep_view(),
    {
        let r = PerformanceConfig {
            enable_cpu_profiling: self.enable_cpu_profiling,
            enable_memory_profiling: self.enable_memory_profiling,
            enable_io_profiling: self.enable_io_profiling,
            benchmark_iterations: self.benchmark_iterations,
            thresholds: self.thresholds.clone(),
        };
        r
    }
}

/// Settings of the security observer.
#[derive(Debug, PartialEq, Eq)]
pub struct SecurityConfig {
    pub enable_syscall_monitoring: bool,
    pub enable_network_monitoring: bool,
    pub enable_file_monitoring: bool,
    pub blocked_syscalls: Vec<String>,
    pub allowed_networks: Vec<String>,
    pub sensitive_files: Vec<String>,
}

/// The mathematical value of a [`SecurityConfig`].
pub ghost struct SecurityConfigModel {
    pub enable_syscall_monitoring: bool,
    pub enable_network_monitoring: bool,
    pub enable_file_monitoring: bool,
    pub blocked_syscalls: Seq<Seq<char>>,
    pub allowed_networks: Seq<Seq<char>>,
    pub sensitive_files: Seq<Seq<char>>,
}

impl DeepView for SecurityConfig {
    type V = SecurityConfigModel;

    open spec fn deep_view(&self) -> SecurityConfigModel {
        SecurityConfigModel {
            enable_syscall_monitoring: self.enable_syscall_monitoring.deep_view(),
            enable_network_monitoring: self.enable_network_monitoring.deep_view(),
            enable_file_monitoring: self.enable_file_monitoring.deep_view(),
            blocked_syscalls: self.blocked_syscalls.deep_view(),
            allowed_networks: self.allowed_networks.deep_view(),
            sensitive_files: self.sensitive_files.deep_view(),
        }
    }
}

impl Clone for SecurityConfig {
    fn clone(&self) -> (r: Self)
        ensures
            r.deep_view() == self.deep_view(),
    {
        let r = SecurityConfig {
            enable_syscall_monitoring: self.enable_syscall_monitoring,
            enable_network_monitoring: self.enable_network_monitoring,
            enable_file_monitoring: self.enable_file_monitoring,
            blocked_syscalls: self.blocked_syscalls.clone(),
            allowed_networks: self.allowed_networks.clone(),
            sensitive_files: self.sensitive_files.clone(),
        };
        assert(r.blocked_syscalls.deep_view() =~= self.blocked_syscalls.deep_view());
        assert(r.allowed_networks.deep_view() =~= self.allowed_networks.deep_view());
        assert(r.sensitive_files.deep_view() =~= self.sensitive_files.deep_view());
        r
    }
}

/// Settings of the fuzz driver.
#[derive(Debug, PartialEq, Eq)]
pub struct FuzzingConfig {
    pub enabled: bool,
    pub duration_seconds: u64,
    pub iterations: u32,
    pub strategy: FuzzingStrategy,
    pub coverage_guided: bool,
}

/// The mathematical value of a [`FuzzingConfig`].
pub ghost struct FuzzingConfigModel {
    pub enabled: bool,
    pub duration_seconds: u64,
    pub iterations: u32,
    pub strategy: FuzzingStrategy,
    pub coverage_guided: bool,
}

impl DeepView for FuzzingConfig {
    type V = FuzzingConfigModel;

    open spec fn deep_view(&self) -> FuzzingConfigModel {
        FuzzingConfigModel {
            enabled: self.enabled.deep_view(),
            duration_seconds: self.duration_seconds.deep_view(),
            iterations: self.iterations.deep_view(),
            strategy: self.strategy.deep_view(),
            coverage_guided: self.coverage_guided.deep_view(),
        }
    }
}

impl Clone for FuzzingConfig {
    fn clone(&self) -> (r: Self)
        ensures
            r.deep_view() == self.deep_view(),
    {
        let r = FuzzingConfig {
            enabled: self.enabled,
            duration_seconds: self.duration_seconds,
            iterations: self.iterations,
            strategy: self.strategy,
            coverage_guided: self.coverage_guided,
        };
        r
    }
}

/// General settings of a validation.
#[derive(Debug, PartialEq, Eq)]
pub struct ValidationConfig {
    /// Longest time a validation may take, in milliseconds.
    pub max_validation_time: u64,
    pub parallel_execution: bool,
    pub cleanup_after_validation: bool,
    pub detailed_logging: bool,
}

/// The mathematical value of a [`ValidationConfig`].
pub ghost struct ValidationConfigModel {
    pub max_validation_time: u64,
    pub parallel_execution: bool,
    pub cleanup_after_validation: bool,
    pub detailed_logging: bool,
}

impl DeepView for ValidationConfig {
    type V = ValidationConfigModel;

    open spec fn deep_view(&self) -> ValidationConfigModel {
        ValidationConfigModel {
            max_validation_time: self.max_validation_time.deep_view(),
            parallel_execution: self.parallel_execution.deep_view(),
            cleanup_after_validation: self.cleanup_after_validation.deep_view(),
            detailed_logging: self.detailed_logging.deep_view(),
        }
    }
}

impl Clone for ValidationConfig {
    fn clone(&self) -> (r: Self)
        ensures
            r.deep_view() == self.deep_view(),
    {
        let r = ValidationConfig {
            max_validation_time: self.max_validation_time,
            parallel_execution: self.parallel_execution,
            cleanup_after_validation: self.cleanup_after_validation,
            detailed_logging: self.detailed_logging,
        };
        r
    }
}

/// The whole configuration, one section for each component.
#[derive(Debug, PartialEq, Eq)]
pub struct RuntimeConfig {
    pub container: ContainerConfig,
    pub performance: PerformanceConfig,
    pub security: SecurityConfig,
    pub fuzzing: FuzzingConfig,
    pub validation: ValidationConfig,
}

/// The mathematical value of a [`RuntimeConfig`].
pub ghost struct RuntimeConfigModel {
    pub container: ContainerConfigModel,
    pub performance: PerformanceConfigModel,
    pub security: SecurityConfigModel,
    pub fuzzing: FuzzingConfigModel,
    pub validation: ValidationConfigModel,
}

impl DeepView for RuntimeConfig {
    type V = RuntimeConfigModel;

    open spec fn deep_view(&self) -> RuntimeConfigModel {
        RuntimeConfigModel {
            container: self.container.deep_view(),
            performance: self.performance.deep_view(),
            security: self.security.deep_view(),
            fuzzing: self.fuzzing.deep_view(),
            validation: self.validation.deep_view(),
        }
    }
}

impl Clone for RuntimeConfig {
    fn clone(&self) -> (r: Self)
        ensures
            r.deep_view() == self.deep_view(),
    {
        let r = RuntimeConfig {
            container: self.container.clone(),
            performance: self.performance.clone(),
            security: self.security.clone(),
            fuzzing: self.fuzzing.clone(),
            validation: self.validation.clone(),
        };
        r
    }
}

/// One file of a codebase.
#[derive(Debug, PartialEq, Eq)]
pub struct CodeFile {
    /// Path relative to the workspace root.
    pub path: String,
    pub content: String,
    pub language: Option<String>,
    pub file_type: FileType,
    /// Length of the content in bytes.
    pub size: u64,
}

/// The mathematical value of a [`CodeFile`].
pub ghost struct CodeFileModel {
    pub path: Seq<char>,
    pub content: Seq<char>,
    pub language: Option<Seq<char>>,
    pub file_type: FileType,
    pub size: u64,
}

impl DeepView for CodeFile {
    type V = CodeFileModel;

    open spec fn deep_view(&self) -> CodeFileModel {
        CodeFileModel {
            path: self.path.deep_view(),
            content: self.content.deep_view(),
            language: self.language.deep_view(),
            file_type: self.file_type.deep_view(),
            size: self.size.deep_view(),
        }
    }
}

impl Clone for CodeFile {
    fn clone(&self) -> (r: Self)
        ensures
            r.deep_view() == self.deep_view(),
    {
        let r = CodeFile {
            path: self.path.clone(),
            content: self.content.clone(),
            language: self.language.clone(),
            file_type: self.file_type,
            size: self.size,
        };
        r
    }
}

/// A named bundle of source files that is validated as one unit.
#[derive(Debug, PartialEq, Eq)]
pub struct Codebase {
    pub id: String,
    pub name: String,
    pub files: Vec<CodeFile>,
    pub metadata: Vec<DataEntry>,
}

/// The mathematical value of a [`Codebase`].
pub ghost struct CodebaseModel {
    pub id: Seq<char>,
    pub name: Seq<char>,
    pub files: Seq<CodeFileModel>,
    pub metadata: Seq<DataEntryModel>,
}

impl DeepView for Codebase {
    type V = CodebaseModel;

    open spec fn deep_view(&self) -> CodebaseModel {
        CodebaseModel {
            id: self.id.deep_view(),
            name: self.name.deep_view(),
            files: self.files.deep_view(),
            metadata: self.metadata.deep_view(),
        }
    }
}

impl Clone for Codebase {
    fn clone(&self) -> (r: Self)
        ensures
            r.deep_view() == self.deep_view(),
    {
        let r = Codebase {
            id: self.id.clone(),
            name: self.name.clone(),
            files: self.files.clone(),
            metadata: self.metadata.clone(),
        };
        assert(r.files.deep_view() =~= self.files.deep_view());
        assert(r.metadata.deep_view() =~= self.metadata.deep_view());
        r
    }
}

/// A typed, severity-tagged observation made during a validation.
#[derive(Debug, PartialEq, Eq)]
pub struct Finding {
    pub id: String,
    pub finding_type: FindingType,
    pub severity: Severity,
    pub title: String,
    pub description: String,
    pub file: Option<String>,
    pub line: Option<u32>,
    pub evidence: Vec<DataEntry>,
    /// In millionths, between 0 and 1 000 000.
    pub confidence: u64,
}

/// The mathematical value of a [`Finding`].
pub ghost struct FindingModel {
    pub id: Seq<char>,
    pub finding_type: FindingType,
    pub severity: Severity,
    pub title: Seq<char>,
    pub description: Seq<char>,
    pub file: Option<Seq<char>>,
    pub line: Option<u32>,
    pub evidence: Seq<DataEntryModel>,
    pub confidence: u64,
}

impl DeepView for Finding {
    type V = FindingModel;

    open spec fn deep_view(&self) -> FindingModel {
        FindingModel {
            id: self.id.deep_view(),
            finding_type: self.finding_type.deep_view(),
            severity: self.severity.deep_view(),
            title: self.title.deep_view(),
            description: self.description.deep_view(),
            file: self.file.deep_view(),
            line: self.line.deep_view(),
            evidence: self.evidence.deep_view(),
            confidence: self.confidence.deep_view(),
        }
    }
}

impl Clone for Finding {
    fn clone(&self) -> (r: Self)
        ensures
            r.deep_view() == self.deep_view(),
    {
        let r = Finding {
            id: self.id.clone(),
            finding_type: self.finding_type,
            severity: self.severity,
            title: self.title.clone(),
            description: self.description.clone(),
            file: self.file.clone(),
            line: self.line,
            evidence: self.evidence.clone(),
            confidence: self.confidence,
        };
        assert(r.evidence.deep_view() =~= self.evidence.deep_view());
        r
    }
}

/// A remediation proposed from the findings.
#[derive(Debug, PartialEq, Eq)]
pub struct Recommendation {
    pub id: String,
    pub title: String,
    pub description: String,
    pub priority: Priority,
    pub action: String,
    pub effort: EffortLevel,
    pub impact: ImpactLevel,
}

/// The mathematical value of a [`Recommendation`].
pub ghost struct RecommendationModel {
    pub id: Seq<char>,
    pub title: Seq<char>,
    pub description: Seq<char>,
    pub priority: Priority,
    pub action: Seq<char>,
    pub effort: EffortLevel,
    pub impact: ImpactLevel,
}

impl DeepView for Recommendation {
    type V = RecommendationModel;

    open spec fn deep_view(&self) -> RecommendationModel {
        RecommendationModel {
            id: self.id.deep_view(),
            title: self.title.deep_view(),
            description: self.description.deep_view(),
            priority: self.priority.deep_view(),
            action: self.action.deep_view(),
            effort: self.effort.deep_view(),
            impact: self.impact.deep_view(),
        }
    }
}

impl Clone for Recommendation {
    fn clone(&self) -> (r: Self)
        ensures
            r.deep_view() == self.deep_view(),
    {
        let r = Recommendation {
            id: self.id.clone(),
            title: self.title.clone(),
            description: self.description.clone(),
            priority: self.priority,
            action: self.action.clone(),
            effort: self.effort,
            impact: self.impact,
        };
        r
    }
}

/// The verdict of one validation.
#[derive(Debug, PartialEq, Eq)]
pub struct ValidationResult {
    pub validation_id: String,
    pub codebase_id: String,
    pub status: ValidationStatus,
    /// Milliseconds since the Unix epoch.
    pub started_at: i64,
    /// Milliseconds since the Unix epoch.
    pub completed_at: Option<i64>,
    /// In milliseconds.
    pub duration: Option<u64>,
    /// In millionths of a point, between 0 and [`FULL_SCORE`].
    pub overall_score: u64,
    pub security_result: SecurityResult,
    pub performance_metrics: PerformanceMetrics,
    pub fuzzing_result: Option<FuzzingResult>,
    pub findings: Vec<Finding>,
    pub recommendations: Vec<Recommendation>,
    pub metadata: Vec<DataEntry>,
}

/// The mathematical value of a [`ValidationResult`].
pub ghost struct ValidationResultModel {
    pub validation_id: Seq<char>,
    pub codebase_id: Seq<char>,
    pub status: ValidationStatus,
    pub started_at: i64,
    pub completed_at: Option<i64>,
    pub duration: Option<u64>,
    pub overall_score: u64,
    pub security_result: SecurityResultModel,
    pub performance_metrics: PerformanceMetricsModel,
    pub fuzzing_result: Option<FuzzingResultModel>,
    pub findings: Seq<FindingModel>,
    pub recommendations: Seq<RecommendationModel>,
    pub metadata: Seq<DataEntryModel>,
}

impl DeepView for ValidationResult {
    type V = ValidationResultModel;

    open spec fn deep_view(&self) -> ValidationResultModel {
        ValidationResultModel {
            validation_id: self.validation_id.deep_view(),
            codebase_id: self.codebase_id.deep_view(),
            status: self.status.deep_view(),
            started_at: self.started_at.deep_view(),
            completed_at: self.completed_at.deep_view(),
            duration: self.duration.deep_view(),
            overall_score: self.overall_score.deep_view(),
            security_result: self.security_result.deep_view(),
            performance_metrics: self.performance_metrics.deep_view(),
            fuzzing_result: self.fuzzing_result.deep_view(),
            findings: self.findings.deep_view(),
            recommendations: self.recommendations.deep_view(),
            metadata: self.metadata.deep_view(),
        }
    }
}

impl Clone for ValidationResult {
    fn clone(&self) -> (r: Self)
        ensures
            r.deep_view() == self.deep_view(),
    {
        let r = ValidationResult {
            validation_id: self.validation_id.clone(),
            codebase_id: self.codebase_id.clone(),
            status: self.status,
            started_at: self.started_at,
            completed_at: self.completed_at,
            duration: self.duration,
            overall_score: self.overall_score,
            security_result: self.security_result.clone(),
            performance_metrics: self.performance_metrics.clone(),
            fuzzing_result: self.fuzzing_result.clone(),
            findings: self.findings.clone(),
            recommendations: self.recommendations.clone(),
            metadata: self.metadata.clone(),
        };
        assert(r.findings.deep_view() =~= self.findings.deep_view());
        assert(r.recommendations.deep_view() =~= self.recommendations.deep_view());
        assert(r.metadata.deep_view() =~= self.metadata.deep_view());
        r
    }
}

/// One entry of the table that error output is searched with.
#[derive(Debug, PartialEq, Eq)]
pub struct ErrorPattern {
    /// A regular expression.
    pub pattern: String,
    pub finding_type: FindingType,
    pub severity: Severity,
}

/// The mathematical value of a [`ErrorPattern`].
pub ghost struct ErrorPatternModel {
    pub pattern: Seq<char>,
    pub finding_type: FindingType,
    pub severity: Severity,
}

impl DeepView for ErrorPattern {
    type V = ErrorPatternModel;

    open spec fn deep_view(&self) -> ErrorPatternModel {
        ErrorPatternModel {
            pattern: self.pattern.deep_view(),
            finding_type: self.finding_type.deep_view(),
            severity: self.severity.deep_view(),
        }
    }
}

impl Clone for ErrorPattern {
    fn clone(&self) -> (r: Self)
        ensures
            r.deep_view() == self.deep_view(),
    {
        let r = ErrorPattern {
            pattern: self.pattern.clone(),
            finding_type: self.finding_type,
            severity: self.severity,
        };
        r
    }
}

impl FindingModel {
    /// The finding with its identifier blanked.
    pub open spec fn anonymous(self) -> FindingModel {
        FindingModel { id: Seq::empty(), ..self }
    }
}

/// The findings with their identifiers blanked.
pub open spec fn anonymous_findings(findings: Seq<FindingModel>) -> Seq<FindingModel> {
    findings.map_values(|f: FindingModel| f.anonymous())
}

impl RecommendationModel {
    /// The recommendation with its identifier blanked.
    pub open spec fn anonymous(self) -> RecommendationModel {
        RecommendationModel { id: Seq::empty(), ..self }
    }
}

/// The recommendations with their identifiers blanked.
pub open spec fn anonymous_recommendations(list: Seq<RecommendationModel>) -> Seq<
    RecommendationModel,
> {
    list.map_values(|r: RecommendationModel| r.anonymous())
}

/// The line number written for the line at position `index`: one-based, and
/// held at the largest number a `u32` can take.
pub open spec fn line_number_at(index: nat) -> u32 {
    if index + 1 > u32::MAX {
        u32::MAX
    } else {
        (index + 1) as u32
    }
}

/// The one-based line number of the line at position `index`.
pub fn line_number(index: usize) -> (r: u32)
    ensures
        r == line_number_at(index as nat),
{
    if index >= 0xffff_ffff {
        u32::MAX
    } else {
        (index + 1) as u32
    }
}

impl Finding {
    /// A finding with the given fields, without a line number.
    pub fn new(
        id: String,
        finding_type: FindingType,
        severity: Severity,
        title: String,
        description: String,
        file: Option<String>,
        evidence: Vec<DataEntry>,
        confidence: u64,
    ) -> (r: Finding)
        ensures
            r.deep_view() == (FindingModel {
                id: id@,
                finding_type: finding_type,
                severity: severity,
                title: title@,
                description: description@,
                file: file.deep_view(),
                line: None,
                evidence: evidence.deep_view(),
                confidence: confidence,
            }),
    {
        Finding {
            id: id,
            finding_type: finding_type,
            severity: severity,
            title: title,
            description: description,
            file: file,
            line: None,
            evidence: evidence,
            confidence: confidence,
        }
    }
}

/// Appending a finding appends its blanked form to the blanked findings.
pub proof fn lemma_anonymous_push(findings: Seq<FindingModel>, finding: FindingModel)
    ensures
        anonymous_findings(findings.push(finding)) == anonymous_findings(findings).push(
            finding.anonymous(),
        ),
{
    assert(anonymous_findings(findings.push(finding)) =~= anonymous_findings(findings).push(
        finding.anonymous(),
    ));
}

/// The severity that a risk tag stands for; an unknown tag is informational.
pub open spec fn severity_of_risk(level: Seq<char>) -> Severity {
    if level == "critical"@ {
        Severity::Critical
    } else if level == "high"@ {
        Severity::High
    } else if level == "medium"@ {
        Severity::Medium
    } else if level == "low"@ {
        Severity::Low
    } else {
        Severity::Info
    }
}

/// The severity that a risk tag stands for.
pub fn severity_from_risk(level: &str) -> (r: Severity)
    ensures
        r == severity_of_risk(level@),
{
    if crate::text::same_text(level, "critical") {
        Severity::Critical
    } else if crate::text::same_text(level, "high") {
        Severity::High
    } else if crate::text::same_text(level, "medium") {
        Severity::Medium
    } else if crate::text::same_text(level, "low") {
        Severity::Low
    } else {
        Severity::Info
    }
}

/// An evidence entry that holds a text.
pub fn text_entry(key: &str, value: &str) -> (r: DataEntry)
    ensures
        r.deep_view() == (DataEntryModel { key: key@, value: DataValueModel::Text(value@) }),
{
    DataEntry { key: String::from_str(key), value: DataValue::Text(String::from_str(value)) }
}

/// An evidence entry that holds a signed number.
pub fn integer_entry(key: &str, value: i64) -> (r: DataEntry)
    ensures
        r.deep_view() == (DataEntryModel { key: key@, value: DataValueModel::Integer(value) }),
{
    DataEntry { key: String::from_str(key), value: DataValue::Integer(value) }
}

/// An evidence entry that holds a count.
pub fn count_entry(key: &str, value: u64) -> (r: DataEntry)
    ensures
        r.deep_view() == (DataEntryModel { key: key@, value: DataValueModel::Count(value) }),
{
    DataEntry { key: String::from_str(key), value: DataValue::Count(value) }
}

/// An evidence entry that holds a number in millionths.
pub fn fraction_entry(key: &str, value: i64) -> (r: DataEntry)
    ensures
        r.deep_view() == (DataEntryModel { key: key@, value: DataValueModel::Fraction(value) }),
{
    DataEntry { key: String::from_str(key), value: DataValue::Fraction(value) }
}

/// Two evidence entries as a mapping.
pub fn two_entries(a: DataEntry, b: DataEntry) -> (r: Vec<DataEntry>)
    ensures
        r.deep_view() == seq![a.deep_view(), b.deep_view()],
{
    let mut out: Vec<DataEntry> = Vec::new();
    out.push(a);
    out.push(b);
    assert(out.deep_view() =~= seq![a.deep_view(), b.deep_view()]);
    out
}

/// An empty evidence mapping.
pub fn no_entries() -> (r: Vec<DataEntry>)
    ensures
        r.deep_view() == Seq::<DataEntryModel>::empty(),
{
    let out: Vec<DataEntry> = Vec::new();
    assert(out.deep_view() =~= Seq::empty());
    out
}

/// Whether `after` is `before` with new findings at its end which, their
/// identifiers blanked, are `added`.
pub open spec fn findings_added(before: Seq<FindingModel>, after: Seq<FindingModel>, added: Seq<FindingModel>) -> bool {
    &&& after.len() == before.len() + added.len()
    &&& after.take(before.len() as int) == before
    &&& anonymous_findings(after.skip(before.len() as int)) == added
}

/// Nothing added leaves the findings as they are.
pub proof fn lemma_findings_added_none(findings: Seq<FindingModel>)
    ensures
        findings_added(findings, findings, Seq::empty()),
{
    assert(findings.take(findings.len() as int) =~= findings);
    assert(anonymous_findings(findings.skip(findings.len() as int)) =~= Seq::empty());
}

/// One more finding at the end is one more added.
pub proof fn lemma_findings_added_push(
    before: Seq<FindingModel>,
    after: Seq<FindingModel>,
    added: Seq<FindingModel>,
    finding: FindingModel,
)
    requires
        findings_added(before, after, added),
    ensures
        findings_added(before, after.push(finding), added.push(finding.anonymous())),
{
    let n = before.len() as int;
    assert(after.push(finding).take(n) =~= after.take(n));
    assert(after.push(finding).skip(n) =~= after.skip(n).push(finding));
    lemma_anonymous_push(after.skip(n), finding);
}

/// Additions one after the other add up.
pub proof fn lemma_findings_added_twice(
    first: Seq<FindingModel>,
    second: Seq<FindingModel>,
    third: Seq<FindingModel>,
    earlier: Seq<FindingModel>,
    later: Seq<FindingModel>,
)
    requires
        findings_added(first, second, earlier),
        findings_added(second, third, later),
    ensures
        findings_added(first, third, earlier + later),
{
    let n = first.len() as int;
    let m = second.len() as int;
    assert(third.take(n) =~= third.take(m).take(n));
    assert(third.skip(n) =~= second.skip(n) + third.skip(m)) by {
        assert forall|k: int| 0 <= k < third.len() - n implies third.skip(n)[k] == (second.skip(n)
            + third.skip(m))[k] by {
            if k < m - n {
                assert(third.take(m)[k + n] == third[k + n]);
            }
        }
    }
    assert(anonymous_findings(third.skip(n)) =~= anonymous_findings(second.skip(n)) + anonymous_findings(
        third.skip(m),
    ));
}

/// The configuration a validator starts with.
pub open spec fn default_config() -> RuntimeConfigModel {
    RuntimeConfigModel {
        container: ContainerConfigModel {
            image: "kwality/runner:latest"@,
            memory_limit_mb: 512,
            cpu_limit_cores: 1_000_000,
            timeout_seconds: 300,
            network_isolation: true,
            readonly_filesystem: false,
            temp_dir_size_mb: 100,
            environment: Seq::empty(),
            security_opts: seq!["no-new-privileges"@],
        },
        performance: PerformanceConfigModel {
            enable_cpu_profiling: true,
            enable_memory_profiling: true,
            enable_io_profiling: true,
            benchmark_iterations: 3,
            thresholds: PerformanceThresholdsModel {
                max_execution_time_ms: 10000,
                max_memory_usage_mb: 256,
                max_cpu_usage_percent: 90_000_000,
                max_io_ops_per_second: 1000,
            },
        },
        security: SecurityConfigModel {
            enable_syscall_monitoring: true,
            enable_network_monitoring: true,
            enable_file_monitoring: true,
            blocked_syscalls: seq!["ptrace"@, "mount"@, "umount"@],
            allowed_networks: seq!["127.0.0.1"@],
            sensitive_files: seq!["/etc/passwd"@, "/etc/shadow"@],
        },
        fuzzing: FuzzingConfigModel {
            enabled: false,
            duration_seconds: 60,
            iterations: 1000,
            strategy: FuzzingStrategy::Random,
            coverage_guided: true,
        },
        validation: ValidationConfigModel {
            max_validation_time: 600_000,
            parallel_execution: false,
            cleanup_after_validation: true,
            detailed_logging: false,
        },
    }
}

impl Default for RuntimeConfig {
    fn default() -> (r: Self)
        ensures
            r.deep_view() == default_config(),
    {
        let environment: Vec<TextEntry> = Vec::new();
        assert(environment.deep_view() =~= Seq::empty());
        let mut security_opts: Vec<String> = Vec::new();
        security_opts.push(String::from_str("no-new-privileges"));
        assert(security_opts.deep_view() =~= seq!["no-new-privileges"@]);
        let mut blocked_syscalls: Vec<String> = Vec::new();
        blocked_syscalls.push(String::from_str("ptrace"));
        blocked_syscalls.push(String::from_str("mount"));
        blocked_syscalls.push(String::from_str("umount"));
        assert(blocked_syscalls.deep_view() =~= seq!["ptrace"@, "mount"@, "umount"@]);
        let mut allowed_networks: Vec<String> = Vec::new();
        allowed_networks.push(String::from_str("127.0.0.1"));
        assert(allowed_networks.deep_view() =~= seq!["127.0.0.1"@]);
        let mut sensitive_files: Vec<String> = Vec::new();
        sensitive_files.push(String::from_str("/etc/passwd"));
        sensitive_files.push(String::from_str("/etc/shadow"));
        assert(sensitive_files.deep_view() =~= seq!["/etc/passwd"@, "/etc/shadow"@]);
        RuntimeConfig {
            container: ContainerConfig {
                image: String::from_str("kwality/runner:latest"),
                memory_limit_mb: 512,
                cpu_limit_cores: 1_000_000,
                timeout_seconds: 300,
                network_isolation: true,
                readonly_filesystem: false,
                temp_dir_size_mb: 100,
                environment: environment,
                security_opts: security_opts,
            },
            performance: PerformanceConfig {
                enable_cpu_profiling: true,
                enable_memory_profiling: true,
                enable_io_profiling: true,
                benchmark_iterations: 3,
                thresholds: PerformanceThresholds {
                    max_execution_time_ms: 10000,
                    max_memory_usage_mb: 256,
                    max_cpu_usage_percent: 90_000_000,
                    max_io_ops_per_second: 1000,
                },
            },
            security: SecurityConfig {
                enable_syscall_monitoring: true,
                enable_network_monitoring: true,
                enable_file_monitoring: true,
                blocked_syscalls: blocked_syscalls,
                allowed_networks: allowed_networks,
                sensitive_files: sensitive_files,
            },
            fuzzing: FuzzingConfig {
                enabled: false,
                duration_seconds: 60,
                iterations: 1000,
                strategy: FuzzingStrategy::Random,
                coverage_guided: true,
            },
            validation: ValidationConfig {
                max_validation_time: 600_000,
                parallel_execution: false,
                cleanup_after_validation: true,
                detailed_logging: false,
            },
        }
    }
}

/// The table that the error output of a run is searched with.
pub open spec fn error_pattern_table() -> Seq<ErrorPatternModel> {
    seq![
        ErrorPatternModel {
            pattern: "segmentation fault|segfault"@,
            finding_type: FindingType::CrashProne,
            severity: Severity::Critical,
        },
        ErrorPatternModel {
            pattern: "memory leak|leak sanitizer"@,
            finding_type: FindingType::MemoryLeak,
            severity: Severity::High,
        },
        ErrorPatternModel {
            pattern: "buffer overflow|stack overflow"@,
            finding_type: FindingType::SecurityVulnerability,
            severity: Severity::Critical,
        },
        ErrorPatternModel {
            pattern: "assertion failed|panic"@,
            finding_type: FindingType::RuntimeError,
            severity: Severity::Medium,
        },
        ErrorPatternModel {
            pattern: "out of memory|oom"@,
            finding_type: FindingType::ResourceExhaustion,
            severity: Severity::High,
        },
        ErrorPatternModel {
            pattern: "timeout|deadlock"@,
            finding_type: FindingType::PerformanceIssue,
            severity: Severity::Medium,
        },
    ]
}

/// The finding made when an entry of the table matches the error output.
pub open spec fn pattern_finding(entry: ErrorPatternModel, stderr: Seq<char>) -> FindingModel {
    FindingModel {
        id: Seq::empty(),
        finding_type: entry.finding_type,
        severity: entry.severity,
        title: "Error Pattern Detected: "@ + entry.pattern,
        description: "Detected error pattern '"@ + entry.pattern + "' in program output"@,
        file: None,
        line: None,
        evidence: seq![
            DataEntryModel { key: "pattern"@, value: DataValueModel::Text(entry.pattern) },
            DataEntryModel { key: "stderr_excerpt"@, value: DataValueModel::Text(stderr) },
        ],
        confidence: 800_000,
    }
}

/// The findings for the error output: one for each entry of the table that
/// matches it, in the table's order.
pub open spec fn stderr_findings(table: Seq<ErrorPatternModel>, stderr: Seq<char>) -> Seq<FindingModel>
    decreases table.len(),
{
    if table.len() == 0 {
        Seq::empty()
    } else {
        let earlier = stderr_findings(table.drop_last(), stderr);
        if crate::security::pattern_found(table.last().pattern, stderr) {
            earlier.push(pattern_finding(table.last(), stderr))
        } else {
            earlier
        }
    }
}

/// The finding made when a run ended with a code other than zero.
pub open spec fn exit_code_finding(exit_code: i64, stderr: Seq<char>) -> FindingModel {
    FindingModel {
        id: Seq::empty(),
        finding_type: FindingType::RuntimeError,
        severity: Severity::High,
        title: "Non-zero Exit Code"@,
        description: "Program exited with code "@ + signed_decimal_digits(exit_code as int)
            + " indicating an error"@,
        file: None,
        line: None,
        evidence: seq![
            DataEntryModel { key: "exit_code"@, value: DataValueModel::Integer(exit_code) },
            DataEntryModel { key: "stderr"@, value: DataValueModel::Text(stderr) },
        ],
        confidence: 900_000,
    }
}

/// The findings for the exit code of a run.
pub open spec fn exit_code_findings(exit_code: i64, stderr: Seq<char>) -> Seq<FindingModel> {
    if exit_code != 0 {
        seq![exit_code_finding(exit_code, stderr)]
    } else {
        Seq::empty()
    }
}

/// A number in millionths as a signed fraction, held at the largest number
/// an `i64` can take.
pub open spec fn as_fraction(millionths: u64) -> i64 {
    if millionths > i64::MAX {
        i64::MAX
    } else {
        millionths as i64
    }
}

/// The finding made when the CPU share is over its threshold.
pub open spec fn cpu_threshold_finding(cpu_usage_percent: u64, threshold: u64) -> FindingModel {
    FindingModel {
        id: Seq::empty(),
        finding_type: FindingType::PerformanceIssue,
        severity: Severity::Medium,
        title: "High CPU Usage"@,
        description: "CPU usage ("@ + fixed_digits(cpu_usage_percent as nat, 1) + "%) exceeds threshold ("@
            + fixed_digits(threshold as nat, 1) + "%)"@,
        file: None,
        line: None,
        evidence: seq![
            DataEntryModel { key: "cpu_usage"@, value: DataValueModel::Fraction(as_fraction(cpu_usage_percent)) },
            DataEntryModel { key: "threshold"@, value: DataValueModel::Fraction(as_fraction(threshold)) },
        ],
        confidence: 900_000,
    }
}

/// The finding made when the memory in use is over its threshold.
pub open spec fn memory_threshold_finding(memory_usage_mb: u64, threshold: u64) -> FindingModel {
    FindingModel {
        id: Seq::empty(),
        finding_type: FindingType::PerformanceIssue,
        severity: Severity::Medium,
        title: "High Memory Usage"@,
        description: "Memory usage ("@ + decimal_digits(memory_usage_mb as nat) + " MB) exceeds threshold ("@
            + decimal_digits(threshold as nat) + " MB)"@,
        file: None,
        line: None,
        evidence: seq![
            DataEntryModel { key: "memory_usage_mb"@, value: DataValueModel::Count(memory_usage_mb) },
            DataEntryModel { key: "threshold_mb"@, value: DataValueModel::Count(threshold) },
        ],
        confidence: 900_000,
    }
}

/// The finding made when a run took longer than its threshold.
pub open spec fn time_threshold_finding(execution_time_ms: u64, threshold: u64) -> FindingModel {
    FindingModel {
        id: Seq::empty(),
        finding_type: FindingType::PerformanceIssue,
        severity: Severity::Low,
        title: "Slow Execution"@,
        description: "Execution time ("@ + decimal_digits(execution_time_ms as nat) + " ms) exceeds threshold ("@
            + decimal_digits(threshold as nat) + " ms)"@,
        file: None,
        line: None,
        evidence: seq![
            DataEntryModel { key: "execution_time_ms"@, value: DataValueModel::Count(execution_time_ms) },
            DataEntryModel { key: "threshold_ms"@, value: DataValueModel::Count(threshold) },
        ],
        confidence: 900_000,
    }
}

/// The findings for what a run consumed, against the thresholds: CPU, then
/// memory, then time.
pub open spec fn threshold_findings(metrics: PerformanceMetricsModel, thresholds: PerformanceThresholdsModel) -> Seq<
    FindingModel,
> {
    (if metrics.cpu_usage_percent > thresholds.max_cpu_usage_percent {
        seq![cpu_threshold_finding(metrics.cpu_usage_percent, thresholds.max_cpu_usage_percent)]
    } else {
        Seq::empty()
    }) + (if metrics.memory_usage_mb > thresholds.max_memory_usage_mb {
        seq![memory_threshold_finding(metrics.memory_usage_mb, thresholds.max_memory_usage_mb)]
    } else {
        Seq::empty()
    }) + (if metrics.execution_time_ms > thresholds.max_execution_time_ms {
        seq![time_threshold_finding(metrics.execution_time_ms, thresholds.max_execution_time_ms)]
    } else {
        Seq::empty()
    })
}

fn fraction(millionths: u64) -> (r: i64)
    ensures
        r == as_fraction(millionths),
{
    if millionths > 0x7fff_ffff_ffff_ffff {
        i64::MAX
    } else {
        millionths as i64
    }
}

fn push_finding(
    findings: &mut Vec<Finding>,
    wanted: bool,
    item: Finding,
    Ghost(before): Ghost<Seq<FindingModel>>,
    Ghost(added): Ghost<Seq<FindingModel>>,
)
    requires
        findings_added(before, old(findings).deep_view(), added),
    ensures
        findings_added(
            before,
            final(findings).deep_view(),
            added + (if wanted {
                seq![item.deep_view().anonymous()]
            } else {
                Seq::empty()
            }),
        ),
{
    let ghost had = findings.deep_view();
    if wanted {
        findings.push(item);
        proof {
            assert(findings.deep_view() =~= had.push(item.deep_view()));
            lemma_findings_added_push(before, had, added, item.deep_view());
            assert(added.push(item.deep_view().anonymous()) =~= added + seq![item.deep_view().anonymous()]);
        }
    } else {
        assert(added =~= added + Seq::<FindingModel>::empty());
    }
}

/// The error output table as it is searched.
pub fn error_patterns() -> (r: Vec<ErrorPattern>)
    ensures
        r.deep_view() == error_pattern_table(),
{
    let mut table: Vec<ErrorPattern> = Vec::new();
    table.push(
        ErrorPattern {
            pattern: String::from_str("segmentation fault|segfault"),
            finding_type: FindingType::CrashProne,
            severity: Severity::Critical,
        },
    );
    table.push(
        ErrorPattern {
            pattern: String::from_str("memory leak|leak sanitizer"),
            finding_type: FindingType::MemoryLeak,
            severity: Severity::High,
        },
    );
    table.push(
        ErrorPattern {
            pattern: String::from_str("buffer overflow|stack overflow"),
            finding_type: FindingType::SecurityVulnerability,
            severity: Severity::Critical,
        },
    );
    table.push(
        ErrorPattern {
            pattern: String::from_str("assertion failed|panic"),
            finding_type: FindingType::RuntimeError,
            severity: Severity::Medium,
        },
    );
    table.push(
        ErrorPattern {
            pattern: String::from_str("out of memory|oom"),
            finding_type: FindingType::ResourceExhaustion,
            severity: Severity::High,
        },
    );
    table.push(
        ErrorPattern {
            pattern: String::from_str("timeout|deadlock"),
            finding_type: FindingType::PerformanceIssue,
            severity: Severity::Medium,
        },
    );
    assert(table.deep_view() =~= error_pattern_table());
    table
}

/// The validator: the observers with the configuration they were made
/// from.
pub struct RuntimeValidator {
    pub container_manager: ContainerManager,
    pub performance_profiler: PerformanceProfiler,
    pub security_monitor: SecurityMonitor,
    pub fuzzing_engine: FuzzingEngine,
    pub metrics_collector: MetricsCollector,
    pub config: RuntimeConfig,
}

/// The result of a validation that has just begun: running, with nothing
/// found and nothing measured.
pub open spec fn begun_result(validation_id: Seq<char>, codebase_id: Seq<char>, started_at: i64) -> ValidationResultModel {
    ValidationResultModel {
        validation_id: validation_id,
        codebase_id: codebase_id,
        status: ValidationStatus::Running,
        started_at: started_at,
        completed_at: None,
        duration: None,
        overall_score: 0,
        security_result: crate::security::empty_security_result(),
        performance_metrics: crate::performance::no_metrics(),
        fuzzing_result: None,
        findings: Seq::empty(),
        recommendations: Seq::empty(),
        metadata: Seq::empty(),
    }
}

/// The findings that the analysis of a run adds: for the exit code, for the
/// error output, for the thresholds, and for the policy violations, in this
/// order.
pub open spec fn analysis_findings(
    thresholds: PerformanceThresholdsModel,
    exit_code: i64,
    stderr: Seq<char>,
    result: ValidationResultModel,
) -> Seq<FindingModel> {
    exit_code_findings(exit_code, stderr) + stderr_findings(error_pattern_table(), stderr) + threshold_findings(
        result.performance_metrics,
        thresholds,
    ) + crate::validation::violation_findings(result.security_result.violations, false, 800_000)
}

/// The health report of the validator: its own state, what the sandbox
/// driver reports, and the host's memory in use and processors.
pub open spec fn validator_health(container_health: Seq<DataEntryModel>, used_memory: u64, processors: u64) -> Seq<
    DataEntryModel,
> {
    seq![
        DataEntryModel { key: "status"@, value: DataValueModel::Text("healthy"@) },
        DataEntryModel { key: "version"@, value: DataValueModel::Text(crate::metrics::library_version()) },
    ] + container_health + seq![
        DataEntryModel { key: "system_memory_usage"@, value: DataValueModel::Count(used_memory) },
        DataEntryModel { key: "system_cpu_count"@, value: DataValueModel::Count(processors) },
    ]
}

impl RuntimeValidator {
    /// Whether the validator is fit for use.
    pub open spec fn wf(&self) -> bool {
        self.fuzzing_engine.wf() && self.metrics_collector.time_series_buffer.wf()
    }

    /// A validator with an observer for each section of the configuration.
    pub fn new(config: RuntimeConfig) -> (r: Self)
        ensures
            r.wf(),
            r.config == config,
            r.container_manager.config.deep_view() == config.container.deep_view(),
            r.performance_profiler.config.deep_view() == config.performance.deep_view(),
            r.security_monitor.config.deep_view() == config.security.deep_view(),
            r.fuzzing_engine.config.deep_view() == config.fuzzing.deep_view(),
            crate::fuzzing::strategy_matches(config.fuzzing.strategy, r.fuzzing_engine.input_generators@),
            r.security_monitor.vulnerability_scanner.vulnerability_db.deep_view()
                == crate::security::default_vulnerability_catalogue(),
            r.security_monitor.vulnerability_scanner.findings.deep_view() == Seq::<
                crate::security::VulnerabilityModel,
            >::empty(),
            r.security_monitor.secrets_detector.secret_patterns.deep_view()
                == crate::security::default_secret_catalogue(),
            r.security_monitor.secrets_detector.findings.deep_view() == Seq::<
                crate::security::SecretFindingsModel,
            >::empty(),
            r.metrics_collector.validation_metrics.deep_view() == crate::metrics::no_validations(),
            r.metrics_collector.error_metrics.deep_view() == crate::metrics::no_errors(),
            r.metrics_collector.performance_metrics == crate::metrics::no_performance(),
    {
        let container_manager = ContainerManager::new(config.container.clone());
        let performance_profiler = PerformanceProfiler::new(config.performance.clone());
        let security_monitor = SecurityMonitor::new(config.security.clone());
        let fuzzing_engine = FuzzingEngine::new(config.fuzzing.clone());
        let metrics_collector = MetricsCollector::new();
        RuntimeValidator {
            container_manager,
            performance_profiler,
            security_monitor,
            fuzzing_engine,
            metrics_collector,
            config,
        }
    }

    /// The result of a validation of the codebase that begins at
    /// `started_at`, under a fresh identifier.
    pub fn begin_validation(&self, codebase: &Codebase, started_at: i64) -> (r: ValidationResult)
        ensures
            r.deep_view() == begun_result(r.validation_id@, codebase.id@, started_at),
    {
        let findings: Vec<Finding> = Vec::new();
        assert(findings.deep_view() =~= Seq::empty());
        let recommendations: Vec<Recommendation> = Vec::new();
        assert(recommendations.deep_view() =~= Seq::empty());
        let metadata: Vec<DataEntry> = Vec::new();
        assert(metadata.deep_view() =~= Seq::empty());
        ValidationResult {
            validation_id: new_id(),
            codebase_id: codebase.id.clone(),
            status: ValidationStatus::Running,
            started_at: started_at,
            completed_at: None,
            duration: None,
            overall_score: 0,
            security_result: SecurityResult::default(),
            performance_metrics: PerformanceMetrics::default(),
            fuzzing_result: None,
            findings: findings,
            recommendations: recommendations,
            metadata: metadata,
        }
    }

    /// Appends a finding for each entry of the error table that matches the
    /// error output.
    pub fn analyze_stderr(&self, stderr: &str, findings: &mut Vec<Finding>)
        ensures
            findings_added(
                old(findings).deep_view(),
                final(findings).deep_view(),
                stderr_findings(error_pattern_table(), stderr@),
            ),
    {
        let table = error_patterns();
        let ghost entries = table.deep_view();
        let ghost before = findings.deep_view();
        let mut i: usize = 0;
        proof {
            lemma_findings_added_none(before);
        }
        while i < table.len()
            invariant
                i <= table.len(),
                entries == table.deep_view(),
                entries == error_pattern_table(),
                before == old(findings).deep_view(),
                findings_added(before, findings.deep_view(), stderr_findings(entries.take(i as int), stderr@)),
            decreases table.len() - i,
        {
            let entry = &table[i];
            assert(entries.take(i + 1).drop_last() == entries.take(i as int));
            assert(entries.take(i + 1).last() == entry.deep_view());
            let hit = crate::outside::find_pattern(entry.pattern.as_str(), stderr);
            let is_hit = match hit {
                Some(Some(_)) => true,
                _ => false,
            };
            if is_hit {
                let ghost had = findings.deep_view();
                let item = Finding::new(
                    new_id(),
                    entry.finding_type,
                    entry.severity,
                    join2("Error Pattern Detected: ", entry.pattern.as_str()),
                    join3("Detected error pattern '", entry.pattern.as_str(), "' in program output"),
                    None,
                    two_entries(text_entry("pattern", entry.pattern.as_str()), text_entry("stderr_excerpt", stderr)),
                    800_000,
                );
                findings.push(item);
                proof {
                    assert(findings.deep_view() =~= had.push(item.deep_view()));
                    lemma_findings_added_push(
                        before,
                        had,
                        stderr_findings(entries.take(i as int), stderr@),
                        item.deep_view(),
                    );
                }
            }
            i += 1;
        }
        assert(entries.take(table.len() as int) == entries);
    }

    /// Appends a finding for each threshold of the configuration that the
    /// metrics pass.
    pub fn analyze_performance_issues(&self, metrics: &PerformanceMetrics, findings: &mut Vec<Finding>)
        ensures
            findings_added(
                old(findings).deep_view(),
                final(findings).deep_view(),
                threshold_findings(metrics.deep_view(), self.config.performance.thresholds.deep_view()),
            ),
    {
        let thresholds = &self.config.performance.thresholds;
        let ghost before = findings.deep_view();
        proof {
            lemma_findings_added_none(before);
        }
        let share = fixed(metrics.cpu_usage_percent, 1);
        let limit = fixed(thresholds.max_cpu_usage_percent, 1);
        push_finding(
            findings,
            metrics.cpu_usage_percent > thresholds.max_cpu_usage_percent,
            Finding::new(
                new_id(),
                FindingType::PerformanceIssue,
                Severity::Medium,
                String::from_str("High CPU Usage"),
                join5("CPU usage (", share.as_str(), "%) exceeds threshold (", limit.as_str(), "%)"),
                None,
                two_entries(
                    fraction_entry("cpu_usage", fraction(metrics.cpu_usage_percent)),
                    fraction_entry("threshold", fraction(thresholds.max_cpu_usage_percent)),
                ),
                900_000,
            ),
            Ghost(before),
            Ghost(Seq::empty()),
        );
        let ghost first = if metrics.cpu_usage_percent > thresholds.max_cpu_usage_percent {
            seq![cpu_threshold_finding(metrics.cpu_usage_percent, thresholds.max_cpu_usage_percent)]
        } else {
            Seq::<FindingModel>::empty()
        };
        assert(findings_added(before, findings.deep_view(), first)) by {
            if metrics.cpu_usage_percent > thresholds.max_cpu_usage_percent {
                assert(Seq::<FindingModel>::empty() + first =~= first);
            } else {
                assert(Seq::<FindingModel>::empty() + Seq::<FindingModel>::empty() =~= first);
            }
        }
        let used = decimal(metrics.memory_usage_mb);
        let allowed = decimal(thresholds.max_memory_usage_mb);
        push_finding(
            findings,
            metrics.memory_usage_mb > thresholds.max_memory_usage_mb,
            Finding::new(
                new_id(),
                FindingType::PerformanceIssue,
                Severity::Medium,
                String::from_str("High Memory Usage"),
                join5("Memory usage (", used.as_str(), " MB) exceeds threshold (", allowed.as_str(), " MB)"),
                None,
                two_entries(
                    count_entry("memory_usage_mb", metrics.memory_usage_mb),
                    count_entry("threshold_mb", thresholds.max_memory_usage_mb),
                ),
                900_000,
            ),
            Ghost(before),
            Ghost(first),
        );
        let ghost second = first + (if metrics.memory_usage_mb > thresholds.max_memory_usage_mb {
            seq![memory_threshold_finding(metrics.memory_usage_mb, thresholds.max_memory_usage_mb)]
        } else {
            Seq::<FindingModel>::empty()
        });
        let took = decimal(metrics.execution_time_ms);
        let may = decimal(thresholds.max_execution_time_ms);
        push_finding(
            findings,
            metrics.execution_time_ms > thresholds.max_execution_time_ms,
            Finding::new(
                new_id(),
                FindingType::PerformanceIssue,
                Severity::Low,
                String::from_str("Slow Execution"),
                join5("Execution time (", took.as_str(), " ms) exceeds threshold (", may.as_str(), " ms)"),
                None,
                two_entries(
                    count_entry("execution_time_ms", metrics.execution_time_ms),
                    count_entry("threshold_ms", thresholds.max_execution_time_ms),
                ),
                900_000,
            ),
            Ghost(before),
            Ghost(second),
        );
    }

    /// Appends a finding for each policy violation.
    pub fn analyze_security_issues(&self, security: &SecurityResult, findings: &mut Vec<Finding>)
        ensures
            findings_added(
                old(findings).deep_view(),
                final(findings).deep_view(),
                crate::validation::violation_findings(security.violations.deep_view(), false, 800_000),
            ),
    {
        crate::validation::append_violation_findings(findings, &security.violations, false, 800_000);
    }

    /// Analyzes what a run showed and appends what is found to the result.
    pub fn analyze_execution_results(&self, execution_result: &ExecutionResult, result: &mut ValidationResult)
        ensures
            findings_added(
                old(result).findings.deep_view(),
                final(result).findings.deep_view(),
                analysis_findings(
                    self.config.performance.thresholds.deep_view(),
                    execution_result.exit_code,
                    execution_result.stderr@,
                    old(result).deep_view(),
                ),
            ),
            final(result).validation_id == old(result).validation_id,
            final(result).codebase_id == old(result).codebase_id,
            final(result).status == old(result).status,
            final(result).started_at == old(result).started_at,
            final(result).completed_at == old(result).completed_at,
            final(result).duration == old(result).duration,
            final(result).overall_score == old(result).overall_score,
            final(result).security_result == old(result).security_result,
            final(result).performance_metrics == old(result).performance_metrics,
            final(result).fuzzing_result == old(result).fuzzing_result,
            final(result).recommendations == old(result).recommendations,
            final(result).metadata == old(result).metadata,
    {
        let ghost f0 = result.findings.deep_view();
        proof {
            lemma_findings_added_none(f0);
        }
        let code = signed_decimal(execution_result.exit_code);
        push_finding(
            &mut result.findings,
            execution_result.exit_code != 0,
            Finding::new(
                new_id(),
                FindingType::RuntimeError,
                Severity::High,
                String::from_str("Non-zero Exit Code"),
                join3("Program exited with code ", code.as_str(), " indicating an error"),
                None,
                two_entries(
                    integer_entry("exit_code", execution_result.exit_code),
                    text_entry("stderr", execution_result.stderr.as_str()),
                ),
                900_000,
            ),
            Ghost(f0),
            Ghost(Seq::empty()),
        );
        let ghost a = exit_code_findings(execution_result.exit_code, execution_result.stderr@);
        let ghost f1 = result.findings.deep_view();
        assert(findings_added(f0, f1, a)) by {
            if execution_result.exit_code != 0 {
                assert(Seq::<FindingModel>::empty() + a =~= a);
            } else {
                assert(Seq::<FindingModel>::empty() + Seq::<FindingModel>::empty() =~= a);
            }
        }
        self.analyze_stderr(execution_result.stderr.as_str(), &mut result.findings);
        let ghost b = stderr_findings(error_pattern_table(), execution_result.stderr@);
        let ghost f2 = result.findings.deep_view();
        proof {
            lemma_findings_added_twice(f0, f1, f2, a, b);
        }
        self.analyze_performance_issues(&result.performance_metrics, &mut result.findings);
        let ghost c = threshold_findings(
            result.performance_metrics.deep_view(),
            self.config.performance.thresholds.deep_view(),
        );
        let ghost f3 = result.findings.deep_view();
        proof {
            lemma_findings_added_twice(f0, f2, f3, a + b, c);
        }
        self.analyze_security_issues(&result.security_result, &mut result.findings);
        proof {
            let d = crate::validation::violation_findings(result.security_result.violations.deep_view(), false, 800_000);
            lemma_findings_added_twice(f0, f3, result.findings.deep_view(), a + b + c, d);
        }
    }

    /// The overall score of a result, in millionths of a point.
    pub fn calculate_overall_score(&self, result: &ValidationResult) -> (r: u64)
        ensures
            r == crate::validation::weighted_score(crate::validation::default_weights(), result.deep_view()),
            r <= FULL_SCORE,
    {
        crate::validation::ResultAggregator::new().calculate_weighted_score(result)
    }

    /// The recommendations for a result.
    pub fn generate_recommendations(&self, result: &ValidationResult) -> (r: Vec<Recommendation>)
        ensures
            anonymous_recommendations(r.deep_view()) == crate::validation::recommendations_for(result.deep_view()),
    {
        crate::validation::ResultAggregator::new().generate_recommendations(result)
    }

    /// The health report of the validator.
    pub fn health_check(&self, container_health: Vec<DataEntry>, used_memory: u64, processors: u64) -> (r: Vec<
        DataEntry,
    >)
        ensures
            r.deep_view() == validator_health(container_health.deep_view(), used_memory, processors),
    {
        let mut out: Vec<DataEntry> = Vec::new();
        out.push(text_entry("status", "healthy"));
        out.push(text_entry("version", "0.1.0"));
        let ghost head = out.deep_view();
        let mut rest = container_health;
        let ghost middle = rest.deep_view();
        out.append(&mut rest);
        assert(out.deep_view() =~= head + middle);
        out.push(count_entry("system_memory_usage", used_memory));
        out.push(count_entry("system_cpu_count", processors));
        assert(out.deep_view() =~= validator_health(middle, used_memory, processors));
        out
    }
}


impl CodeFile {
    /// A file with the given path and content; its size is the length of
    /// the content in bytes.
    pub fn new(path: String, content: String, language: Option<String>, file_type: FileType) -> (r: CodeFile)
        ensures
            r.deep_view() == (CodeFileModel {
                path: path@,
                content: content@,
                language: language.deep_view(),
                file_type: file_type,
                size: vstd::utf8::encode_utf8(content@).len() as usize as u64,
            }),
    {
        let size = content.as_str().len() as u64;
        CodeFile { path: path, content: content, language: language, file_type: file_type, size: size }
    }
}

} // verus!
