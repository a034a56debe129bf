//! The performance observer: benchmark statistics, the profiling bundle, and
//! the bottlenecks and recommendations derived from it.

use vstd::prelude::*;

use crate::container::ResourceUsage;
use crate::text::{decimal, decimal_digits, join2};
use crate::{PerformanceConfig, PerformanceConfigModel};

verus! {

/// The resource that dominated a run.
#[derive(Debug, Clone, Copy, PartialEq, Eq, Structural)]
pub enum BottleneckType {
    CpuBound,
    MemoryBound,
    IoBound,
    NetworkBound,
    AlgorithmicComplexity,
    MemoryLeak,
    ExcessiveGc,
    DeadCode,
}

impl DeepView for BottleneckType {
    type V = BottleneckType;

    open spec fn deep_view(&self) -> BottleneckType {
        *self
    }
}

/// How grave a bottleneck is.
#[derive(Debug, Clone, Copy, PartialEq, Eq, Structural)]
pub enum BottleneckSeverity {
    Critical,
    High,
    Medium,
    Low,
}

impl DeepView for BottleneckSeverity {
    type V = BottleneckSeverity;

    open spec fn deep_view(&self) -> BottleneckSeverity {
        *self
    }
}

/// What a performance recommendation asks for.
#[derive(Debug, Clone, Copy, PartialEq, Eq, Structural)]
pub enum RecommendationType {
    AlgorithmOptimization,
    MemoryOptimization,
    CachingStrategy,
    ParallelProcessing,
    DataStructureChange,
    IoOptimization,
    CodeElimination,
}

impl DeepView for RecommendationType {
    type V = RecommendationType;

    open spec fn deep_view(&self) -> RecommendationType {
        *self
    }
}

/// How urgent a performance recommendation is.
#[derive(Debug, Clone, Copy, PartialEq, Eq, Structural)]
pub enum RecommendationPriority {
    Critical,
    High,
    Medium,
    Low,
}

impl DeepView for RecommendationPriority {
    type V = RecommendationPriority;

    open spec fn deep_view(&self) -> RecommendationPriority {
        *self
    }
}

/// How much work a performance recommendation asks for.
#[derive(Debug, Clone, Copy, PartialEq, Eq, Structural)]
pub enum ImplementationEffort {
    Low,
    Medium,
    High,
    VeryHigh,
}

impl DeepView for ImplementationEffort {
    type V = ImplementationEffort;

    open spec fn deep_view(&self) -> ImplementationEffort {
        *self
    }
}

/// Statistics over the iterations of one micro-benchmark.
#[derive(Debug, PartialEq, Eq)]
pub struct BenchmarkResult {
    pub name: String,
    pub iterations: u32,
    pub avg_duration_ns: u64,
    pub min_duration_ns: u64,
    pub max_duration_ns: u64,
    pub std_deviation_ns: u64,
    /// In millionths of an operation per second.
    pub throughput_ops_per_sec: u64,
    pub memory_per_iteration_bytes: u64,
}

/// The mathematical value of a [`BenchmarkResult`].
pub ghost struct BenchmarkResultModel {
    pub name: Seq<char>,
    pub iterations: u32,
    pub avg_duration_ns: u64,
    pub min_duration_ns: u64,
    pub max_duration_ns: u64,
    pub std_deviation_ns: u64,
    pub throughput_ops_per_sec: u64,
    pub memory_per_iteration_bytes: u64,
}

impl DeepView for BenchmarkResult {
    type V = BenchmarkResultModel;

    open spec fn deep_view(&self) -> BenchmarkResultModel {
        BenchmarkResultModel {
            name: self.name.deep_view(),
            iterations: self.iterations.deep_view(),
            avg_duration_ns: self.avg_duration_ns.deep_view(),
            min_duration_ns: self.min_duration_ns.deep_view(),
            max_duration_ns: self.max_duration_ns.deep_view(),
            std_deviation_ns: self.std_deviation_ns.deep_view(),
            throughput_ops_per_sec: self.throughput_ops_per_sec.deep_view(),
            memory_per_iteration_bytes: self.memory_per_iteration_bytes.deep_view(),
        }
    }
}

impl Clone for BenchmarkResult {
    fn clone(&self) -> (r: Self)
        ensures
            r.deep_view() == self.deep_view(),
    {
        let r = BenchmarkResult {
            name: self.name.clone(),
            iterations: self.iterations,
            avg_duration_ns: self.avg_duration_ns,
            min_duration_ns: self.min_duration_ns,
            max_duration_ns: self.max_duration_ns,
            std_deviation_ns: self.std_deviation_ns,
            throughput_ops_per_sec: self.throughput_ops_per_sec,
            memory_per_iteration_bytes: self.memory_per_iteration_bytes,
        };
        r
    }
}

/// A function that took a large share of the CPU time.
#[derive(Debug, PartialEq, Eq)]
pub struct HotFunction {
    pub name: String,
    pub file: Option<String>,
    pub line: Option<u32>,
    /// In millionths of a percent.
    pub cpu_time_percent: u64,
    pub call_count: u64,
    pub avg_duration_ns: u64,
}

/// The mathematical value of a [`HotFunction`].
pub ghost struct HotFunctionModel {
    pub name: Seq<char>,
    pub file: Option<Seq<char>>,
    pub line: Option<u32>,
    pub cpu_time_percent: u64,
    pub call_count: u64,
    pub avg_duration_ns: u64,
}

impl DeepView for HotFunction {
    type V = HotFunctionModel;

    open spec fn deep_view(&self) -> HotFunctionModel {
        HotFunctionModel {
            name: self.name.deep_view(),
            file: self.file.deep_view(),
            line: self.line.deep_view(),
            cpu_time_percent: self.cpu_time_percent.deep_view(),
            call_count: self.call_count.deep_view(),
            avg_duration_ns: self.avg_duration_ns.deep_view(),
        }
    }
}

impl Clone for HotFunction {
    fn clone(&self) -> (r: Self)
        ensures
            r.deep_view() == self.deep_view(),
    {
        let r = HotFunction {
            name: self.name.clone(),
            file: self.file.clone(),
            line: self.line,
            cpu_time_percent: self.cpu_time_percent,
            call_count: self.call_count,
            avg_duration_ns: self.avg_duration_ns,
        };
        r
    }
}

/// Shares of instruction classes, each in millionths of a percent.
#[derive(Debug, Clone, Copy, PartialEq, Eq, Structural)]
pub struct InstructionMix {
    pub integer_ops_percent: u64,
    pub floating_point_ops_percent: u64,
    pub memory_ops_percent: u64,
    pub branch_ops_percent: u64,
    pub cache_hit_rate_percent: u64,
}

impl DeepView for InstructionMix {
    type V = InstructionMix;

    open spec fn deep_view(&self) -> InstructionMix {
        *self
    }
}

/// How the CPU was used.
#[derive(Debug, PartialEq, Eq)]
pub struct CpuProfile {
    pub total_cpu_time_ms: u64,
    pub user_cpu_time_ms: u64,
    pub system_cpu_time_ms: u64,
    /// In millionths of a percent.
    pub cpu_utilization_percent: u64,
    pub hot_functions: Vec<HotFunction>,
    pub instruction_mix: InstructionMix,
}

/// The mathematical value of a [`CpuProfile`].
pub ghost struct CpuProfileModel {
    pub total_cpu_time_ms: u64,
    pub user_cpu_time_ms: u64,
    pub system_cpu_time_ms: u64,
    pub cpu_utilization_percent: u64,
    pub hot_functions: Seq<HotFunctionModel>,
    pub instruction_mix: InstructionMix,
}

impl DeepView for CpuProfile {
    type V = CpuProfileModel;

    open spec fn deep_view(&self) -> CpuProfileModel {
        CpuProfileModel {
            total_cpu_time_ms: self.total_cpu_time_ms.deep_view(),
            user_cpu_time_ms: self.user_cpu_time_ms.deep_view(),
            system_cpu_time_ms: self.system_cpu_time_ms.deep_view(),
            cpu_utilization_percent: self.cpu_utilization_percent.deep_view(),
            hot_functions: self.hot_functions.deep_view(),
            instruction_mix: self.instruction_mix.deep_view(),
        }
    }
}

impl Clone for CpuProfile {
    fn clone(&self) -> (r: Self)
        ensures
            r.deep_view() == self.deep_view(),
    {
        let r = CpuProfile {
            total_cpu_time_ms: self.total_cpu_time_ms,
            user_cpu_time_ms: self.user_cpu_time_ms,
            system_cpu_time_ms: self.system_cpu_time_ms,
            cpu_utilization_percent: self.cpu_utilization_percent,
            hot_functions: self.hot_functions.clone(),
            instruction_mix: self.instruction_mix,
        };
        assert(r.hot_functions.deep_view() =~= self.hot_functions.deep_view());
        r
    }
}

/// Memory that was allocated and never released.
#[derive(Debug, PartialEq, Eq)]
pub struct MemoryLeak {
    pub allocation_site: String,
    pub leaked_bytes: u64,
    pub allocation_count: u64,
    /// In millionths.
    pub confidence: u64,
}

/// The mathematical value of a [`MemoryLeak`].
pub ghost struct MemoryLeakModel {
    pub allocation_site: Seq<char>,
    pub leaked_bytes: u64,
    pub allocation_count: u64,
    pub confidence: u64,
}

impl DeepView for MemoryLeak {
    type V = MemoryLeakModel;

    open spec fn deep_view(&self) -> MemoryLeakModel {
        MemoryLeakModel {
            allocation_site: self.allocation_site.deep_view(),
            leaked_bytes: self.leaked_bytes.deep_view(),
            allocation_count: self.allocation_count.deep_view(),
            confidence: self.confidence.deep_view(),
        }
    }
}

impl Clone for MemoryLeak {
    fn clone(&self) -> (r: Self)
        ensures
            r.deep_view() == self.deep_view(),
    {
        let r = MemoryLeak {
            allocation_site: self.allocation_site.clone(),
            leaked_bytes: self.leaked_bytes,
            allocation_count: self.allocation_count,
            confidence: self.confidence,
        };
        r
    }
}

/// A recurring shape of allocations.
#[derive(Debug, PartialEq, Eq)]
pub struct AllocationPattern {
    pub pattern_type: String,
    pub frequency: u64,
    pub average_size_bytes: u64,
    pub total_size_bytes: u64,
}

/// The mathematical value of a [`AllocationPattern`].
pub ghost struct AllocationPatternModel {
    pub pattern_type: Seq<char>,
    pub frequency: u64,
    pub average_size_bytes: u64,
    pub total_size_bytes: u64,
}

impl DeepView for AllocationPattern {
    type V = AllocationPatternModel;

    open spec fn deep_view(&self) -> AllocationPatternModel {
        AllocationPatternModel {
            pattern_type: self.pattern_type.deep_view(),
            frequency: self.frequency.deep_view(),
            average_size_bytes: self.average_size_bytes.deep_view(),
            total_size_bytes: self.total_size_bytes.deep_view(),
        }
    }
}

impl Clone for AllocationPattern {
    fn clone(&self) -> (r: Self)
        ensures
            r.deep_view() == self.deep_view(),
    {
        let r = AllocationPattern {
            pattern_type: self.pattern_type.clone(),
            frequency: self.frequency,
            average_size_bytes: self.average_size_bytes,
            total_size_bytes: self.total_size_bytes,
        };
        r
    }
}

/// Garbage collection counters.
#[derive(Debug, Clone, Copy, PartialEq, Eq, Structural)]
pub struct GcStats {
    pub collections: u64,
    pub total_gc_time_ms: u64,
    /// In millionths of a millisecond.
    pub avg_gc_time_ms: u64,
    pub max_gc_pause_ms: u64,
    pub memory_freed_mb: u64,
}

impl DeepView for GcStats {
    type V = GcStats;

    open spec fn deep_view(&self) -> GcStats {
        *self
    }
}

/// How memory was used.
#[derive(Debug, PartialEq, Eq)]
pub struct MemoryProfile {
    pub total_allocations: u64,
    pub total_deallocations: u64,
    pub peak_heap_size_mb: u64,
    pub current_heap_size_mb: u64,
    pub memory_leaks: Vec<MemoryLeak>,
    pub allocation_patterns: Vec<AllocationPattern>,
    pub garbage_collection_stats: GcStats,
}

/// The mathematical value of a [`MemoryProfile`].
pub ghost struct MemoryProfileModel {
    pub total_allocations: u64,
    pub total_deallocations: u64,
    pub peak_heap_size_mb: u64,
    pub current_heap_size_mb: u64,
    pub memory_leaks: Seq<MemoryLeakModel>,
    pub allocation_patterns: Seq<AllocationPatternModel>,
    pub garbage_collection_stats: GcStats,
}

impl DeepView for MemoryProfile {
    type V = MemoryProfileModel;

    open spec fn deep_view(&self) -> MemoryProfileModel {
        MemoryProfileModel {
            total_allocations: self.total_allocations.deep_view(),
            total_deallocations: self.total_deallocations.deep_view(),
            peak_heap_size_mb: self.peak_heap_size_mb.deep_view(),
            current_heap_size_mb: self.current_heap_size_mb.deep_view(),
            memory_leaks: self.memory_leaks.deep_view(),
            allocation_patterns: self.allocation_patterns.deep_view(),
            garbage_collection_stats: self.garbage_collection_stats.deep_view(),
        }
    }
}

impl Clone for MemoryProfile {
    fn clone(&self) -> (r: Self)
        ensures
            r.deep_view() == self.deep_view(),
    {
        let r = MemoryProfile {
            total_allocations: self.total_allocations,
            total_deallocations: self.total_deallocations,
            peak_heap_size_mb: self.peak_heap_size_mb,
            current_heap_size_mb: self.current_heap_size_mb,
            memory_leaks: self.memory_leaks.clone(),
            allocation_patterns: self.allocation_patterns.clone(),
            garbage_collection_stats: self.garbage_collection_stats,
        };
        assert(r.memory_leaks.deep_view() =~= self.memory_leaks.deep_view());
        assert(r.allocation_patterns.deep_view() =~= self.allocation_patterns.deep_view());
        r
    }
}

/// Input and output counters.
#[derive(Debug, Clone, Copy, PartialEq, Eq, Structural)]
pub struct IoProfile {
    pub file_reads: u64,
    pub file_writes: u64,
    pub bytes_read: u64,
    pub bytes_written: u64,
    pub network_connections: u32,
    pub network_bytes_sent: u64,
    pub network_bytes_received: u64,
    pub io_wait_time_ms: u64,
}

impl DeepView for IoProfile {
    type V = IoProfile;

    open spec fn deep_view(&self) -> IoProfile {
        *self
    }
}

/// One edge of the call graph.
#[derive(Debug, PartialEq, Eq)]
pub struct FunctionCall {
    pub function_name: String,
    pub caller: Option<String>,
    pub call_count: u64,
    pub total_time_ns: u64,
    pub avg_time_ns: u64,
}

/// The mathematical value of a [`FunctionCall`].
pub ghost struct FunctionCallModel {
    pub function_name: Seq<char>,
    pub caller: Option<Seq<char>>,
    pub call_count: u64,
    pub total_time_ns: u64,
    pub avg_time_ns: u64,
}

impl DeepView for FunctionCall {
    type V = FunctionCallModel;

    open spec fn deep_view(&self) -> FunctionCallModel {
        FunctionCallModel {
            function_name: self.function_name.deep_view(),
            caller: self.caller.deep_view(),
            call_count: self.call_count.deep_view(),
            total_time_ns: self.total_time_ns.deep_view(),
            avg_time_ns: self.avg_time_ns.deep_view(),
        }
    }
}

impl Clone for FunctionCall {
    fn clone(&self) -> (r: Self)
        ensures
            r.deep_view() == self.deep_view(),
    {
        let r = FunctionCall {
            function_name: self.function_name.clone(),
            caller: self.caller.clone(),
            call_count: self.call_count,
            total_time_ns: self.total_time_ns,
            avg_time_ns: self.avg_time_ns,
        };
        r
    }
}

/// The shape of the calls made during a run.
#[derive(Debug, PartialEq, Eq)]
pub struct CallGraph {
    pub total_functions: u32,
    pub call_depth: u32,
    pub recursive_calls: u32,
    pub function_calls: Vec<FunctionCall>,
}

/// The mathematical value of a [`CallGraph`].
pub ghost struct CallGraphModel {
    pub total_functions: u32,
    pub call_depth: u32,
    pub recursive_calls: u32,
    pub function_calls: Seq<FunctionCallModel>,
}

impl DeepView for CallGraph {
    type V = CallGraphModel;

    open spec fn deep_view(&self) -> CallGraphModel {
        CallGraphModel {
            total_functions: self.total_functions.deep_view(),
            call_depth: self.call_depth.deep_view(),
            recursive_calls: self.recursive_calls.deep_view(),
            function_calls: self.function_calls.deep_view(),
        }
    }
}

impl Clone for CallGraph {
    fn clone(&self) -> (r: Self)
        ensures
            r.deep_view() == self.deep_view(),
    {
        let r = CallGraph {
            total_functions: self.total_functions,
            call_depth: self.call_depth,
            recursive_calls: self.recursive_calls,
            function_calls: self.function_calls.clone(),
        };
        assert(r.function_calls.deep_view() =~= self.function_calls.deep_view());
        r
    }
}

/// The profiling bundle of a run.
#[derive(Debug, PartialEq, Eq)]
pub struct ProfilingData {
    pub cpu_profile: CpuProfile,
    pub memory_profile: MemoryProfile,
    pub io_profile: IoProfile,
    pub call_graph: CallGraph,
}

/// The mathematical value of a [`ProfilingData`].
pub ghost struct ProfilingDataModel {
    pub cpu_profile: CpuProfileModel,
    pub memory_profile: MemoryProfileModel,
    pub io_profile: IoProfile,
    pub call_graph: CallGraphModel,
}

impl DeepView for ProfilingData {
    type V = ProfilingDataModel;

    open spec fn deep_view(&self) -> ProfilingDataModel {
        ProfilingDataModel {
            cpu_profile: self.cpu_profile.deep_view(),
            memory_profile: self.memory_profile.deep_view(),
            io_profile: self.io_profile.deep_view(),
            call_graph: self.call_graph.deep_view(),
        }
    }
}

impl Clone for ProfilingData {
    fn clone(&self) -> (r: Self)
        ensures
            r.deep_view() == self.deep_view(),
    {
        let r = ProfilingData {
            cpu_profile: self.cpu_profile.clone(),
            memory_profile: self.memory_profile.clone(),
            io_profile: self.io_profile,
            call_graph: self.call_graph.clone(),
        };
        r
    }
}

/// A resource that held a run back.
#[derive(Debug, PartialEq, Eq)]
pub struct PerformanceBottleneck {
    pub bottleneck_type: BottleneckType,
    pub severity: BottleneckSeverity,
    pub location: String,
    pub description: String,
    /// In millionths of a percent.
    pub impact_percent: u64,
    pub suggested_fix: String,
}

/// The mathematical value of a [`PerformanceBottleneck`].
pub ghost struct PerformanceBottleneckModel {
    pub bottleneck_type: BottleneckType,
    pub severity: BottleneckSeverity,
    pub location: Seq<char>,
    pub description: Seq<char>,
    pub impact_percent: u64,
    pub suggested_fix: Seq<char>,
}

impl DeepView for PerformanceBottleneck {
    type V = PerformanceBottleneckModel;

    open spec fn deep_view(&self) -> PerformanceBottleneckModel {
        PerformanceBottleneckModel {
            bottleneck_type: self.bottleneck_type.deep_view(),
            severity: self.severity.deep_view(),
            location: self.location.deep_view(),
            description: self.description.deep_view(),
            impact_percent: self.impact_percent.deep_view(),
            suggested_fix: self.suggested_fix.deep_view(),
        }
    }
}

impl Clone for PerformanceBottleneck {
    fn clone(&self) -> (r: Self)
        ensures
            r.deep_view() == self.deep_view(),
    {
        let r = PerformanceBottleneck {
            bottleneck_type: self.bottleneck_type,
            severity: self.severity,
            location: self.location.clone(),
            description: self.description.clone(),
            impact_percent: self.impact_percent,
            suggested_fix: self.suggested_fix.clone(),
        };
        r
    }
}

/// A way to make the codebase faster or leaner.
#[derive(Debug, PartialEq, Eq)]
pub struct PerformanceRecommendation {
    pub recommendation_type: RecommendationType,
    pub priority: RecommendationPriority,
    pub title: String,
    pub description: String,
    /// In millionths of a percent.
    pub expected_improvement_percent: u64,
    pub implementation_effort: ImplementationEffort,
}

/// The mathematical value of a [`PerformanceRecommendation`].
pub ghost struct PerformanceRecommendationModel {
    pub recommendation_type: RecommendationType,
    pub priority: RecommendationPriority,
    pub title: Seq<char>,
    pub description: Seq<char>,
    pub expected_improvement_percent: u64,
    pub implementation_effort: ImplementationEffort,
}

impl DeepView for PerformanceRecommendation {
    type V = PerformanceRecommendationModel;

    open spec fn deep_view(&self) -> PerformanceRecommendationModel {
        PerformanceRecommendationModel {
            recommendation_type: self.recommendation_type.deep_view(),
            priority: self.priority.deep_view(),
            title: self.title.deep_view(),
            description: self.description.deep_view(),
            expected_improvement_percent: self.expected_improvement_percent.deep_view(),
            implementation_effort: self.implementation_effort.deep_view(),
        }
    }
}

impl Clone for PerformanceRecommendation {
    fn clone(&self) -> (r: Self)
        ensures
            r.deep_view() == self.deep_view(),
    {
        let r = PerformanceRecommendation {
            recommendation_type: self.recommendation_type,
            priority: self.priority,
            title: self.title.clone(),
            description: self.description.clone(),
            expected_improvement_percent: self.expected_improvement_percent,
            implementation_effort: self.implementation_effort,
        };
        r
    }
}

/// Everything the performance observer measured and derived.
#[derive(Debug, PartialEq, Eq)]
pub struct PerformanceMetrics {
    pub execution_time_ms: u64,
    /// In millionths of a percent.
    pub cpu_usage_percent: u64,
    pub memory_usage_mb: u64,
    pub peak_memory_mb: u64,
    pub disk_io_mb: u64,
    pub network_io_mb: u64,
    pub context_switches: u64,
    pub page_faults: u64,
    pub cache_misses: u64,
    /// One entry for each benchmark that ran, found by its name.
    pub benchmarks: Vec<BenchmarkResult>,
    pub profiling_data: ProfilingData,
    pub bottlenecks: Vec<PerformanceBottleneck>,
    pub recommendations: Vec<PerformanceRecommendation>,
}

/// The mathematical value of a [`PerformanceMetrics`].
pub ghost struct PerformanceMetricsModel {
    pub execution_time_ms: u64,
    pub cpu_usage_percent: u64,
    pub memory_usage_mb: u64,
    pub peak_memory_mb: u64,
    pub disk_io_mb: u64,
    pub network_io_mb: u64,
    pub context_switches: u64,
    pub page_faults: u64,
    pub cache_misses: u64,
    pub benchmarks: Seq<BenchmarkResultModel>,
    pub profiling_data: ProfilingDataModel,
    pub bottlenecks: Seq<PerformanceBottleneckModel>,
    pub recommendations: Seq<PerformanceRecommendationModel>,
}

impl DeepView for PerformanceMetrics {
    type V = PerformanceMetricsModel;

    open spec fn deep_view(&self) -> PerformanceMetricsModel {
        PerformanceMetricsModel {
            execution_time_ms: self.execution_time_ms.deep_view(),
            cpu_usage_percent: self.cpu_usage_percent.deep_view(),
            memory_usage_mb: self.memory_usage_mb.deep_view(),
            peak_memory_mb: self.peak_memory_mb.deep_view(),
            disk_io_mb: self.disk_io_mb.deep_view(),
            network_io_mb: self.network_io_mb.deep_view(),
            context_switches: self.context_switches.deep_view(),
            page_faults: self.page_faults.deep_view(),
            cache_misses: self.cache_misses.deep_view(),
            benchmarks: self.benchmarks.deep_view(),
            profiling_data: self.profiling_data.deep_view(),
            bottlenecks: self.bottlenecks.deep_view(),
            recommendations: self.recommendations.deep_view(),
        }
    }
}

impl Clone for PerformanceMetrics {
    fn clone(&self) -> (r: Self)
        ensures
            r.deep_view() == self.deep_view(),
    {
        let r = PerformanceMetrics {
            execution_time_ms: self.execution_time_ms,
            cpu_usage_percent: self.cpu_usage_percent,
            memory_usage_mb: self.memory_usage_mb,
            peak_memory_mb: self.peak_memory_mb,
            disk_io_mb: self.disk_io_mb,
            network_io_mb: self.network_io_mb,
            context_switches: self.context_switches,
            page_faults: self.page_faults,
            cache_misses: self.cache_misses,
            benchmarks: self.benchmarks.clone(),
            profiling_data: self.profiling_data.clone(),
            bottlenecks: self.bottlenecks.clone(),
            recommendations: self.recommendations.clone(),
        };
        assert(r.benchmarks.deep_view() =~= self.benchmarks.deep_view());
        assert(r.bottlenecks.deep_view() =~= self.bottlenecks.deep_view());
        assert(r.recommendations.deep_view() =~= self.recommendations.deep_view());
        r
    }
}

/// The performance observer.
#[derive(Debug, PartialEq, Eq)]
pub struct PerformanceProfiler {
    pub config: PerformanceConfig,
}

/// The mathematical value of a [`PerformanceProfiler`].
pub ghost struct PerformanceProfilerModel {
    pub config: PerformanceConfigModel,
}

impl DeepView for PerformanceProfiler {
    type V = PerformanceProfilerModel;

    open spec fn deep_view(&self) -> PerformanceProfilerModel {
        PerformanceProfilerModel {
            config: self.config.deep_view(),
        }
    }
}

impl Clone for PerformanceProfiler {
    fn clone(&self) -> (r: Self)
        ensures
            r.deep_view() == self.deep_view(),
    {
        let r = PerformanceProfiler {
            config: self.config.clone(),
        };
        r
    }
}

/// An instruction mix of which nothing is known.
pub open spec fn no_instruction_mix() -> InstructionMix {
    InstructionMix {
        integer_ops_percent: 0,
        floating_point_ops_percent: 0,
        memory_ops_percent: 0,
        branch_ops_percent: 0,
        cache_hit_rate_percent: 0,
    }
}

/// Garbage collection counters of which nothing is known.
pub open spec fn no_gc() -> GcStats {
    GcStats { collections: 0, total_gc_time_ms: 0, avg_gc_time_ms: 0, max_gc_pause_ms: 0, memory_freed_mb: 0 }
}

/// Input and output counters of which nothing is known.
pub open spec fn no_io() -> IoProfile {
    IoProfile {
        file_reads: 0,
        file_writes: 0,
        bytes_read: 0,
        bytes_written: 0,
        network_connections: 0,
        network_bytes_sent: 0,
        network_bytes_received: 0,
        io_wait_time_ms: 0,
    }
}

/// The CPU time of a run in milliseconds: its share of the wall-clock time,
/// held at the largest number a `u64` can take.
pub open spec fn cpu_time(execution_time_ms: u64, cpu_usage_percent: u64) -> u64 {
    let time = execution_time_ms * cpu_usage_percent / 100_000_000;
    if time > u64::MAX {
        u64::MAX
    } else {
        time as u64
    }
}

/// The profiling bundle of a run, as far as its resource usage tells: the
/// CPU share and the CPU time that follows from it, and the memory in use
/// as the heap's size. What was not measured is zero or empty.
pub open spec fn profiling_data_for(usage: ResourceUsage, execution_time_ms: u64) -> ProfilingDataModel {
    ProfilingDataModel {
        cpu_profile: CpuProfileModel {
            total_cpu_time_ms: cpu_time(execution_time_ms, usage.cpu_usage_percent),
            user_cpu_time_ms: cpu_time(execution_time_ms, usage.cpu_usage_percent),
            system_cpu_time_ms: 0,
            cpu_utilization_percent: usage.cpu_usage_percent,
            hot_functions: Seq::empty(),
            instruction_mix: no_instruction_mix(),
        },
        memory_profile: MemoryProfileModel {
            total_allocations: 0,
            total_deallocations: 0,
            peak_heap_size_mb: usage.memory_usage_mb,
            current_heap_size_mb: usage.memory_usage_mb,
            memory_leaks: Seq::empty(),
            allocation_patterns: Seq::empty(),
            garbage_collection_stats: no_gc(),
        },
        io_profile: no_io(),
        call_graph: CallGraphModel {
            total_functions: 0,
            call_depth: 0,
            recursive_calls: 0,
            function_calls: Seq::empty(),
        },
    }
}

/// The bottleneck reported for a CPU share over ninety percent.
pub open spec fn cpu_bottleneck(cpu_utilization_percent: u64) -> PerformanceBottleneckModel {
    PerformanceBottleneckModel {
        bottleneck_type: BottleneckType::CpuBound,
        severity: BottleneckSeverity::High,
        location: "CPU intensive operations"@,
        description: "High CPU utilization detected"@,
        impact_percent: cpu_utilization_percent,
        suggested_fix: "Consider optimizing algorithms or parallelizing work"@,
    }
}

/// The bottleneck reported for a heap over 512 megabytes.
pub open spec fn memory_bottleneck() -> PerformanceBottleneckModel {
    PerformanceBottleneckModel {
        bottleneck_type: BottleneckType::MemoryBound,
        severity: BottleneckSeverity::Medium,
        location: "Memory allocation"@,
        description: "High memory usage detected"@,
        impact_percent: 30_000_000,
        suggested_fix: "Optimize memory allocation patterns or implement memory pooling"@,
    }
}

/// The bottleneck reported for `count` memory leaks.
pub open spec fn leak_bottleneck(count: nat) -> PerformanceBottleneckModel {
    PerformanceBottleneckModel {
        bottleneck_type: BottleneckType::MemoryLeak,
        severity: BottleneckSeverity::Critical,
        location: "Memory management"@,
        description: decimal_digits(count) + " memory leaks detected"@,
        impact_percent: 50_000_000,
        suggested_fix: "Fix memory leaks by ensuring proper deallocation"@,
    }
}

/// The bottleneck reported for more than a hundred milliseconds of waiting
/// for input or output.
pub open spec fn io_bottleneck() -> PerformanceBottleneckModel {
    PerformanceBottleneckModel {
        bottleneck_type: BottleneckType::IoBound,
        severity: BottleneckSeverity::Medium,
        location: "I/O operations"@,
        description: "High I/O wait time detected"@,
        impact_percent: 25_000_000,
        suggested_fix: "Optimize I/O operations with buffering or async processing"@,
    }
}

/// The bottlenecks of a run: CPU, memory, leaks, input and output, each
/// where its threshold is passed, in this order.
pub open spec fn bottlenecks_of(data: ProfilingDataModel) -> Seq<PerformanceBottleneckModel> {
    (if data.cpu_profile.cpu_utilization_percent > 90_000_000 {
        seq![cpu_bottleneck(data.cpu_profile.cpu_utilization_percent)]
    } else {
        Seq::empty()
    }) + (if data.memory_profile.peak_heap_size_mb > 512 {
        seq![memory_bottleneck()]
    } else {
        Seq::empty()
    }) + (if data.memory_profile.memory_leaks.len() > 0 {
        seq![leak_bottleneck(data.memory_profile.memory_leaks.len())]
    } else {
        Seq::empty()
    }) + (if data.io_profile.io_wait_time_ms > 100 {
        seq![io_bottleneck()]
    } else {
        Seq::empty()
    })
}

/// The recommendation made for a CPU share over seventy percent.
pub open spec fn algorithm_recommendation() -> PerformanceRecommendationModel {
    PerformanceRecommendationModel {
        recommendation_type: RecommendationType::AlgorithmOptimization,
        priority: RecommendationPriority::High,
        title: "Optimize CPU-intensive algorithms"@,
        description: "High CPU usage detected. Consider optimizing hot functions and algorithms."@,
        expected_improvement_percent: 25_000_000,
        implementation_effort: ImplementationEffort::Medium,
    }
}

/// The recommendation made for a heap over 256 megabytes.
pub open spec fn memory_recommendation() -> PerformanceRecommendationModel {
    PerformanceRecommendationModel {
        recommendation_type: RecommendationType::MemoryOptimization,
        priority: RecommendationPriority::Medium,
        title: "Implement memory optimization"@,
        description: "High memory usage detected. Consider memory pooling or reducing allocations."@,
        expected_improvement_percent: 20_000_000,
        implementation_effort: ImplementationEffort::Medium,
    }
}

/// The recommendation made for more than fifty file reads.
pub open spec fn caching_recommendation() -> PerformanceRecommendationModel {
    PerformanceRecommendationModel {
        recommendation_type: RecommendationType::CachingStrategy,
        priority: RecommendationPriority::Medium,
        title: "Implement caching strategy"@,
        description: "High file I/O detected. Consider implementing caching to reduce disk access."@,
        expected_improvement_percent: 30_000_000,
        implementation_effort: ImplementationEffort::Low,
    }
}

/// The recommendation made for calls nested more than ten deep.
pub open spec fn parallel_recommendation() -> PerformanceRecommendationModel {
    PerformanceRecommendationModel {
        recommendation_type: RecommendationType::ParallelProcessing,
        priority: RecommendationPriority::Low,
        title: "Consider parallel processing"@,
        description: "Deep call stack detected. Some operations might benefit from parallelization."@,
        expected_improvement_percent: 40_000_000,
        implementation_effort: ImplementationEffort::High,
    }
}

/// The recommendations for a run: algorithms, memory, caching, parallel
/// processing, each where its threshold is passed, in this order.
pub open spec fn recommendations_of(data: ProfilingDataModel) -> Seq<PerformanceRecommendationModel> {
    (if data.cpu_profile.cpu_utilization_percent > 70_000_000 {
        seq![algorithm_recommendation()]
    } else {
        Seq::empty()
    }) + (if data.memory_profile.peak_heap_size_mb > 256 {
        seq![memory_recommendation()]
    } else {
        Seq::empty()
    }) + (if data.io_profile.file_reads > 50 {
        seq![caching_recommendation()]
    } else {
        Seq::empty()
    }) + (if data.call_graph.call_depth > 10 {
        seq![parallel_recommendation()]
    } else {
        Seq::empty()
    })
}

fn push_bottleneck(
    out: &mut Vec<PerformanceBottleneck>,
    wanted: bool,
    item: PerformanceBottleneck,
)
    ensures
        final(out).deep_view() == old(out).deep_view() + (if wanted {
            seq![item.deep_view()]
        } else {
            Seq::empty()
        }),
{
    let ghost before = out.deep_view();
    if wanted {
        out.push(item);
        assert(out.deep_view() =~= before + seq![item.deep_view()]);
    } else {
        assert(out.deep_view() =~= before + Seq::empty());
    }
}

fn push_recommendation(
    out: &mut Vec<PerformanceRecommendation>,
    wanted: bool,
    item: PerformanceRecommendation,
)
    ensures
        final(out).deep_view() == old(out).deep_view() + (if wanted {
            seq![item.deep_view()]
        } else {
            Seq::empty()
        }),
{
    let ghost before = out.deep_view();
    if wanted {
        out.push(item);
        assert(out.deep_view() =~= before + seq![item.deep_view()]);
    } else {
        assert(out.deep_view() =~= before + Seq::empty());
    }
}

impl PerformanceProfiler {
    /// A profiler with the given configuration.
    pub fn new(config: PerformanceConfig) -> (r: Self)
        ensures
            r.config == config,
    {
        PerformanceProfiler { config: config }
    }

    /// The profiling bundle of a run, from what it consumed and how long it
    /// took.
    pub fn collect_profiling_data(&self, usage: &ResourceUsage, execution_time_ms: u64) -> (r: ProfilingData)
        ensures
            r.deep_view() == profiling_data_for(*usage, execution_time_ms),
    {
        assert(execution_time_ms * usage.cpu_usage_percent <= 0xffff_ffff_ffff_ffff * 0xffff_ffff_ffff_ffff)
            by (nonlinear_arith)
            requires
                execution_time_ms <= 0xffff_ffff_ffff_ffff,
                usage.cpu_usage_percent <= 0xffff_ffff_ffff_ffff,
        ;
        let time: u128 = (execution_time_ms as u128) * (usage.cpu_usage_percent as u128) / 100_000_000;
        let cpu_time_ms: u64 = if time > 0xffff_ffff_ffff_ffff {
            u64::MAX
        } else {
            time as u64
        };
        let r = ProfilingData {
            cpu_profile: CpuProfile {
                total_cpu_time_ms: cpu_time_ms,
                user_cpu_time_ms: cpu_time_ms,
                system_cpu_time_ms: 0,
                cpu_utilization_percent: usage.cpu_usage_percent,
                hot_functions: Vec::new(),
                instruction_mix: InstructionMix {
                    integer_ops_percent: 0,
                    floating_point_ops_percent: 0,
                    memory_ops_percent: 0,
                    branch_ops_percent: 0,
                    cache_hit_rate_percent: 0,
                },
            },
            memory_profile: MemoryProfile {
                total_allocations: 0,
                total_deallocations: 0,
                peak_heap_size_mb: usage.memory_usage_mb,
                current_heap_size_mb: usage.memory_usage_mb,
                memory_leaks: Vec::new(),
                allocation_patterns: Vec::new(),
                garbage_collection_stats: GcStats {
                    collections: 0,
                    total_gc_time_ms: 0,
                    avg_gc_time_ms: 0,
                    max_gc_pause_ms: 0,
                    memory_freed_mb: 0,
                },
            },
            io_profile: IoProfile {
                file_reads: 0,
                file_writes: 0,
                bytes_read: 0,
                bytes_written: 0,
                network_connections: 0,
                network_bytes_sent: 0,
                network_bytes_received: 0,
                io_wait_time_ms: 0,
            },
            call_graph: CallGraph {
                total_functions: 0,
                call_depth: 0,
                recursive_calls: 0,
                function_calls: Vec::new(),
            },
        };
        assert(r.cpu_profile.hot_functions.deep_view() =~= Seq::empty());
        assert(r.memory_profile.memory_leaks.deep_view() =~= Seq::empty());
        assert(r.memory_profile.allocation_patterns.deep_view() =~= Seq::empty());
        assert(r.call_graph.function_calls.deep_view() =~= Seq::empty());
        r
    }

    /// The bottlenecks that the profiling bundle shows.
    pub fn identify_bottlenecks(&self, profiling_data: &ProfilingData) -> (r: Vec<PerformanceBottleneck>)
        ensures
            r.deep_view() == bottlenecks_of(profiling_data.deep_view()),
    {
        let mut out: Vec<PerformanceBottleneck> = Vec::new();
        assert(out.deep_view() =~= Seq::empty());
        push_bottleneck(
            &mut out,
            profiling_data.cpu_profile.cpu_utilization_percent > 90_000_000,
            PerformanceBottleneck {
                bottleneck_type: BottleneckType::CpuBound,
                severity: BottleneckSeverity::High,
                location: String::from_str("CPU intensive operations"),
                description: String::from_str("High CPU utilization detected"),
                impact_percent: profiling_data.cpu_profile.cpu_utilization_percent,
                suggested_fix: String::from_str("Consider optimizing algorithms or parallelizing work"),
            },
        );
        push_bottleneck(
            &mut out,
            profiling_data.memory_profile.peak_heap_size_mb > 512,
            PerformanceBottleneck {
                bottleneck_type: BottleneckType::MemoryBound,
                severity: BottleneckSeverity::Medium,
                location: String::from_str("Memory allocation"),
                description: String::from_str("High memory usage detected"),
                impact_percent: 30_000_000,
                suggested_fix: String::from_str(
                    "Optimize memory allocation patterns or implement memory pooling",
                ),
            },
        );
        let leaks = decimal(profiling_data.memory_profile.memory_leaks.len() as u64);
        push_bottleneck(
            &mut out,
            profiling_data.memory_profile.memory_leaks.len() > 0,
            PerformanceBottleneck {
                bottleneck_type: BottleneckType::MemoryLeak,
                severity: BottleneckSeverity::Critical,
                location: String::from_str("Memory management"),
                description: join2(leaks.as_str(), " memory leaks detected"),
                impact_percent: 50_000_000,
                suggested_fix: String::from_str("Fix memory leaks by ensuring proper deallocation"),
            },
        );
        push_bottleneck(
            &mut out,
            profiling_data.io_profile.io_wait_time_ms > 100,
            PerformanceBottleneck {
                bottleneck_type: BottleneckType::IoBound,
                severity: BottleneckSeverity::Medium,
                location: String::from_str("I/O operations"),
                description: String::from_str("High I/O wait time detected"),
                impact_percent: 25_000_000,
                suggested_fix: String::from_str("Optimize I/O operations with buffering or async processing"),
            },
        );
        out
    }

    /// The recommendations that follow from the profiling bundle.
    pub fn generate_recommendations(
        &self,
        profiling_data: &ProfilingData,
        _bottlenecks: &Vec<PerformanceBottleneck>,
    ) -> (r: Vec<PerformanceRecommendation>)
        ensures
            r.deep_view() == recommendations_of(profiling_data.deep_view()),
    {
        let mut out: Vec<PerformanceRecommendation> = Vec::new();
        assert(out.deep_view() =~= Seq::empty());
        push_recommendation(
            &mut out,
            profiling_data.cpu_profile.cpu_utilization_percent > 70_000_000,
            PerformanceRecommendation {
                recommendation_type: RecommendationType::AlgorithmOptimization,
                priority: RecommendationPriority::High,
                title: String::from_str("Optimize CPU-intensive algorithms"),
                description: String::from_str(
                    "High CPU usage detected. Consider optimizing hot functions and algorithms.",
                ),
                expected_improvement_percent: 25_000_000,
                implementation_effort: ImplementationEffort::Medium,
            },
        );
        push_recommendation(
            &mut out,
            profiling_data.memory_profile.peak_heap_size_mb > 256,
            PerformanceRecommendation {
                recommendation_type: RecommendationType::MemoryOptimization,
                priority: RecommendationPriority::Medium,
                title: String::from_str("Implement memory optimization"),
                description: String::from_str(
                    "High memory usage detected. Consider memory pooling or reducing allocations.",
                ),
                expected_improvement_percent: 20_000_000,
                implementation_effort: ImplementationEffort::Medium,
            },
        );
        push_recommendation(
            &mut out,
            profiling_data.io_profile.file_reads > 50,
            PerformanceRecommendation {
                recommendation_type: RecommendationType::CachingStrategy,
                priority: RecommendationPriority::Medium,
                title: String::from_str("Implement caching strategy"),
                description: String::from_str(
                    "High file I/O detected. Consider implementing caching to reduce disk access.",
                ),
                expected_improvement_percent: 30_000_000,
                implementation_effort: ImplementationEffort::Low,
            },
        );
        push_recommendation(
            &mut out,
            profiling_data.call_graph.call_depth > 10,
            PerformanceRecommendation {
                recommendation_type: RecommendationType::ParallelProcessing,
                priority: RecommendationPriority::Low,
                title: String::from_str("Consider parallel processing"),
                description: String::from_str(
                    "Deep call stack detected. Some operations might benefit from parallelization.",
                ),
                expected_improvement_percent: 40_000_000,
                implementation_effort: ImplementationEffort::High,
            },
        );
        out
    }
}

/// The sum of the durations.
pub open spec fn total_of(durations: Seq<u64>) -> int
    decreases durations.len(),
{
    if durations.len() == 0 {
        0
    } else {
        total_of(durations.drop_last()) + durations.last()
    }
}

/// The smallest of the durations, zero when there are none.
pub open spec fn smallest_of(durations: Seq<u64>) -> int
    decreases durations.len(),
{
    if durations.len() == 0 {
        0
    } else if durations.len() == 1 {
        durations[0] as int
    } else if durations.last() < smallest_of(durations.drop_last()) {
        durations.last() as int
    } else {
        smallest_of(durations.drop_last())
    }
}

/// The largest of the durations, zero when there are none.
pub open spec fn largest_of(durations: Seq<u64>) -> int
    decreases durations.len(),
{
    if durations.len() == 0 {
        0
    } else if durations.last() > largest_of(durations.drop_last()) {
        durations.last() as int
    } else {
        largest_of(durations.drop_last())
    }
}

/// The sum of the squared distances of the durations from `mean`.
pub open spec fn spread_of(durations: Seq<u64>, mean: int) -> int
    decreases durations.len(),
{
    if durations.len() == 0 {
        0
    } else {
        spread_of(durations.drop_last(), mean) + (durations.last() - mean) * (durations.last() - mean)
    }
}

/// Whether `root` is the square root of `n`, rounded down.
pub open spec fn is_root(n: int, root: int) -> bool {
    0 <= root && root * root <= n < (root + 1) * (root + 1)
}

/// How many operations of `avg_duration_ns` nanoseconds fit into a second,
/// in millionths of an operation; zero for a duration of zero.
pub open spec fn throughput_of(avg_duration_ns: int) -> int {
    if avg_duration_ns <= 0 {
        0
    } else {
        1_000_000_000_000_000int / avg_duration_ns
    }
}

/// The square root of `n`, rounded down.
pub fn integer_sqrt(n: u128) -> (r: u64)
    ensures
        is_root(n as int, r as int),
{
    let mut lo: u128 = 0;
    let mut hi: u128 = 0x1_0000_0000_0000_0000;
    assert(hi * hi == 0x1_0000_0000_0000_0000_0000_0000_0000_0000) by (nonlinear_arith)
        requires
            hi == 0x1_0000_0000_0000_0000,
    ;
    while hi - lo > 1
        invariant
            lo < hi <= 0x1_0000_0000_0000_0000,
            lo * lo <= n < hi * hi,
        decreases hi - lo,
    {
        let mid: u128 = lo + (hi - lo) / 2;
        assert(mid * mid <= 0xffff_ffff_ffff_ffff * 0xffff_ffff_ffff_ffff) by (nonlinear_arith)
            requires
                mid <= 0xffff_ffff_ffff_ffff,
        ;
        if mid * mid <= n {
            lo = mid;
        } else {
            hi = mid;
        }
    }
    lo as u64
}

/// The root of a number is unique.
pub proof fn lemma_root_is_unique(n: int, a: int, b: int)
    requires
        is_root(n, a),
        is_root(n, b),
    ensures
        a == b,
{
    if a < b {
        assert((a + 1) * (a + 1) <= b * b) by (nonlinear_arith)
            requires
                0 <= a,
                a + 1 <= b,
        ;
    }
    if b < a {
        assert((b + 1) * (b + 1) <= a * a) by (nonlinear_arith)
            requires
                0 <= b,
                b + 1 <= a,
        ;
    }
}

impl PerformanceProfiler {
    /// The statistics of one benchmark over its measured durations in
    /// nanoseconds: the mean over `iterations`, the smallest and the largest
    /// duration, the standard deviation as the root of the mean squared
    /// distance from the mean, and the throughput. There are none for zero
    /// iterations, and none where the mean or the sum of the squared
    /// distances is too large to be held.
    pub fn calculate_benchmark_result(&self, name: &str, iterations: u32, durations: &Vec<u64>) -> (r: Option<
        BenchmarkResult,
    >)
        ensures
            r is Some <==> iterations > 0 && total_of(durations@) / (iterations as int) <= u64::MAX
                && spread_of(durations@, total_of(durations@) / (iterations as int)) <= u128::MAX,
            r matches Some(b) ==> {
                let mean = total_of(durations@) / (iterations as int);
                &&& b.name@ == name@
                &&& b.iterations == iterations
                &&& b.avg_duration_ns == mean
                &&& b.min_duration_ns == smallest_of(durations@)
                &&& b.max_duration_ns == largest_of(durations@)
                &&& is_root(spread_of(durations@, mean) / (iterations as int), b.std_deviation_ns as int)
                &&& b.throughput_ops_per_sec == throughput_of(mean)
                &&& b.memory_per_iteration_bytes == 1_048_576
            },
    {
        if iterations == 0 {
            return None;
        }
        let ghost d = durations@;
        let mut total: u128 = 0;
        let mut smallest: u64 = 0;
        let mut largest: u64 = 0;
        let mut i: usize = 0;
        while i < durations.len()
            invariant
                i <= durations.len(),
                d == durations@,
                total == total_of(d.take(i as int)),
                total <= i * 0xffff_ffff_ffff_ffff,
                smallest == smallest_of(d.take(i as int)),
                largest == largest_of(d.take(i as int)),
            decreases durations.len() - i,
        {
            assert(d.take(i + 1).drop_last() == d.take(i as int));
            assert(i * 0xffff_ffff_ffff_ffff + 0xffff_ffff_ffff_ffff <= 0xffff_ffff_ffff_ffff
                * 0x1_0000_0000_0000_0000) by (nonlinear_arith)
                requires
                    i <= 0xffff_ffff_ffff_ffff,
            ;
            total = total + durations[i] as u128;
            if i == 0 || durations[i] < smallest {
                smallest = durations[i];
            }
            if durations[i] > largest {
                largest = durations[i];
            }
            i += 1;
        }
        assert(d.take(durations.len() as int) == d);
        let mean_wide: u128 = total / (iterations as u128);
        if mean_wide > 0xffff_ffff_ffff_ffff {
            return None;
        }
        let mean: u64 = mean_wide as u64;
        let mut spread: u128 = 0;
        let mut j: usize = 0;
        while j < durations.len()
            invariant
                j <= durations.len(),
                d == durations@,
                iterations > 0,
                mean == total_of(d) / (iterations as int),
                spread == spread_of(d.take(j as int), mean as int),
            decreases durations.len() - j,
        {
            assert(d.take(j + 1).drop_last() == d.take(j as int));
            let distance: u128 = if durations[j] >= mean {
                (durations[j] - mean) as u128
            } else {
                (mean - durations[j]) as u128
            };
            assert(distance * distance <= 0xffff_ffff_ffff_ffff * 0xffff_ffff_ffff_ffff) by (nonlinear_arith)
                requires
                    distance <= 0xffff_ffff_ffff_ffff,
            ;
            assert(distance * distance == (durations[j as int] - mean) * (durations[j as int] - mean))
                by (nonlinear_arith)
                requires
                    distance == durations[j as int] - mean || distance == mean - durations[j as int],
            ;
            let square: u128 = distance * distance;
            if square > u128::MAX - spread {
                proof {
                    lemma_spread_grows(d, mean as int, j + 1);
                    assert(d.take(j + 1).last() == durations[j as int]);
                    assert(spread_of(d.take(j + 1), mean as int) == spread + square);
                }
                return None;
            }
            spread = spread + square;
            j += 1;
        }
        assert(d.take(durations.len() as int) == d);
        let variance: u128 = spread / (iterations as u128);
        let throughput: u64 = if mean == 0 {
            0
        } else {
            1_000_000_000_000_000 / mean
        };
        Some(
            BenchmarkResult {
                name: String::from_str(name),
                iterations: iterations,
                avg_duration_ns: mean,
                min_duration_ns: smallest,
                max_duration_ns: largest,
                std_deviation_ns: integer_sqrt(variance),
                throughput_ops_per_sec: throughput,
                memory_per_iteration_bytes: 1_048_576,
            },
        )
    }
}

/// The sum of squared distances over a part of the durations is no larger
/// than over all of them.
pub proof fn lemma_spread_grows(durations: Seq<u64>, mean: int, part: int)
    requires
        0 <= part <= durations.len(),
    ensures
        0 <= spread_of(durations.take(part), mean) <= spread_of(durations, mean),
    decreases durations.len() - part,
{
    lemma_spread_not_negative(durations.take(part), mean);
    if part < durations.len() {
        lemma_spread_grows(durations, mean, part + 1);
        assert(durations.take(part + 1).drop_last() == durations.take(part));
        let x = durations.take(part + 1).last() - mean;
        assert(x * x >= 0) by (nonlinear_arith);
    } else {
        assert(durations.take(part) == durations);
    }
}

/// A sum of squared distances is not negative.
pub proof fn lemma_spread_not_negative(durations: Seq<u64>, mean: int)
    ensures
        0 <= spread_of(durations, mean),
    decreases durations.len(),
{
    if durations.len() > 0 {
        lemma_spread_not_negative(durations.drop_last(), mean);
        let x = durations.last() - mean;
        assert(x * x >= 0) by (nonlinear_arith);
    }
}

/// The three micro-benchmarks.
#[derive(Debug, Clone, Copy, PartialEq, Eq, Structural)]
pub enum BenchmarkKind {
    /// Arithmetic on the processor.
    CpuIntensive,
    /// Allocation of a megabyte.
    MemoryAllocation,
    /// A file written, read and removed.
    IoOperations,
}

impl DeepView for BenchmarkKind {
    type V = BenchmarkKind;

    open spec fn deep_view(&self) -> BenchmarkKind {
        *self
    }
}

/// The name a benchmark's result is filed under.
pub open spec fn benchmark_name(kind: BenchmarkKind) -> Seq<char> {
    match kind {
        BenchmarkKind::CpuIntensive => "cpu_intensive"@,
        BenchmarkKind::MemoryAllocation => "memory_allocation"@,
        BenchmarkKind::IoOperations => "io_operations"@,
    }
}

/// The benchmarks a configuration asks for: none without iterations, and
/// else one for each kind of profiling that is enabled.
pub open spec fn benchmarks_for(config: PerformanceConfigModel) -> Seq<BenchmarkKind> {
    if config.benchmark_iterations == 0 {
        Seq::empty()
    } else {
        (if config.enable_cpu_profiling {
            seq![BenchmarkKind::CpuIntensive]
        } else {
            Seq::empty()
        }) + (if config.enable_memory_profiling {
            seq![BenchmarkKind::MemoryAllocation]
        } else {
            Seq::empty()
        }) + (if config.enable_io_profiling {
            seq![BenchmarkKind::IoOperations]
        } else {
            Seq::empty()
        })
    }
}

/// The sum of the squares of the numbers below `n`.
pub open spec fn sum_of_squares(n: nat) -> int
    decreases n,
{
    if n == 0 {
        0
    } else {
        sum_of_squares((n - 1) as nat) + (n - 1) * (n - 1)
    }
}

/// The megabytes in use when `available` of `total` bytes are free.
pub open spec fn in_use_mb(total_bytes: u64, available_bytes: u64) -> u64 {
    if available_bytes >= total_bytes {
        0
    } else {
        ((total_bytes - available_bytes) / 1_048_576) as u64
    }
}

/// The mean of the samples, rounded down; zero when there are none.
pub open spec fn mean_of(samples: Seq<u64>) -> int {
    if samples.len() == 0 {
        0
    } else {
        total_of(samples) / (samples.len() as int)
    }
}

/// What the observer reports for a run: what was measured, the profiling
/// bundle, and the bottlenecks and recommendations that follow from it.
pub open spec fn metrics_for(
    usage: ResourceUsage,
    execution_time_ms: u64,
    benchmarks: Seq<BenchmarkResultModel>,
) -> PerformanceMetricsModel {
    let data = profiling_data_for(usage, execution_time_ms);
    PerformanceMetricsModel {
        execution_time_ms: execution_time_ms,
        cpu_usage_percent: usage.cpu_usage_percent,
        memory_usage_mb: usage.memory_usage_mb,
        peak_memory_mb: usage.memory_usage_mb,
        disk_io_mb: usage.disk_usage_mb,
        network_io_mb: usage.network_io_bytes / 1_048_576,
        context_switches: 0,
        page_faults: 0,
        cache_misses: 0,
        benchmarks: benchmarks,
        profiling_data: data,
        bottlenecks: bottlenecks_of(data),
        recommendations: recommendations_of(data),
    }
}

/// The metrics before anything was measured.
pub open spec fn no_metrics() -> PerformanceMetricsModel {
    PerformanceMetricsModel {
        execution_time_ms: 0,
        cpu_usage_percent: 0,
        memory_usage_mb: 0,
        peak_memory_mb: 0,
        disk_io_mb: 0,
        network_io_mb: 0,
        context_switches: 0,
        page_faults: 0,
        cache_misses: 0,
        benchmarks: Seq::empty(),
        profiling_data: profiling_data_for(crate::container::no_usage(), 0),
        bottlenecks: Seq::empty(),
        recommendations: Seq::empty(),
    }
}

impl PerformanceProfiler {
    /// The benchmarks to run, in their order.
    pub fn run_benchmarks(&self) -> (r: Vec<BenchmarkKind>)
        ensures
            r.deep_view() == benchmarks_for(self.config.deep_view()),
    {
        let mut out: Vec<BenchmarkKind> = Vec::new();
        assert(out.deep_view() =~= Seq::empty());
        if self.config.benchmark_iterations > 0 {
            if self.config.enable_cpu_profiling {
                out.push(BenchmarkKind::CpuIntensive);
            }
            if self.config.enable_memory_profiling {
                out.push(BenchmarkKind::MemoryAllocation);
            }
            if self.config.enable_io_profiling {
                out.push(BenchmarkKind::IoOperations);
            }
            assert(out.deep_view() =~= benchmarks_for(self.config.deep_view()));
        }
        out
    }

    /// The name a benchmark's result is filed under.
    pub fn name_of_benchmark(kind: BenchmarkKind) -> (r: String)
        ensures
            r@ == benchmark_name(kind),
    {
        match kind {
            BenchmarkKind::CpuIntensive => String::from_str("cpu_intensive"),
            BenchmarkKind::MemoryAllocation => String::from_str("memory_allocation"),
            BenchmarkKind::IoOperations => String::from_str("io_operations"),
        }
    }

    /// The work that the processor benchmark times: the squares of the
    /// numbers below one hundred thousand, summed.
    pub fn run_cpu_benchmark() -> (r: u64)
        ensures
            r == sum_of_squares(100_000),
    {
        let mut result: u64 = 0;
        let mut i: u64 = 0;
        while i < 100_000
            invariant
                i <= 100_000,
                result == sum_of_squares(i as nat),
                result <= i * 10_000_000_000,
            decreases 100_000 - i,
        {
            assert(i * i <= 10_000_000_000) by (nonlinear_arith)
                requires
                    i < 100_000,
            ;
            result = result + i * i;
            i += 1;
        }
        result
    }

    /// The megabytes of memory in use on the host.
    pub fn collect_memory_usage(total_bytes: u64, available_bytes: u64) -> (r: u64)
        ensures
            r == in_use_mb(total_bytes, available_bytes),
    {
        if available_bytes >= total_bytes {
            0
        } else {
            (total_bytes - available_bytes) / 1024 / 1024
        }
    }

    /// The mean CPU share over the host's processors, in millionths of a
    /// percent.
    pub fn collect_cpu_usage(samples: &Vec<u64>) -> (r: u64)
        ensures
            r == mean_of(samples@),
    {
        if samples.len() == 0 {
            return 0;
        }
        let ghost s = samples@;
        let mut total: u128 = 0;
        let mut i: usize = 0;
        while i < samples.len()
            invariant
                i <= samples.len(),
                s == samples@,
                total == total_of(s.take(i as int)),
                total <= i * 0xffff_ffff_ffff_ffff,
            decreases samples.len() - i,
        {
            assert(s.take(i + 1).drop_last() == s.take(i as int));
            assert(i * 0xffff_ffff_ffff_ffff + 0xffff_ffff_ffff_ffff <= 0xffff_ffff_ffff_ffff
                * 0x1_0000_0000_0000_0000) by (nonlinear_arith)
                requires
                    i <= 0xffff_ffff_ffff_ffff,
            ;
            total = total + samples[i] as u128;
            i += 1;
        }
        assert(s.take(samples.len() as int) == s);
        let n: u128 = samples.len() as u128;
        assert(total / n <= 0xffff_ffff_ffff_ffff) by (nonlinear_arith)
            requires
                total <= n * 0xffff_ffff_ffff_ffff,
                n > 0,
        ;
        (total / n) as u64
    }

    /// What the observer reports for a run.
    pub fn collect_metrics(&self, execution_time_ms: u64, usage: &ResourceUsage, benchmarks: Vec<BenchmarkResult>) -> (r:
        PerformanceMetrics)
        ensures
            r.deep_view() == metrics_for(*usage, execution_time_ms, benchmarks.deep_view()),
    {
        let profiling_data = self.collect_profiling_data(usage, execution_time_ms);
        let bottlenecks = self.identify_bottlenecks(&profiling_data);
        let recommendations = self.generate_recommendations(&profiling_data, &bottlenecks);
        PerformanceMetrics {
            execution_time_ms: execution_time_ms,
            cpu_usage_percent: usage.cpu_usage_percent,
            memory_usage_mb: usage.memory_usage_mb,
            peak_memory_mb: usage.memory_usage_mb,
            disk_io_mb: usage.disk_usage_mb,
            network_io_mb: usage.network_io_bytes / 1_048_576,
            context_switches: 0,
            page_faults: 0,
            cache_misses: 0,
            benchmarks: benchmarks,
            profiling_data: profiling_data,
            bottlenecks: bottlenecks,
            recommendations: recommendations,
        }
    }
}

impl Default for PerformanceMetrics {
    fn default() -> (r: Self)
        ensures
            r.deep_view() == no_metrics(),
    {
        let profiler = PerformanceProfiler {
            config: PerformanceConfig {
                enable_cpu_profiling: false,
                enable_memory_profiling: false,
                enable_io_profiling: false,
                benchmark_iterations: 0,
                thresholds: crate::PerformanceThresholds {
                    max_execution_time_ms: 0,
                    max_memory_usage_mb: 0,
                    max_cpu_usage_percent: 0,
                    max_io_ops_per_second: 0,
                },
            },
        };
        let usage = ResourceUsage::default();
        let benchmarks: Vec<BenchmarkResult> = Vec::new();
        assert(benchmarks.deep_view() =~= Seq::empty());
        let r = profiler.collect_metrics(0, &usage, benchmarks);
        assert(r.deep_view().bottlenecks =~= Seq::empty());
        assert(r.deep_view().recommendations =~= Seq::empty());
        r
    }
}

} // verus!
