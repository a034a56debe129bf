//! The fuzz driver: input generators, crash classification and
//! deduplication, coverage tracking and the bookkeeping of a campaign.

use std::collections::VecDeque;
use vstd::prelude::*;

use crate::outside::{
    edit_distance, find_pattern, levenshtein_distance, lossy_text, new_id, random_in,
    regex_replace_all, replace_pattern, utf8_lossy,
};
use crate::text::{
    decimal, decimal_chars, decimal_digits, from_chars, join2, replace_all, replaced, same_text,
    signed_decimal, signed_decimal_digits, split, split_on, to_chars,
};
use crate::{FuzzingConfig, FuzzingConfigModel, FuzzingStrategy};

verus! {

/// The kind of a crash.
#[derive(Debug, PartialEq, Eq)]
pub enum CrashType {
    SegmentationFault,
    MemoryCorruption,
    StackOverflow,
    HeapOverflow,
    IntegerOverflow,
    DivisionByZero,
    NullPointerDereference,
    AssertionFailure,
    Panic,
    Timeout,
    OutOfMemory,
    Other(String),
}

/// The mathematical value of a [`CrashType`].
pub ghost enum CrashTypeModel {
    SegmentationFault,
    MemoryCorruption,
    StackOverflow,
    HeapOverflow,
    IntegerOverflow,
    DivisionByZero,
    NullPointerDereference,
    AssertionFailure,
    Panic,
    Timeout,
    OutOfMemory,
    Other(Seq<char>),
}

impl DeepView for CrashType {
    type V = CrashTypeModel;

    open spec fn deep_view(&self) -> CrashTypeModel {
        match self {
            CrashType::SegmentationFault => CrashTypeModel::SegmentationFault,
            CrashType::MemoryCorruption => CrashTypeModel::MemoryCorruption,
            CrashType::StackOverflow => CrashTypeModel::StackOverflow,
            CrashType::HeapOverflow => CrashTypeModel::HeapOverflow,
            CrashType::IntegerOverflow => CrashTypeModel::IntegerOverflow,
            CrashType::DivisionByZero => CrashTypeModel::DivisionByZero,
            CrashType::NullPointerDereference => CrashTypeModel::NullPointerDereference,
            CrashType::AssertionFailure => CrashTypeModel::AssertionFailure,
            CrashType::Panic => CrashTypeModel::Panic,
            CrashType::Timeout => CrashTypeModel::Timeout,
            CrashType::OutOfMemory => CrashTypeModel::OutOfMemory,
            CrashType::Other(s) => CrashTypeModel::Other(s@),
        }
    }
}

impl Clone for CrashType {
    fn clone(&self) -> (r: Self)
        ensures
            r.deep_view() == self.deep_view(),
    {
        match self {
            CrashType::SegmentationFault => CrashType::SegmentationFault,
            CrashType::MemoryCorruption => CrashType::MemoryCorruption,
            CrashType::StackOverflow => CrashType::StackOverflow,
            CrashType::HeapOverflow => CrashType::HeapOverflow,
            CrashType::IntegerOverflow => CrashType::IntegerOverflow,
            CrashType::DivisionByZero => CrashType::DivisionByZero,
            CrashType::NullPointerDereference => CrashType::NullPointerDereference,
            CrashType::AssertionFailure => CrashType::AssertionFailure,
            CrashType::Panic => CrashType::Panic,
            CrashType::Timeout => CrashType::Timeout,
            CrashType::OutOfMemory => CrashType::OutOfMemory,
            CrashType::Other(s) => CrashType::Other(s.clone()),
        }
    }
}

/// How grave a crash is.
#[derive(Debug, Clone, Copy, PartialEq, Eq, Structural)]
pub enum CrashSeverity {
    Critical,
    High,
    Medium,
    Low,
}

impl DeepView for CrashSeverity {
    type V = CrashSeverity;

    open spec fn deep_view(&self) -> CrashSeverity {
        *self
    }
}

/// The kind of performance anomaly a fuzz input triggered.
#[derive(Debug, Clone, Copy, PartialEq, Eq, Structural)]
pub enum PerformanceAnomalyType {
    ExcessiveExecutionTime,
    MemoryLeak,
    CpuSpike,
    InfiniteLoop,
    ResourceExhaustion,
}

impl DeepView for PerformanceAnomalyType {
    type V = PerformanceAnomalyType;

    open spec fn deep_view(&self) -> PerformanceAnomalyType {
        *self
    }
}

/// One crash of the target.
#[derive(Debug, PartialEq, Eq)]
pub struct CrashReport {
    pub id: String,
    pub crash_type: CrashType,
    pub severity: CrashSeverity,
    pub reproducer_input: String,
    pub stack_trace: String,
    pub error_message: String,
    /// Milliseconds since the Unix epoch.
    pub timestamp: i64,
    pub crash_location: Option<String>,
}

/// The mathematical value of a [`CrashReport`].
pub ghost struct CrashReportModel {
    pub id: Seq<char>,
    pub crash_type: CrashTypeModel,
    pub severity: CrashSeverity,
    pub reproducer_input: Seq<char>,
    pub stack_trace: Seq<char>,
    pub error_message: Seq<char>,
    pub timestamp: i64,
    pub crash_location: Option<Seq<char>>,
}

impl DeepView for CrashReport {
    type V = CrashReportModel;

    open spec fn deep_view(&self) -> CrashReportModel {
        CrashReportModel {
            id: self.id.deep_view(),
            crash_type: self.crash_type.deep_view(),
            severity: self.severity.deep_view(),
            reproducer_input: self.reproducer_input.deep_view(),
            stack_trace: self.stack_trace.deep_view(),
            error_message: self.error_message.deep_view(),
            timestamp: self.timestamp.deep_view(),
            crash_location: self.crash_location.deep_view(),
        }
    }
}

impl Clone for CrashReport {
    fn clone(&self) -> (r: Self)
        ensures
            r.deep_view() == self.deep_view(),
    {
        let r = CrashReport {
            id: self.id.clone(),
            crash_type: self.crash_type.clone(),
            severity: self.severity,
            reproducer_input: self.reproducer_input.clone(),
            stack_trace: self.stack_trace.clone(),
            error_message: self.error_message.clone(),
            timestamp: self.timestamp,
            crash_location: self.crash_location.clone(),
        };
        r
    }
}

/// An input that reached behaviour not seen before.
#[derive(Debug, PartialEq, Eq)]
pub struct InterestingInput {
    pub input_data: String,
    pub execution_path: String,
    /// In millionths of a path.
    pub coverage_increase: u64,
    /// In milliseconds.
    pub execution_time: u64,
    /// In bytes.
    pub memory_usage: u64,
    /// In millionths, between 0 and 1 000 000.
    pub uniqueness_score: u64,
}

/// The mathematical value of a [`InterestingInput`].
pub ghost struct InterestingInputModel {
    pub input_data: Seq<char>,
    pub execution_path: Seq<char>,
    pub coverage_increase: u64,
    pub execution_time: u64,
    pub memory_usage: u64,
    pub uniqueness_score: u64,
}

impl DeepView for InterestingInput {
    type V = InterestingInputModel;

    open spec fn deep_view(&self) -> InterestingInputModel {
        InterestingInputModel {
            input_data: self.input_data.deep_view(),
            execution_path: self.execution_path.deep_view(),
            coverage_increase: self.coverage_increase.deep_view(),
            execution_time: self.execution_time.deep_view(),
            memory_usage: self.memory_usage.deep_view(),
            uniqueness_score: self.uniqueness_score.deep_view(),
        }
    }
}

impl Clone for InterestingInput {
    fn clone(&self) -> (r: Self)
        ensures
            r.deep_view() == self.deep_view(),
    {
        let r = InterestingInput {
            input_data: self.input_data.clone(),
            execution_path: self.execution_path.clone(),
            coverage_increase: self.coverage_increase,
            execution_time: self.execution_time,
            memory_usage: self.memory_usage,
            uniqueness_score: self.uniqueness_score,
        };
        r
    }
}

/// How often one execution path was taken.
#[derive(Debug, PartialEq, Eq)]
pub struct PathCount {
    pub path: String,
    pub count: u32,
}

/// The mathematical value of a [`PathCount`].
pub ghost struct PathCountModel {
    pub path: Seq<char>,
    pub count: u32,
}

impl DeepView for PathCount {
    type V = PathCountModel;

    open spec fn deep_view(&self) -> PathCountModel {
        PathCountModel {
            path: self.path.deep_view(),
            count: self.count.deep_view(),
        }
    }
}

impl Clone for PathCount {
    fn clone(&self) -> (r: Self)
        ensures
            r.deep_view() == self.deep_view(),
    {
        let r = PathCount {
            path: self.path.clone(),
            count: self.count,
        };
        r
    }
}

/// The coverage reached by a campaign.
#[derive(Debug, PartialEq, Eq)]
pub struct CoverageInfo {
    pub lines_covered: u32,
    pub total_lines: u32,
    pub functions_covered: u32,
    pub total_functions: u32,
    pub branches_covered: u32,
    pub total_branches: u32,
    pub coverage_map: Vec<PathCount>,
}

/// The mathematical value of a [`CoverageInfo`].
pub ghost struct CoverageInfoModel {
    pub lines_covered: u32,
    pub total_lines: u32,
    pub functions_covered: u32,
    pub total_functions: u32,
    pub branches_covered: u32,
    pub total_branches: u32,
    pub coverage_map: Seq<PathCountModel>,
}

impl DeepView for CoverageInfo {
    type V = CoverageInfoModel;

    open spec fn deep_view(&self) -> CoverageInfoModel {
        CoverageInfoModel {
            lines_covered: self.lines_covered.deep_view(),
            total_lines: self.total_lines.deep_view(),
            functions_covered: self.functions_covered.deep_view(),
            total_functions: self.total_functions.deep_view(),
            branches_covered: self.branches_covered.deep_view(),
            total_branches: self.total_branches.deep_view(),
            coverage_map: self.coverage_map.deep_view(),
        }
    }
}

impl Clone for CoverageInfo {
    fn clone(&self) -> (r: Self)
        ensures
            r.deep_view() == self.deep_view(),
    {
        let r = CoverageInfo {
            lines_covered: self.lines_covered,
            total_lines: self.total_lines,
            functions_covered: self.functions_covered,
            total_functions: self.total_functions,
            branches_covered: self.branches_covered,
            total_branches: self.total_branches,
            coverage_map: self.coverage_map.clone(),
        };
        assert(r.coverage_map.deep_view() =~= self.coverage_map.deep_view());
        r
    }
}

/// A run that was much slower or larger than the baseline.
#[derive(Debug, PartialEq, Eq)]
pub struct PerformanceAnomaly {
    pub anomaly_type: PerformanceAnomalyType,
    pub input_trigger: String,
    /// Milliseconds for time, bytes for memory.
    pub baseline_performance: u64,
    /// Milliseconds for time, bytes for memory.
    pub anomaly_performance: u64,
    /// In millionths, between 0 and 1 000 000.
    pub severity: u64,
    pub description: String,
}

/// The mathematical value of a [`PerformanceAnomaly`].
pub ghost struct PerformanceAnomalyModel {
    pub anomaly_type: PerformanceAnomalyType,
    pub input_trigger: Seq<char>,
    pub baseline_performance: u64,
    pub anomaly_performance: u64,
    pub severity: u64,
    pub description: Seq<char>,
}

impl DeepView for PerformanceAnomaly {
    type V = PerformanceAnomalyModel;

    open spec fn deep_view(&self) -> PerformanceAnomalyModel {
        PerformanceAnomalyModel {
            anomaly_type: self.anomaly_type.deep_view(),
            input_trigger: self.input_trigger.deep_view(),
            baseline_performance: self.baseline_performance.deep_view(),
            anomaly_performance: self.anomaly_performance.deep_view(),
            severity: self.severity.deep_view(),
            description: self.description.deep_view(),
        }
    }
}

impl Clone for PerformanceAnomaly {
    fn clone(&self) -> (r: Self)
        ensures
            r.deep_view() == self.deep_view(),
    {
        let r = PerformanceAnomaly {
            anomaly_type: self.anomaly_type,
            input_trigger: self.input_trigger.clone(),
            baseline_performance: self.baseline_performance,
            anomaly_performance: self.anomaly_performance,
            severity: self.severity,
            description: self.description.clone(),
        };
        r
    }
}

/// The outcome of a fuzz campaign.
#[derive(Debug, PartialEq, Eq)]
pub struct FuzzingResult {
    pub total_executions: u32,
    pub crashes_found: u32,
    pub unique_crashes: u32,
    /// In millionths of a percent.
    pub coverage_percentage: u64,
    /// In milliseconds.
    pub execution_time: u64,
    pub crashes: Vec<CrashReport>,
    pub interesting_inputs: Vec<InterestingInput>,
    pub coverage_info: CoverageInfo,
    pub performance_anomalies: Vec<PerformanceAnomaly>,
}

/// The mathematical value of a [`FuzzingResult`].
pub ghost struct FuzzingResultModel {
    pub total_executions: u32,
    pub crashes_found: u32,
    pub unique_crashes: u32,
    pub coverage_percentage: u64,
    pub execution_time: u64,
    pub crashes: Seq<CrashReportModel>,
    pub interesting_inputs: Seq<InterestingInputModel>,
    pub coverage_info: CoverageInfoModel,
    pub performance_anomalies: Seq<PerformanceAnomalyModel>,
}

impl DeepView for FuzzingResult {
    type V = FuzzingResultModel;

    open spec fn deep_view(&self) -> FuzzingResultModel {
        FuzzingResultModel {
            total_executions: self.total_executions.deep_view(),
            crashes_found: self.crashes_found.deep_view(),
            unique_crashes: self.unique_crashes.deep_view(),
            coverage_percentage: self.coverage_percentage.deep_view(),
            execution_time: self.execution_time.deep_view(),
            crashes: self.crashes.deep_view(),
            interesting_inputs: self.interesting_inputs.deep_view(),
            coverage_info: self.coverage_info.deep_view(),
            performance_anomalies: self.performance_anomalies.deep_view(),
        }
    }
}

impl Clone for FuzzingResult {
    fn clone(&self) -> (r: Self)
        ensures
            r.deep_view() == self.deep_view(),
    {
        let r = FuzzingResult {
            total_executions: self.total_executions,
            crashes_found: self.crashes_found,
            unique_crashes: self.unique_crashes,
            coverage_percentage: self.coverage_percentage,
            execution_time: self.execution_time,
            crashes: self.crashes.clone(),
            interesting_inputs: self.interesting_inputs.clone(),
            coverage_info: self.coverage_info.clone(),
            performance_anomalies: self.performance_anomalies.clone(),
        };
        assert(r.crashes.deep_view() =~= self.crashes.deep_view());
        assert(r.interesting_inputs.deep_view() =~= self.interesting_inputs.deep_view());
        assert(r.performance_anomalies.deep_view() =~= self.performance_anomalies.deep_view());
        r
    }
}

/// What one run of the target on one input showed.
#[derive(Debug, PartialEq, Eq)]
pub struct ExecutionResult {
    pub exit_code: i32,
    /// In milliseconds.
    pub execution_time: u64,
    /// Resident memory in bytes.
    pub memory_usage: u64,
    /// The coverage key of the run.
    pub execution_path: String,
    pub stdout: String,
    pub stderr: String,
}

/// The mathematical value of a [`ExecutionResult`].
pub ghost struct ExecutionResultModel {
    pub exit_code: i32,
    pub execution_time: u64,
    pub memory_usage: u64,
    pub execution_path: Seq<char>,
    pub stdout: Seq<char>,
    pub stderr: Seq<char>,
}

impl DeepView for ExecutionResult {
    type V = ExecutionResultModel;

    open spec fn deep_view(&self) -> ExecutionResultModel {
        ExecutionResultModel {
            exit_code: self.exit_code.deep_view(),
            execution_time: self.execution_time.deep_view(),
            memory_usage: self.memory_usage.deep_view(),
            execution_path: self.execution_path.deep_view(),
            stdout: self.stdout.deep_view(),
            stderr: self.stderr.deep_view(),
        }
    }
}

impl Clone for ExecutionResult {
    fn clone(&self) -> (r: Self)
        ensures
            r.deep_view() == self.deep_view(),
    {
        let r = ExecutionResult {
            exit_code: self.exit_code,
            execution_time: self.execution_time,
            memory_usage: self.memory_usage,
            execution_path: self.execution_path.clone(),
            stdout: self.stdout.clone(),
            stderr: self.stderr.clone(),
        };
        r
    }
}

/// Produces texts of random bytes.
#[derive(Debug, PartialEq, Eq)]
pub struct RandomInputGenerator {
    pub max_length: usize,
}

/// The mathematical value of a [`RandomInputGenerator`].
pub ghost struct RandomInputGeneratorModel {
    pub max_length: usize,
}

impl DeepView for RandomInputGenerator {
    type V = RandomInputGeneratorModel;

    open spec fn deep_view(&self) -> RandomInputGeneratorModel {
        RandomInputGeneratorModel {
            max_length: self.max_length.deep_view(),
        }
    }
}

impl Clone for RandomInputGenerator {
    fn clone(&self) -> (r: Self)
        ensures
            r.deep_view() == self.deep_view(),
    {
        let r = RandomInputGenerator {
            max_length: self.max_length,
        };
        r
    }
}

/// Fills templates with a random integer.
#[derive(Debug, PartialEq, Eq)]
pub struct StructuredInputGenerator {
    pub templates: Vec<String>,
}

/// The mathematical value of a [`StructuredInputGenerator`].
pub ghost struct StructuredInputGeneratorModel {
    pub templates: Seq<Seq<char>>,
}

impl DeepView for StructuredInputGenerator {
    type V = StructuredInputGeneratorModel;

    open spec fn deep_view(&self) -> StructuredInputGeneratorModel {
        StructuredInputGeneratorModel {
            templates: self.templates.deep_view(),
        }
    }
}

impl Clone for StructuredInputGenerator {
    fn clone(&self) -> (r: Self)
        ensures
            r.deep_view() == self.deep_view(),
    {
        let r = StructuredInputGenerator {
            templates: self.templates.clone(),
        };
        assert(r.templates.deep_view() =~= self.templates.deep_view());
        r
    }
}

/// The productions of one symbol.
#[derive(Debug, PartialEq, Eq)]
pub struct GrammarRule {
    pub symbol: String,
    pub productions: Vec<String>,
}

/// The mathematical value of a [`GrammarRule`].
pub ghost struct GrammarRuleModel {
    pub symbol: Seq<char>,
    pub productions: Seq<Seq<char>>,
}

impl DeepView for GrammarRule {
    type V = GrammarRuleModel;

    open spec fn deep_view(&self) -> GrammarRuleModel {
        GrammarRuleModel {
            symbol: self.symbol.deep_view(),
            productions: self.productions.deep_view(),
        }
    }
}

impl Clone for GrammarRule {
    fn clone(&self) -> (r: Self)
        ensures
            r.deep_view() == self.deep_view(),
    {
        let r = GrammarRule {
            symbol: self.symbol.clone(),
            productions: self.productions.clone(),
        };
        assert(r.productions.deep_view() =~= self.productions.deep_view());
        r
    }
}

/// Expands a start symbol against a production table.
#[derive(Debug, PartialEq, Eq)]
pub struct GrammarInputGenerator {
    pub grammar_rules: Vec<GrammarRule>,
}

/// The mathematical value of a [`GrammarInputGenerator`].
pub ghost struct GrammarInputGeneratorModel {
    pub grammar_rules: Seq<GrammarRuleModel>,
}

impl DeepView for GrammarInputGenerator {
    type V = GrammarInputGeneratorModel;

    open spec fn deep_view(&self) -> GrammarInputGeneratorModel {
        GrammarInputGeneratorModel {
            grammar_rules: self.grammar_rules.deep_view(),
        }
    }
}

impl Clone for GrammarInputGenerator {
    fn clone(&self) -> (r: Self)
        ensures
            r.deep_view() == self.deep_view(),
    {
        let r = GrammarInputGenerator {
            grammar_rules: self.grammar_rules.clone(),
        };
        assert(r.grammar_rules.deep_view() =~= self.grammar_rules.deep_view());
        r
    }
}

/// Mutates the entries of a seed corpus.
#[derive(Debug, PartialEq, Eq)]
pub struct MutationInputGenerator {
    pub seed_inputs: Vec<String>,
}

/// The mathematical value of a [`MutationInputGenerator`].
pub ghost struct MutationInputGeneratorModel {
    pub seed_inputs: Seq<Seq<char>>,
}

impl DeepView for MutationInputGenerator {
    type V = MutationInputGeneratorModel;

    open spec fn deep_view(&self) -> MutationInputGeneratorModel {
        MutationInputGeneratorModel {
            seed_inputs: self.seed_inputs.deep_view(),
        }
    }
}

impl Clone for MutationInputGenerator {
    fn clone(&self) -> (r: Self)
        ensures
            r.deep_view() == self.deep_view(),
    {
        let r = MutationInputGenerator {
            seed_inputs: self.seed_inputs.clone(),
        };
        assert(r.seed_inputs.deep_view() =~= self.seed_inputs.deep_view());
        r
    }
}

/// Counts how often each execution path was taken.
#[derive(Debug, PartialEq, Eq)]
pub struct CoverageTracker {
    pub coverage_map: Vec<PathCount>,
    /// The number of distinct paths, in millionths of a path.
    pub total_coverage: u64,
}

/// The mathematical value of a [`CoverageTracker`].
pub ghost struct CoverageTrackerModel {
    pub coverage_map: Seq<PathCountModel>,
    pub total_coverage: u64,
}

impl DeepView for CoverageTracker {
    type V = CoverageTrackerModel;

    open spec fn deep_view(&self) -> CoverageTrackerModel {
        CoverageTrackerModel {
            coverage_map: self.coverage_map.deep_view(),
            total_coverage: self.total_coverage.deep_view(),
        }
    }
}

impl Clone for CoverageTracker {
    fn clone(&self) -> (r: Self)
        ensures
            r.deep_view() == self.deep_view(),
    {
        let r = CoverageTracker {
            coverage_map: self.coverage_map.clone(),
            total_coverage: self.total_coverage,
        };
        assert(r.coverage_map.deep_view() =~= self.coverage_map.deep_view());
        r
    }
}

/// One entry of the crash classification table.
#[derive(Debug, PartialEq, Eq)]
pub struct CrashPattern {
    /// A regular expression that is searched for in the error output.
    pub pattern: String,
    pub crash_type: CrashType,
    pub severity: CrashSeverity,
}

/// The mathematical value of a [`CrashPattern`].
pub ghost struct CrashPatternModel {
    pub pattern: Seq<char>,
    pub crash_type: CrashTypeModel,
    pub severity: CrashSeverity,
}

impl DeepView for CrashPattern {
    type V = CrashPatternModel;

    open spec fn deep_view(&self) -> CrashPatternModel {
        CrashPatternModel {
            pattern: self.pattern.deep_view(),
            crash_type: self.crash_type.deep_view(),
            severity: self.severity.deep_view(),
        }
    }
}

impl Clone for CrashPattern {
    fn clone(&self) -> (r: Self)
        ensures
            r.deep_view() == self.deep_view(),
    {
        let r = CrashPattern {
            pattern: self.pattern.clone(),
            crash_type: self.crash_type.clone(),
            severity: self.severity,
        };
        r
    }
}

/// Classifies crashes and remembers the most recent ones.
#[derive(Debug, PartialEq, Eq)]
pub struct CrashDetector {
    pub crash_patterns: Vec<CrashPattern>,
    pub crash_history: VecDeque<CrashReport>,
}

/// The mathematical value of a [`CrashDetector`].
pub ghost struct CrashDetectorModel {
    pub crash_patterns: Seq<CrashPatternModel>,
    pub crash_history: Seq<CrashReportModel>,
}

impl DeepView for CrashDetector {
    type V = CrashDetectorModel;

    open spec fn deep_view(&self) -> CrashDetectorModel {
        CrashDetectorModel {
            crash_patterns: self.crash_patterns.deep_view(),
            crash_history: self.crash_history.deep_view(),
        }
    }
}

impl Clone for CrashDetector {
    fn clone(&self) -> (r: Self)
        ensures
            r.deep_view() == self.deep_view(),
    {
        let r = CrashDetector {
            crash_patterns: self.crash_patterns.clone(),
            crash_history: self.crash_history.clone(),
        };
        assert(r.crash_patterns.deep_view() =~= self.crash_patterns.deep_view());
        assert(r.crash_history.deep_view() =~= self.crash_history.deep_view());
        r
    }
}

/// The fuzz driver.
#[derive(Debug, PartialEq, Eq)]
pub struct FuzzingEngine {
    pub config: FuzzingConfig,
    pub input_generators: Vec<Generator>,
    pub coverage_tracker: CoverageTracker,
    pub crash_detector: CrashDetector,
}

/// The mathematical value of a [`FuzzingEngine`].
pub ghost struct FuzzingEngineModel {
    pub config: FuzzingConfigModel,
    pub input_generators: Seq<GeneratorModel>,
    pub coverage_tracker: CoverageTrackerModel,
    pub crash_detector: CrashDetectorModel,
}

impl DeepView for FuzzingEngine {
    type V = FuzzingEngineModel;

    open spec fn deep_view(&self) -> FuzzingEngineModel {
        FuzzingEngineModel {
            config: self.config.deep_view(),
            input_generators: self.input_generators.deep_view(),
            coverage_tracker: self.coverage_tracker.deep_view(),
            crash_detector: self.crash_detector.deep_view(),
        }
    }
}

impl Clone for FuzzingEngine {
    fn clone(&self) -> (r: Self)
        ensures
            r.deep_view() == self.deep_view(),
    {
        let r = FuzzingEngine {
            config: self.config.clone(),
            input_generators: self.input_generators.clone(),
            coverage_tracker: self.coverage_tracker.clone(),
            crash_detector: self.crash_detector.clone(),
        };
        assert(r.input_generators.deep_view() =~= self.input_generators.deep_view());
        r
    }
}

/// One of the four input generators, chosen by the configured strategy.
#[derive(Debug, PartialEq, Eq)]
pub enum Generator {
    Random(RandomInputGenerator),
    Structured(StructuredInputGenerator),
    Grammar(GrammarInputGenerator),
    Mutation(MutationInputGenerator),
}

/// The mathematical value of a [`Generator`].
pub ghost enum GeneratorModel {
    Random(RandomInputGeneratorModel),
    Structured(StructuredInputGeneratorModel),
    Grammar(GrammarInputGeneratorModel),
    Mutation(MutationInputGeneratorModel),
}

impl DeepView for Generator {
    type V = GeneratorModel;

    open spec fn deep_view(&self) -> GeneratorModel {
        match self {
            Generator::Random(g) => GeneratorModel::Random(g.deep_view()),
            Generator::Structured(g) => GeneratorModel::Structured(g.deep_view()),
            Generator::Grammar(g) => GeneratorModel::Grammar(g.deep_view()),
            Generator::Mutation(g) => GeneratorModel::Mutation(g.deep_view()),
        }
    }
}

impl Clone for Generator {
    fn clone(&self) -> (r: Self)
        ensures
            r.deep_view() == self.deep_view(),
    {
        match self {
            Generator::Random(g) => Generator::Random(g.clone()),
            Generator::Structured(g) => Generator::Structured(g.clone()),
            Generator::Grammar(g) => Generator::Grammar(g.clone()),
            Generator::Mutation(g) => Generator::Mutation(g.clone()),
        }
    }
}

/// The name a kind of crash is written with.
pub open spec fn crash_label(kind: CrashTypeModel) -> Seq<char> {
    match kind {
        CrashTypeModel::SegmentationFault => "SegmentationFault"@,
        CrashTypeModel::MemoryCorruption => "MemoryCorruption"@,
        CrashTypeModel::StackOverflow => "StackOverflow"@,
        CrashTypeModel::HeapOverflow => "HeapOverflow"@,
        CrashTypeModel::IntegerOverflow => "IntegerOverflow"@,
        CrashTypeModel::DivisionByZero => "DivisionByZero"@,
        CrashTypeModel::NullPointerDereference => "NullPointerDereference"@,
        CrashTypeModel::AssertionFailure => "AssertionFailure"@,
        CrashTypeModel::Panic => "Panic"@,
        CrashTypeModel::Timeout => "Timeout"@,
        CrashTypeModel::OutOfMemory => "OutOfMemory"@,
        CrashTypeModel::Other(text) => "Other(\""@ + text + "\")"@,
    }
}

/// The name a kind of crash is written with.
pub fn label_of_crash(kind: &CrashType) -> (r: String)
    ensures
        r@ == crash_label(kind.deep_view()),
{
    match kind {
        CrashType::SegmentationFault => String::from_str("SegmentationFault"),
        CrashType::MemoryCorruption => String::from_str("MemoryCorruption"),
        CrashType::StackOverflow => String::from_str("StackOverflow"),
        CrashType::HeapOverflow => String::from_str("HeapOverflow"),
        CrashType::IntegerOverflow => String::from_str("IntegerOverflow"),
        CrashType::DivisionByZero => String::from_str("DivisionByZero"),
        CrashType::NullPointerDereference => String::from_str("NullPointerDereference"),
        CrashType::AssertionFailure => String::from_str("AssertionFailure"),
        CrashType::Panic => String::from_str("Panic"),
        CrashType::Timeout => String::from_str("Timeout"),
        CrashType::OutOfMemory => String::from_str("OutOfMemory"),
        CrashType::Other(text) => crate::text::join3("Other(\"", text.as_str(), "\")"),
    }
}

/// One change to a sequence of bytes.
#[derive(Debug, Clone, Copy, PartialEq, Eq, Structural)]
pub enum Mutation {
    /// Flip the bit `bit` of the byte at `index`.
    BitFlip { index: usize, bit: u8 },
    /// Put `value` in place of the byte at `index`.
    Replace { index: usize, value: u8 },
    /// Put `value` in before the byte at `index`, or at the end.
    Insert { index: usize, value: u8 },
    /// Take the byte at `index` out.
    Delete { index: usize },
}

/// Whether the mutation can be applied to the bytes: the index names a
/// byte (or, for an insertion, the end), the bit is one of eight, and a new
/// byte is below 255.
pub open spec fn mutation_fits(bytes: Seq<u8>, mutation: Mutation) -> bool {
    match mutation {
        Mutation::BitFlip { index, bit } => index < bytes.len() && bit < 8,
        Mutation::Replace { index, value } => index < bytes.len() && value < 255,
        Mutation::Insert { index, value } => index <= bytes.len() && value < 255,
        Mutation::Delete { index } => index < bytes.len(),
    }
}

/// The bytes after the mutation.
pub open spec fn mutated(bytes: Seq<u8>, mutation: Mutation) -> Seq<u8> {
    match mutation {
        Mutation::BitFlip { index, bit } => bytes.update(index as int, bytes[index as int] ^ (1u8 << bit)),
        Mutation::Replace { index, value } => bytes.update(index as int, value),
        Mutation::Insert { index, value } => bytes.insert(index as int, value),
        Mutation::Delete { index } => bytes.remove(index as int),
    }
}

/// Applies one mutation to the bytes.
pub fn apply_mutation(bytes: &mut Vec<u8>, mutation: Mutation)
    requires
        mutation_fits(old(bytes)@, mutation),
    ensures
        final(bytes)@ == mutated(old(bytes)@, mutation),
{
    match mutation {
        Mutation::BitFlip { index, bit } => {
            let flipped = bytes[index] ^ (1u8 << bit);
            bytes.set(index, flipped);
        },
        Mutation::Replace { index, value } => {
            bytes.set(index, value);
        },
        Mutation::Insert { index, value } => {
            bytes.insert(index, value);
        },
        Mutation::Delete { index } => {
            let _gone = bytes.remove(index);
        },
    }
}

/// The text whose characters are the given bytes, each taken as a code
/// point.
pub open spec fn bytes_as_text(bytes: Seq<u8>) -> Seq<char> {
    bytes.map_values(|b: u8| b as char)
}

/// The text whose characters are the given bytes.
pub fn text_of_bytes(bytes: &Vec<u8>) -> (r: String)
    ensures
        r@ == bytes_as_text(bytes@),
{
    let mut chars: Vec<char> = Vec::new();
    let mut i: usize = 0;
    while i < bytes.len()
        invariant
            i <= bytes.len(),
            chars@ == bytes_as_text(bytes@.take(i as int)),
        decreases bytes.len() - i,
    {
        chars.push(bytes[i] as char);
        assert(bytes_as_text(bytes@.take(i + 1)) =~= bytes_as_text(bytes@.take(i as int)).push(
            bytes@[i as int] as char,
        ));
        i += 1;
    }
    assert(bytes@.take(bytes.len() as int) == bytes@);
    from_chars(&chars)
}

/// A generator of test inputs. Each generator says which texts it may
/// produce; which of them a call produces is left to chance.
pub trait InputGenerator {
    /// Whether the generator is fit for use.
    spec fn wf(&self) -> bool;

    /// Whether `out` is a text that generating may produce.
    spec fn may_generate(&self, out: Seq<char>) -> bool;

    /// Whether `out` is a text that mutating `input` may produce.
    spec fn may_mutate(&self, input: Seq<char>, out: Seq<char>) -> bool;

    /// The name of the kind of generator.
    spec fn kind_name(&self) -> Seq<char>;

    /// A new input.
    fn generate_input(&self) -> (r: String)
        requires
            self.wf(),
        ensures
            self.may_generate(r@),
    ;

    /// A variation of `input`.
    fn mutate_input(&self, input: &str) -> (r: String)
        requires
            self.wf(),
        ensures
            self.may_mutate(input@, r@),
    ;

    /// The name of the kind of generator.
    fn get_generator_type(&self) -> (r: &'static str)
        ensures
            r@ == self.kind_name(),
    ;
}

/// Whether every byte is below 255.
pub open spec fn below_255(bytes: Seq<u8>) -> bool {
    forall|i: int| 0 <= i < bytes.len() ==> #[trigger] bytes[i] < 255
}

impl RandomInputGenerator {
    /// A generator of texts of up to `max_length` characters. It is fit for
    /// use when `max_length` is at least one.
    pub fn new(max_length: usize) -> (r: Self)
        ensures
            r.max_length == max_length,
    {
        RandomInputGenerator { max_length: max_length }
    }
}

impl InputGenerator for RandomInputGenerator {
    open spec fn wf(&self) -> bool {
        self.max_length >= 1
    }

    /// A text of one to `max_length` characters, each a byte below 255.
    open spec fn may_generate(&self, out: Seq<char>) -> bool {
        exists|bytes: Seq<u8>|
            1 <= bytes.len() <= self.max_length && below_255(bytes) && out == #[trigger] bytes_as_text(bytes)
    }

    /// The input decoded again after one of its bytes was replaced by a
    /// byte below 255; an empty input stays empty.
    open spec fn may_mutate(&self, input: Seq<char>, out: Seq<char>) -> bool {
        let bytes = vstd::utf8::encode_utf8(input);
        if bytes.len() == 0 {
            out == utf8_lossy(bytes)
        } else {
            exists|index: usize, value: u8|
                index < bytes.len() && value < 255 && out == utf8_lossy(
                    #[trigger] mutated(bytes, Mutation::Replace { index, value }),
                )
        }
    }

    open spec fn kind_name(&self) -> Seq<char> {
        "random"@
    }

    fn generate_input(&self) -> (r: String) {
        let length = random_in(0, self.max_length as u64) as usize + 1;
        let mut bytes: Vec<u8> = Vec::new();
        while bytes.len() < length
            invariant
                bytes.len() <= length,
                below_255(bytes@),
            decreases length - bytes.len(),
        {
            let value = random_in(0, 255) as u8;
            bytes.push(value);
        }
        text_of_bytes(&bytes)
    }

    fn mutate_input(&self, input: &str) -> (r: String) {
        let mut bytes = input.as_bytes_vec();
        if bytes.len() > 0 {
            let index = random_in(0, bytes.len() as u64) as usize;
            let value = random_in(0, 255) as u8;
            apply_mutation(&mut bytes, Mutation::Replace { index, value });
        }
        lossy_text(&bytes)
    }

    fn get_generator_type(&self) -> (r: &'static str) {
        "random"
    }
}

/// The seed corpus a mutation generator starts with.
pub open spec fn default_seeds() -> Seq<Seq<char>> {
    seq!["hello world"@, "123456"@, "{\"test\": true}"@, "function test() { return 42; }"@]
}

/// Whether `out` is `input` decoded again after one fitting mutation of its
/// bytes; an empty input is left as it is.
pub open spec fn one_mutation_away(input: Seq<char>, out: Seq<char>) -> bool {
    let bytes = vstd::utf8::encode_utf8(input);
    if bytes.len() == 0 {
        out == input
    } else {
        exists|mutation: Mutation|
            mutation_fits(bytes, mutation) && out == utf8_lossy(#[trigger] mutated(bytes, mutation))
    }
}

impl MutationInputGenerator {
    /// A generator with the default seed corpus.
    pub fn new() -> (r: Self)
        ensures
            r.seed_inputs.deep_view() == default_seeds(),
            r.wf(),
    {
        let mut seeds: Vec<String> = Vec::new();
        seeds.push(String::from_str("hello world"));
        seeds.push(String::from_str("123456"));
        seeds.push(String::from_str("{\"test\": true}"));
        seeds.push(String::from_str("function test() { return 42; }"));
        assert(seeds.deep_view() =~= default_seeds());
        MutationInputGenerator { seed_inputs: seeds }
    }
}

impl InputGenerator for MutationInputGenerator {
    open spec fn wf(&self) -> bool {
        self.seed_inputs.len() >= 1
    }

    /// One of the seeds after one mutation.
    open spec fn may_generate(&self, out: Seq<char>) -> bool {
        exists|k: int| 0 <= k < self.seed_inputs.len() && one_mutation_away(#[trigger] self.seed_inputs[k]@, out)
    }

    /// The input after one mutation: a bit flipped, a byte replaced, a byte
    /// put in or a byte taken out.
    open spec fn may_mutate(&self, input: Seq<char>, out: Seq<char>) -> bool {
        one_mutation_away(input, out)
    }

    open spec fn kind_name(&self) -> Seq<char> {
        "mutation"@
    }

    fn generate_input(&self) -> (r: String) {
        let k = random_in(0, self.seed_inputs.len() as u64) as usize;
        let r = self.mutate_input(self.seed_inputs[k].as_str());
        assert(one_mutation_away(self.seed_inputs[k as int]@, r@));
        r
    }

    fn mutate_input(&self, input: &str) -> (r: String) {
        let mut bytes = input.as_bytes_vec();
        if bytes.len() == 0 {
            return String::from_str(input);
        }
        let choice = random_in(0, 4);
        let mutation = if choice == 0 {
            Mutation::BitFlip {
                index: random_in(0, bytes.len() as u64) as usize,
                bit: random_in(0, 8) as u8,
            }
        } else if choice == 1 {
            Mutation::Replace {
                index: random_in(0, bytes.len() as u64) as usize,
                value: random_in(0, 255) as u8,
            }
        } else if choice == 2 {
            Mutation::Insert {
                index: if bytes.len() as u64 == u64::MAX {
                    random_in(0, bytes.len() as u64) as usize
                } else {
                    random_in(0, bytes.len() as u64 + 1) as usize
                },
                value: random_in(0, 255) as u8,
            }
        } else {
            Mutation::Delete { index: random_in(0, bytes.len() as u64) as usize }
        };
        let ghost before = bytes@;
        apply_mutation(&mut bytes, mutation);
        let r = lossy_text(&bytes);
        assert(mutation_fits(before, mutation) && r@ == utf8_lossy(mutated(before, mutation)));
        r
    }

    fn get_generator_type(&self) -> (r: &'static str) {
        "mutation"
    }
}

/// The templates a structured generator starts with.
pub open spec fn default_templates() -> Seq<Seq<char>> {
    seq![
        "{{\"key\": \"value\"}}"@,
        "{{\"number\": {}}}"@,
        "{{\"array\": [1, 2, 3]}}"@,
        "{{\"nested\": {{\"inner\": \"value\"}}}}"@,
    ]
}

/// The template with `value` in decimal in place of every `{}`.
pub open spec fn filled(template: Seq<char>, value: nat) -> Seq<char> {
    replaced(template, "{}"@, decimal_digits(value))
}

/// The text with `value` in decimal in place of every run of digits; the
/// text as it is where the search for digits cannot be done.
pub open spec fn renumbered(text: Seq<char>, value: nat) -> Seq<char> {
    match regex_replace_all("\\d+"@, text, decimal_digits(value)) {
        Some(rewritten) => rewritten,
        None => text,
    }
}

/// Fills a template with a number.
pub fn fill_template(template: &str, value: u64) -> (r: String)
    ensures
        r@ == filled(template@, value as nat),
{
    let text = to_chars(template);
    let mut hole: Vec<char> = Vec::new();
    hole.push('{');
    hole.push('}');
    proof {
        reveal_strlit("{}");
        assert(hole@ =~= "{}"@);
    }
    let digits = decimal_chars(value);
    let out = replace_all(&text, &hole, &digits);
    from_chars(&out)
}

/// Puts a number in place of every run of digits in a text.
pub fn renumber(text: &str, value: u64) -> (r: String)
    ensures
        r@ == renumbered(text@, value as nat),
{
    let digits = decimal(value);
    match replace_pattern("\\d+", text, digits.as_str()) {
        Some(rewritten) => rewritten,
        None => String::from_str(text),
    }
}

impl StructuredInputGenerator {
    /// A generator with the default templates.
    pub fn new() -> (r: Self)
        ensures
            r.templates.deep_view() == default_templates(),
            r.wf(),
    {
        let mut templates: Vec<String> = Vec::new();
        templates.push(String::from_str("{{\"key\": \"value\"}}"));
        templates.push(String::from_str("{{\"number\": {}}}"));
        templates.push(String::from_str("{{\"array\": [1, 2, 3]}}"));
        templates.push(String::from_str("{{\"nested\": {{\"inner\": \"value\"}}}}"));
        assert(templates.deep_view() =~= default_templates());
        StructuredInputGenerator { templates: templates }
    }
}

impl InputGenerator for StructuredInputGenerator {
    open spec fn wf(&self) -> bool {
        self.templates.len() >= 1
    }

    /// One of the templates, filled with a number from 1 to 999.
    open spec fn may_generate(&self, out: Seq<char>) -> bool {
        exists|k: int, value: nat|
            0 <= k < self.templates.len() && 1 <= value < 1000 && out == #[trigger] filled(
                self.templates[k]@,
                value,
            )
    }

    /// The input with a number from 1 to 999 in place of every run of
    /// digits.
    open spec fn may_mutate(&self, input: Seq<char>, out: Seq<char>) -> bool {
        exists|value: nat| 1 <= value < 1000 && out == #[trigger] renumbered(input, value)
    }

    open spec fn kind_name(&self) -> Seq<char> {
        "structured"@
    }

    fn generate_input(&self) -> (r: String) {
        let k = random_in(0, self.templates.len() as u64) as usize;
        let value = random_in(1, 1000);
        let r = fill_template(self.templates[k].as_str(), value);
        assert(r@ == filled(self.templates[k as int]@, value as nat));
        r
    }

    fn mutate_input(&self, input: &str) -> (r: String) {
        let value = random_in(1, 1000);
        let r = renumber(input, value);
        assert(r@ == renumbered(input@, value as nat));
        r
    }

    fn get_generator_type(&self) -> (r: &'static str) {
        "structured"
    }
}

/// The position of the first rule for `symbol`, or the number of rules when
/// there is none.
pub open spec fn rule_index(rules: Seq<GrammarRuleModel>, symbol: Seq<char>) -> int
    decreases rules.len(),
{
    if rules.len() == 0 {
        0
    } else if rules[0].symbol == symbol {
        0
    } else {
        1 + rule_index(rules.subrange(1, rules.len() as int), symbol)
    }
}

/// Whether `symbol` has a rule.
pub open spec fn is_symbol(rules: Seq<GrammarRuleModel>, symbol: Seq<char>) -> bool {
    rule_index(rules, symbol) < rules.len()
}

/// How many levels of expansion are left at `depth`.
pub open spec fn levels_left(depth: nat) -> nat {
    if depth > 10 {
        0
    } else {
        (11 - depth) as nat
    }
}

/// Whether `out` can be derived from `symbol` at the given depth. Past the
/// depth of ten the derivation ends with the terminal `1`. A text without a
/// rule stands for itself. A symbol is replaced by one of its productions;
/// the production is cut at its spaces, and each piece is derived in turn,
/// one level deeper, and written without the spaces.
pub open spec fn expands_to(rules: Seq<GrammarRuleModel>, symbol: Seq<char>, depth: nat, out: Seq<char>) -> bool
    decreases levels_left(depth), 1nat, 0nat,
{
    if depth > 10 {
        out == "1"@
    } else if !is_symbol(rules, symbol) {
        out == symbol
    } else {
        let productions = rules[rule_index(rules, symbol)].productions;
        exists|k: int|
            0 <= k < productions.len() && pieces_expand_to(
                rules,
                split(#[trigger] productions[k], ' '),
                depth,
                out,
            )
    }
}

/// One text written after the other.
pub open spec fn glued(head: Seq<char>, tail: Seq<char>) -> Seq<char> {
    head + tail
}

/// Whether `out` is made of derivations of the pieces, one after the other.
pub open spec fn pieces_expand_to(rules: Seq<GrammarRuleModel>, pieces: Seq<Seq<char>>, depth: nat, out: Seq<char>) -> bool
    decreases levels_left(depth), 0nat, pieces.len(),
{
    if depth > 10 {
        false
    } else if pieces.len() == 0 {
        out == Seq::<char>::empty()
    } else {
        exists|head: Seq<char>, tail: Seq<char>|
            out == #[trigger] glued(head, tail) && pieces_expand_to(rules, pieces.drop_last(), depth, head)
                && piece_expands_to(rules, pieces.last(), depth, tail)
    }
}

/// Whether `out` is a derivation of one piece of a production: of the
/// symbol it names, one level deeper, or else the piece itself.
pub open spec fn piece_expands_to(rules: Seq<GrammarRuleModel>, piece: Seq<char>, depth: nat, out: Seq<char>) -> bool
    decreases levels_left(depth), 0nat, 0nat,
{
    if depth > 10 {
        false
    } else if is_symbol(rules, piece) {
        expands_to(rules, piece, depth + 1, out)
    } else {
        out == piece
    }
}

/// The rules a grammar generator starts with: sums and differences of the
/// numbers one to three, with brackets.
pub open spec fn default_grammar() -> Seq<GrammarRuleModel> {
    seq![
        GrammarRuleModel { symbol: "start"@, productions: seq!["expr"@] },
        GrammarRuleModel {
            symbol: "expr"@,
            productions: seq!["num"@, "expr + expr"@, "expr - expr"@, "(expr)"@],
        },
        GrammarRuleModel { symbol: "num"@, productions: seq!["1"@, "2"@, "3"@] },
    ]
}

/// Whether every rule has a production.
pub open spec fn rules_usable(rules: Seq<GrammarRuleModel>) -> bool {
    forall|i: int| 0 <= i < rules.len() ==> (#[trigger] rules[i]).productions.len() >= 1
}

impl GrammarInputGenerator {
    /// A generator with the default rules.
    pub fn new() -> (r: Self)
        ensures
            r.grammar_rules.deep_view() == default_grammar(),
            r.wf(),
    {
        let mut start: Vec<String> = Vec::new();
        start.push(String::from_str("expr"));
        assert(start.deep_view() =~= seq!["expr"@]);
        let mut expr: Vec<String> = Vec::new();
        expr.push(String::from_str("num"));
        expr.push(String::from_str("expr + expr"));
        expr.push(String::from_str("expr - expr"));
        expr.push(String::from_str("(expr)"));
        assert(expr.deep_view() =~= seq!["num"@, "expr + expr"@, "expr - expr"@, "(expr)"@]);
        let mut num: Vec<String> = Vec::new();
        num.push(String::from_str("1"));
        num.push(String::from_str("2"));
        num.push(String::from_str("3"));
        assert(num.deep_view() =~= seq!["1"@, "2"@, "3"@]);
        let mut rules: Vec<GrammarRule> = Vec::new();
        rules.push(GrammarRule { symbol: String::from_str("start"), productions: start });
        rules.push(GrammarRule { symbol: String::from_str("expr"), productions: expr });
        rules.push(GrammarRule { symbol: String::from_str("num"), productions: num });
        assert(rules.deep_view() =~= default_grammar());
        GrammarInputGenerator { grammar_rules: rules }
    }

    fn find_rule(&self, symbol: &str) -> (r: usize)
        ensures
            r == rule_index(self.grammar_rules.deep_view(), symbol@),
            r <= self.grammar_rules.len(),
    {
        let ghost rules = self.grammar_rules.deep_view();
        let mut i: usize = 0;
        assert(rules.subrange(0, rules.len() as int) == rules);
        while i < self.grammar_rules.len()
            invariant
                i <= self.grammar_rules.len(),
                rules == self.grammar_rules.deep_view(),
                rule_index(rules, symbol@) == i + rule_index(rules.subrange(i as int, rules.len() as int), symbol@),
            decreases self.grammar_rules.len() - i,
        {
            let ghost rest = rules.subrange(i as int, rules.len() as int);
            assert(rest[0] == self.grammar_rules[i as int].deep_view());
            if same_text(self.grammar_rules[i].symbol.as_str(), symbol) {
                return i;
            }
            assert(rest.subrange(1, rest.len() as int) == rules.subrange(i + 1, rules.len() as int));
            i += 1;
        }
        i
    }

    /// Derives a text from `symbol`, choosing a production by chance
    /// wherever there is a choice.
    pub fn expand_symbol(&self, symbol: &str, depth: usize) -> (r: String)
        requires
            self.wf(),
        ensures
            expands_to(self.grammar_rules.deep_view(), symbol@, depth as nat, r@),
        decreases levels_left(depth as nat),
    {
        let ghost rules = self.grammar_rules.deep_view();
        if depth > 10 {
            return String::from_str("1");
        }
        let at = self.find_rule(symbol);
        if at >= self.grammar_rules.len() {
            return String::from_str(symbol);
        }
        let productions = &self.grammar_rules[at].productions;
        assert(rules[at as int].productions == productions.deep_view());
        assert(productions.len() >= 1);
        let k = random_in(0, productions.len() as u64) as usize;
        let production = to_chars(productions[k].as_str());
        let pieces = split_on(&production, ' ');
        let ghost all = pieces.deep_view();
        let mut out = String::new();
        let mut i: usize = 0;
        while i < pieces.len()
            invariant
                i <= pieces.len(),
                depth <= 10,
                self.wf(),
                rules == self.grammar_rules.deep_view(),
                all == pieces.deep_view(),
                pieces_expand_to(rules, all.take(i as int), depth as nat, out@),
            decreases pieces.len() - i,
        {
            let piece = from_chars(&pieces[i]);
            proof {
                crate::text::lemma_chars_deep_view(pieces[i as int]);
                assert(all.take(i + 1).drop_last() == all.take(i as int));
                assert(all.take(i + 1).last() == piece@);
            }
            let ghost head = out@;
            let derived = if self.find_rule(piece.as_str()) < self.grammar_rules.len() {
                self.expand_symbol(piece.as_str(), depth + 1)
            } else {
                piece
            };
            assert(piece_expands_to(rules, all[i as int], depth as nat, derived@));
            out.append(derived.as_str());
            assert(pieces_expand_to(rules, all.take(i + 1), depth as nat, out@)) by {
                let next = all.take(i + 1);
                assert(out@ == glued(head, derived@));
                assert(pieces_expand_to(rules, next.drop_last(), depth as nat, head));
                assert(piece_expands_to(rules, next.last(), depth as nat, derived@));
            }
            i += 1;
        }
        proof {
            assert(all.take(pieces.len() as int) == all);
            assert(all == split(productions.deep_view()[k as int], ' '));
            assert(is_symbol(rules, symbol@));
            assert(pieces_expand_to(rules, split(rules[at as int].productions[k as int], ' '), depth as nat, out@));
        }
        out
    }
}

impl InputGenerator for GrammarInputGenerator {
    open spec fn wf(&self) -> bool {
        rules_usable(self.grammar_rules.deep_view())
    }

    /// A text derived from the start symbol.
    open spec fn may_generate(&self, out: Seq<char>) -> bool {
        expands_to(self.grammar_rules.deep_view(), "start"@, 0, out)
    }

    /// A text derived from the start symbol, whatever the input.
    open spec fn may_mutate(&self, input: Seq<char>, out: Seq<char>) -> bool {
        expands_to(self.grammar_rules.deep_view(), "start"@, 0, out)
    }

    open spec fn kind_name(&self) -> Seq<char> {
        "grammar"@
    }

    fn generate_input(&self) -> (r: String) {
        self.expand_symbol("start", 0)
    }

    fn mutate_input(&self, _input: &str) -> (r: String) {
        self.expand_symbol("start", 0)
    }

    fn get_generator_type(&self) -> (r: &'static str) {
        "grammar"
    }
}

impl InputGenerator for Generator {
    open spec fn wf(&self) -> bool {
        match self {
            Generator::Random(g) => g.wf(),
            Generator::Structured(g) => g.wf(),
            Generator::Grammar(g) => g.wf(),
            Generator::Mutation(g) => g.wf(),
        }
    }

    open spec fn may_generate(&self, out: Seq<char>) -> bool {
        match self {
            Generator::Random(g) => g.may_generate(out),
            Generator::Structured(g) => g.may_generate(out),
            Generator::Grammar(g) => g.may_generate(out),
            Generator::Mutation(g) => g.may_generate(out),
        }
    }

    open spec fn may_mutate(&self, input: Seq<char>, out: Seq<char>) -> bool {
        match self {
            Generator::Random(g) => g.may_mutate(input, out),
            Generator::Structured(g) => g.may_mutate(input, out),
            Generator::Grammar(g) => g.may_mutate(input, out),
            Generator::Mutation(g) => g.may_mutate(input, out),
        }
    }

    open spec fn kind_name(&self) -> Seq<char> {
        match self {
            Generator::Random(g) => g.kind_name(),
            Generator::Structured(g) => g.kind_name(),
            Generator::Grammar(g) => g.kind_name(),
            Generator::Mutation(g) => g.kind_name(),
        }
    }

    fn generate_input(&self) -> (r: String) {
        match self {
            Generator::Random(g) => g.generate_input(),
            Generator::Structured(g) => g.generate_input(),
            Generator::Grammar(g) => g.generate_input(),
            Generator::Mutation(g) => g.generate_input(),
        }
    }

    fn mutate_input(&self, input: &str) -> (r: String) {
        match self {
            Generator::Random(g) => g.mutate_input(input),
            Generator::Structured(g) => g.mutate_input(input),
            Generator::Grammar(g) => g.mutate_input(input),
            Generator::Mutation(g) => g.mutate_input(input),
        }
    }

    fn get_generator_type(&self) -> (r: &'static str) {
        match self {
            Generator::Random(g) => g.get_generator_type(),
            Generator::Structured(g) => g.get_generator_type(),
            Generator::Grammar(g) => g.get_generator_type(),
            Generator::Mutation(g) => g.get_generator_type(),
        }
    }
}

/// The position of the first entry for `path`, or the number of entries
/// when there is none.
pub open spec fn path_index(map: Seq<PathCountModel>, path: Seq<char>) -> int
    decreases map.len(),
{
    if map.len() == 0 {
        0
    } else if map[0].path == path {
        0
    } else {
        1 + path_index(map.subrange(1, map.len() as int), path)
    }
}

/// A count with one more, held at the largest number a `u32` can take.
pub open spec fn one_more(count: u32) -> u32 {
    if count == u32::MAX {
        count
    } else {
        (count + 1) as u32
    }
}

/// The coverage map after one more run took `path`: its count goes up by
/// one, or it is entered at the end with a count of one.
pub open spec fn coverage_after(map: Seq<PathCountModel>, path: Seq<char>) -> Seq<PathCountModel> {
    let at = path_index(map, path);
    if 0 <= at < map.len() {
        map.update(at, PathCountModel { path: path, count: one_more(map[at].count) })
    } else {
        map.push(PathCountModel { path: path, count: 1 })
    }
}

/// The coverage that so many distinct paths stand for, in millionths of a
/// percent: one percent for each path, one hundred percent at most.
pub open spec fn coverage_percentage_of(paths: nat) -> u64 {
    if paths >= 100 {
        100_000_000
    } else {
        (paths * 1_000_000) as u64
    }
}

/// `n`, held at the largest number a `u32` can take.
pub open spec fn as_count(n: nat) -> u32 {
    if n > u32::MAX {
        u32::MAX
    } else {
        n as u32
    }
}

/// The coverage report for a coverage map.
pub open spec fn coverage_info_of(map: Seq<PathCountModel>) -> CoverageInfoModel {
    CoverageInfoModel {
        lines_covered: as_count(map.len()),
        total_lines: 100,
        functions_covered: as_count(map.len() / 5),
        total_functions: 20,
        branches_covered: as_count(map.len() / 2),
        total_branches: 50,
        coverage_map: map,
    }
}

fn count_of_size(n: usize) -> (r: u32)
    ensures
        r == as_count(n as nat),
{
    if n > 0xffff_ffff {
        u32::MAX
    } else {
        n as u32
    }
}

impl CoverageTracker {
    /// A tracker that has seen no path.
    pub fn new() -> (r: Self)
        ensures
            r.coverage_map.deep_view() == Seq::<PathCountModel>::empty(),
            r.total_coverage == 0,
    {
        let r = CoverageTracker { coverage_map: Vec::new(), total_coverage: 0 };
        assert(r.coverage_map.deep_view() =~= Seq::empty());
        r
    }

    fn find(&self, path: &str) -> (r: usize)
        ensures
            r == path_index(self.coverage_map.deep_view(), path@),
            r <= self.coverage_map.len(),
    {
        let ghost map = self.coverage_map.deep_view();
        let mut i: usize = 0;
        assert(map.subrange(0, map.len() as int) == map);
        while i < self.coverage_map.len()
            invariant
                i <= self.coverage_map.len(),
                map == self.coverage_map.deep_view(),
                path_index(map, path@) == i + path_index(map.subrange(i as int, map.len() as int), path@),
            decreases self.coverage_map.len() - i,
        {
            let ghost rest = map.subrange(i as int, map.len() as int);
            assert(rest[0] == self.coverage_map[i as int].deep_view());
            if same_text(self.coverage_map[i].path.as_str(), path) {
                return i;
            }
            assert(rest.subrange(1, rest.len() as int) == map.subrange(i + 1, map.len() as int));
            i += 1;
        }
        i
    }

    /// Counts one more run on its execution path and says how much
    /// coverage it added: one path, in millionths, when the path is new,
    /// and nothing otherwise.
    pub fn update_coverage(&mut self, execution: &ExecutionResult) -> (change: u64)
        ensures
            final(self).coverage_map.deep_view() == coverage_after(
                old(self).coverage_map.deep_view(),
                execution.execution_path@,
            ),
            change == (if path_index(old(self).coverage_map.deep_view(), execution.execution_path@) < old(
                self,
            ).coverage_map.len() {
                0u64
            } else {
                1_000_000u64
            }),
            final(self).total_coverage == (if old(self).total_coverage + change > u64::MAX {
                u64::MAX
            } else {
                (old(self).total_coverage + change) as u64
            }),
    {
        let ghost before = self.coverage_map.deep_view();
        let at = self.find(execution.execution_path.as_str());
        if at < self.coverage_map.len() {
            let count = self.coverage_map[at].count;
            let entry = PathCount {
                path: execution.execution_path.clone(),
                count: if count == u32::MAX {
                    count
                } else {
                    count + 1
                },
            };
            self.coverage_map.set(at, entry);
            assert(self.coverage_map.deep_view() =~= before.update(at as int, entry.deep_view()));
            0
        } else {
            let entry = PathCount { path: execution.execution_path.clone(), count: 1 };
            self.coverage_map.push(entry);
            assert(self.coverage_map.deep_view() =~= before.push(entry.deep_view()));
            self.total_coverage = if self.total_coverage > u64::MAX - 1_000_000 {
                u64::MAX
            } else {
                self.total_coverage + 1_000_000
            };
            1_000_000
        }
    }

    /// The coverage reached, in millionths of a percent.
    pub fn get_coverage_percentage(&self) -> (r: u64)
        ensures
            r == coverage_percentage_of(self.coverage_map.len() as nat),
            r <= 100_000_000,
    {
        if self.coverage_map.len() >= 100 {
            100_000_000
        } else {
            (self.coverage_map.len() as u64) * 1_000_000
        }
    }

    /// The coverage report.
    pub fn get_coverage_info(&self) -> (r: CoverageInfo)
        ensures
            r.deep_view() == coverage_info_of(self.coverage_map.deep_view()),
    {
        let map = self.coverage_map.clone();
        assert(map.deep_view() =~= self.coverage_map.deep_view());
        CoverageInfo {
            lines_covered: count_of_size(self.coverage_map.len()),
            total_lines: 100,
            functions_covered: count_of_size(self.coverage_map.len() / 5),
            total_functions: 20,
            branches_covered: count_of_size(self.coverage_map.len() / 2),
            total_branches: 50,
            coverage_map: map,
        }
    }
}

impl Default for CoverageInfo {
    fn default() -> (r: Self)
        ensures
            r.deep_view() == (CoverageInfoModel {
                lines_covered: 0,
                total_lines: 0,
                functions_covered: 0,
                total_functions: 0,
                branches_covered: 0,
                total_branches: 0,
                coverage_map: Seq::empty(),
            }),
    {
        let r = CoverageInfo {
            lines_covered: 0,
            total_lines: 0,
            functions_covered: 0,
            total_functions: 0,
            branches_covered: 0,
            total_branches: 0,
            coverage_map: Vec::new(),
        };
        assert(r.coverage_map.deep_view() =~= Seq::empty());
        r
    }
}

impl CrashReportModel {
    /// The report with its identifier blanked.
    pub open spec fn anonymous(self) -> CrashReportModel {
        CrashReportModel { id: Seq::empty(), ..self }
    }
}

/// Whether the regular expression `pattern` compiles and matches somewhere
/// in `text`.
pub open spec fn matches_pattern(pattern: Seq<char>, text: Seq<char>) -> bool {
    crate::outside::regex_find(pattern, text) matches Some(Some(_))
}

/// The position of the first entry of the table whose pattern matches the
/// error output, or the number of entries when none does.
pub open spec fn first_match(table: Seq<CrashPatternModel>, stderr: Seq<char>) -> int
    decreases table.len(),
{
    if table.len() == 0 {
        0
    } else if matches_pattern(table[0].pattern, stderr) {
        0
    } else {
        1 + first_match(table.subrange(1, table.len() as int), stderr)
    }
}

/// The longest history of crashes that is kept.
pub const CRASH_HISTORY_LIMIT: usize = 1000;

/// The classification table a detector starts with.
pub open spec fn default_crash_table() -> Seq<CrashPatternModel> {
    seq![
        CrashPatternModel {
            pattern: "segmentation fault|segfault"@,
            crash_type: CrashTypeModel::SegmentationFault,
            severity: CrashSeverity::Critical,
        },
        CrashPatternModel {
            pattern: "stack overflow"@,
            crash_type: CrashTypeModel::StackOverflow,
            severity: CrashSeverity::High,
        },
        CrashPatternModel {
            pattern: "out of memory|oom"@,
            crash_type: CrashTypeModel::OutOfMemory,
            severity: CrashSeverity::High,
        },
        CrashPatternModel {
            pattern: "assertion failed|panic"@,
            crash_type: CrashTypeModel::AssertionFailure,
            severity: CrashSeverity::Medium,
        },
    ]
}

/// The report of a crash that an entry of the table classifies, its
/// identifier blanked.
pub open spec fn classified_crash(entry: CrashPatternModel, stderr: Seq<char>, now: i64) -> CrashReportModel {
    CrashReportModel {
        id: Seq::empty(),
        crash_type: entry.crash_type,
        severity: entry.severity,
        reproducer_input: Seq::empty(),
        stack_trace: stderr,
        error_message: stderr,
        timestamp: now,
        crash_location: None,
    }
}

/// The report of a crash that no entry of the table classifies, its
/// identifier blanked.
pub open spec fn unclassified_crash(exit_code: i32, stderr: Seq<char>, now: i64) -> CrashReportModel {
    CrashReportModel {
        id: Seq::empty(),
        crash_type: CrashTypeModel::Other("Exit code "@ + signed_decimal_digits(exit_code as int)),
        severity: CrashSeverity::Medium,
        reproducer_input: Seq::empty(),
        stack_trace: stderr,
        error_message: "Process exited with code "@ + signed_decimal_digits(exit_code as int),
        timestamp: now,
        crash_location: None,
    }
}

/// What a run is classified as, identifier blanked: nothing when it ended
/// with code zero, else the crash of the first entry that matches its error
/// output, else an unclassified crash.
pub open spec fn crash_of(table: Seq<CrashPatternModel>, exit_code: i32, stderr: Seq<char>, now: i64) -> Option<
    CrashReportModel,
> {
    if exit_code == 0 {
        None
    } else {
        let at = first_match(table, stderr);
        if 0 <= at < table.len() {
            Some(classified_crash(table[at], stderr, now))
        } else {
            Some(unclassified_crash(exit_code, stderr, now))
        }
    }
}

/// The history with one more report, without its oldest report when it
/// would grow past its limit.
pub open spec fn history_with(history: Seq<CrashReportModel>, report: CrashReportModel) -> Seq<CrashReportModel> {
    if history.len() + 1 > CRASH_HISTORY_LIMIT {
        history.push(report).subrange(1, history.len() as int + 1)
    } else {
        history.push(report)
    }
}

impl CrashDetector {
    /// Whether the history is within its limit.
    pub open spec fn wf(&self) -> bool {
        self.crash_history@.len() <= CRASH_HISTORY_LIMIT
    }

    /// A detector with the default table and an empty history.
    pub fn new() -> (r: Self)
        ensures
            r.crash_patterns.deep_view() == default_crash_table(),
            r.crash_history.deep_view() == Seq::<CrashReportModel>::empty(),
            r.wf(),
    {
        let mut table: Vec<CrashPattern> = Vec::new();
        table.push(
            CrashPattern {
                pattern: String::from_str("segmentation fault|segfault"),
                crash_type: CrashType::SegmentationFault,
                severity: CrashSeverity::Critical,
            },
        );
        table.push(
            CrashPattern {
                pattern: String::from_str("stack overflow"),
                crash_type: CrashType::StackOverflow,
                severity: CrashSeverity::High,
            },
        );
        table.push(
            CrashPattern {
                pattern: String::from_str("out of memory|oom"),
                crash_type: CrashType::OutOfMemory,
                severity: CrashSeverity::High,
            },
        );
        table.push(
            CrashPattern {
                pattern: String::from_str("assertion failed|panic"),
                crash_type: CrashType::AssertionFailure,
                severity: CrashSeverity::Medium,
            },
        );
        assert(table.deep_view() =~= default_crash_table());
        let r = CrashDetector { crash_patterns: table, crash_history: VecDeque::new() };
        assert(r.crash_history.deep_view() =~= Seq::empty());
        r
    }

    fn find_match(&self, stderr: &str) -> (r: usize)
        ensures
            r == first_match(self.crash_patterns.deep_view(), stderr@),
            r <= self.crash_patterns.len(),
    {
        let ghost table = self.crash_patterns.deep_view();
        let mut i: usize = 0;
        assert(table.subrange(0, table.len() as int) == table);
        while i < self.crash_patterns.len()
            invariant
                i <= self.crash_patterns.len(),
                table == self.crash_patterns.deep_view(),
                first_match(table, stderr@) == i + first_match(table.subrange(i as int, table.len() as int), stderr@),
            decreases self.crash_patterns.len() - i,
        {
            let ghost rest = table.subrange(i as int, table.len() as int);
            assert(rest[0] == self.crash_patterns[i as int].deep_view());
            let hit = find_pattern(self.crash_patterns[i].pattern.as_str(), stderr);
            let is_hit = match hit {
                Some(Some(_)) => true,
                _ => false,
            };
            if is_hit {
                return i;
            }
            assert(rest.subrange(1, rest.len() as int) == table.subrange(i + 1, table.len() as int));
            i += 1;
        }
        i
    }

    /// Classifies a run. A run that ended with code zero is no crash. A
    /// crash that an entry of the table classifies is also entered into the
    /// history, which keeps the most recent reports.
    pub fn analyze_execution(&mut self, execution: &ExecutionResult, now: i64) -> (r: Option<CrashReport>)
        requires
            old(self).wf(),
        ensures
            final(self).wf(),
            final(self).crash_patterns == old(self).crash_patterns,
            r.deep_view() matches Some(report) ==> Some(report.anonymous()) == crash_of(
                old(self).crash_patterns.deep_view(),
                execution.exit_code,
                execution.stderr@,
                now,
            ),
            r is None <==> execution.exit_code == 0,
            final(self).crash_history.deep_view() == (match r.deep_view() {
                Some(report) => if first_match(old(self).crash_patterns.deep_view(), execution.stderr@) < old(
                    self,
                ).crash_patterns.len() {
                    history_with(old(self).crash_history.deep_view(), report)
                } else {
                    old(self).crash_history.deep_view()
                },
                None => old(self).crash_history.deep_view(),
            }),
    {
        if execution.exit_code == 0 {
            return None;
        }
        let at = self.find_match(execution.stderr.as_str());
        if at < self.crash_patterns.len() {
            let entry = &self.crash_patterns[at];
            let report = CrashReport {
                id: new_id(),
                crash_type: entry.crash_type.clone(),
                severity: entry.severity,
                reproducer_input: String::new(),
                stack_trace: execution.stderr.clone(),
                error_message: execution.stderr.clone(),
                timestamp: now,
                crash_location: None,
            };
            let kept = report.clone();
            let ghost before = self.crash_history.deep_view();
            self.crash_history.push_back(kept);
            assert(self.crash_history.deep_view() =~= before.push(report.deep_view()));
            if self.crash_history.len() > CRASH_HISTORY_LIMIT {
                let _oldest = self.crash_history.pop_front();
                assert(self.crash_history.deep_view() =~= before.push(report.deep_view()).subrange(
                    1,
                    before.len() as int + 1,
                ));
            }
            Some(report)
        } else {
            let code = signed_decimal(execution.exit_code as i64);
            Some(
                CrashReport {
                    id: new_id(),
                    crash_type: CrashType::Other(join2("Exit code ", code.as_str())),
                    severity: CrashSeverity::Medium,
                    reproducer_input: String::new(),
                    stack_trace: execution.stderr.clone(),
                    error_message: join2("Process exited with code ", code.as_str()),
                    timestamp: now,
                    crash_location: None,
                },
            )
        }
    }
}

/// The number of a kind of crash: two crashes are of the same kind when
/// their numbers are equal, whatever text an unclassified one carries.
pub open spec fn kind_number(kind: CrashTypeModel) -> nat {
    match kind {
        CrashTypeModel::SegmentationFault => 0,
        CrashTypeModel::MemoryCorruption => 1,
        CrashTypeModel::StackOverflow => 2,
        CrashTypeModel::HeapOverflow => 3,
        CrashTypeModel::IntegerOverflow => 4,
        CrashTypeModel::DivisionByZero => 5,
        CrashTypeModel::NullPointerDereference => 6,
        CrashTypeModel::AssertionFailure => 7,
        CrashTypeModel::Panic => 8,
        CrashTypeModel::Timeout => 9,
        CrashTypeModel::OutOfMemory => 10,
        CrashTypeModel::Other(_) => 11,
    }
}

/// Whether two crashes count as one: the same kind at the same location.
pub open spec fn same_crash(a: CrashReportModel, b: CrashReportModel) -> bool {
    kind_number(a.crash_type) == kind_number(b.crash_type) && a.crash_location == b.crash_location
}

/// Whether none of the crashes seen so far counts as one with `crash`.
pub open spec fn is_new_crash(crash: CrashReportModel, seen: Seq<CrashReportModel>) -> bool {
    forall|i: int| 0 <= i < seen.len() ==> !same_crash(crash, #[trigger] seen[i])
}

fn number_of_kind(kind: &CrashType) -> (r: u8)
    ensures
        r == kind_number(kind.deep_view()),
{
    match kind {
        CrashType::SegmentationFault => 0,
        CrashType::MemoryCorruption => 1,
        CrashType::StackOverflow => 2,
        CrashType::HeapOverflow => 3,
        CrashType::IntegerOverflow => 4,
        CrashType::DivisionByZero => 5,
        CrashType::NullPointerDereference => 6,
        CrashType::AssertionFailure => 7,
        CrashType::Panic => 8,
        CrashType::Timeout => 9,
        CrashType::OutOfMemory => 10,
        CrashType::Other(_) => 11,
    }
}

fn same_location(a: &Option<String>, b: &Option<String>) -> (r: bool)
    ensures
        r == (a.deep_view() == b.deep_view()),
{
    match (a, b) {
        (None, None) => true,
        (Some(x), Some(y)) => same_text(x.as_str(), y.as_str()),
        _ => false,
    }
}

/// An edit distance between two texts, with the length of the longer of
/// them in bytes.
#[derive(Debug, Clone, Copy, PartialEq, Eq, Structural)]
pub struct DistancePair {
    pub distance: usize,
    pub length: usize,
}

/// The numerator of a pair's distance as a fraction of the length: the
/// distance, or zero where both texts are empty.
pub open spec fn numerator(pair: DistancePair) -> int {
    if pair.length == 0 {
        0
    } else {
        pair.distance as int
    }
}

/// The denominator of a pair's distance as a fraction of the length: the
/// length, or one where both texts are empty.
pub open spec fn denominator(pair: DistancePair) -> int {
    if pair.length == 0 {
        1
    } else {
        pair.length as int
    }
}

/// A pair's distance as a fraction of the length, in millionths and rounded
/// down.
pub open spec fn normalized_distance(pair: DistancePair) -> int {
    numerator(pair) * 1_000_000 / denominator(pair)
}

/// Whether the fraction of `a` is smaller than that of `b`.
pub open spec fn nearer(a: DistancePair, b: DistancePair) -> bool {
    numerator(a) * denominator(b) < numerator(b) * denominator(a)
}

/// The pair with the smallest fraction, the first of them where several
/// have it.
pub open spec fn nearest(pairs: Seq<DistancePair>) -> DistancePair
    decreases pairs.len(),
{
    if pairs.len() == 0 {
        DistancePair { distance: 0, length: 0 }
    } else if pairs.len() == 1 {
        pairs[0]
    } else if nearer(pairs.last(), nearest(pairs.drop_last())) {
        pairs.last()
    } else {
        nearest(pairs.drop_last())
    }
}

/// How unlike an input is to those it was compared with, in millionths:
/// with `m` the smallest distance as a fraction of the length, `m / (m +
/// 1)`, rounded down; one where there is nothing to compare with.
pub open spec fn uniqueness_of(pairs: Seq<DistancePair>) -> int {
    if pairs.len() == 0 {
        1_000_000
    } else {
        let closest = nearest(pairs);
        numerator(closest) * 1_000_000 / (numerator(closest) + denominator(closest))
    }
}

/// How unlike an input is to those it was compared with, from its distance
/// to each of them.
pub fn uniqueness_from(pairs: &Vec<DistancePair>) -> (r: u64)
    ensures
        r == uniqueness_of(pairs@),
        r <= 1_000_000,
{
    if pairs.len() == 0 {
        return 1_000_000;
    }
    let mut closest = pairs[0];
    let mut i: usize = 1;
    assert(pairs@.take(1).len() == 1);
    while i < pairs.len()
        invariant
            1 <= i <= pairs.len(),
            closest == nearest(pairs@.take(i as int)),
        decreases pairs.len() - i,
    {
        assert(pairs@.take(i + 1).drop_last() == pairs@.take(i as int));
        let candidate = pairs[i];
        let cn: u128 = if candidate.length == 0 {
            0
        } else {
            candidate.distance as u128
        };
        let cd: u128 = if candidate.length == 0 {
            1
        } else {
            candidate.length as u128
        };
        let bn: u128 = if closest.length == 0 {
            0
        } else {
            closest.distance as u128
        };
        let bd: u128 = if closest.length == 0 {
            1
        } else {
            closest.length as u128
        };
        assert(cn * bd <= 0xffff_ffff_ffff_ffff * 0xffff_ffff_ffff_ffff) by (nonlinear_arith)
            requires
                cn <= 0xffff_ffff_ffff_ffff,
                bd <= 0xffff_ffff_ffff_ffff,
        ;
        assert(bn * cd <= 0xffff_ffff_ffff_ffff * 0xffff_ffff_ffff_ffff) by (nonlinear_arith)
            requires
                bn <= 0xffff_ffff_ffff_ffff,
                cd <= 0xffff_ffff_ffff_ffff,
        ;
        if cn * bd < bn * cd {
            closest = candidate;
        }
        i += 1;
    }
    assert(pairs@.take(pairs.len() as int) == pairs@);
    let n: u128 = if closest.length == 0 {
        0
    } else {
        closest.distance as u128
    };
    let d: u128 = if closest.length == 0 {
        1
    } else {
        closest.length as u128
    };
    assert(n * 1_000_000 / (n + d) <= 1_000_000) by (nonlinear_arith)
        requires
            n >= 0,
            d >= 1,
    ;
    (n * 1_000_000 / (n + d)) as u64
}

/// The length of a text in bytes.
pub open spec fn byte_length(text: Seq<char>) -> usize {
    vstd::utf8::encode_utf8(text).len() as usize
}

/// The edit distance between two texts, with the length of the longer of
/// them in bytes.
pub open spec fn distance_between(a: Seq<char>, b: Seq<char>) -> DistancePair {
    DistancePair {
        distance: levenshtein_distance(a, b) as usize,
        length: if byte_length(a) >= byte_length(b) {
            byte_length(a)
        } else {
            byte_length(b)
        },
    }
}

/// The distances of an input to each of the interesting inputs.
pub open spec fn distances_to(input: Seq<char>, others: Seq<InterestingInputModel>) -> Seq<DistancePair> {
    others.map_values(|other: InterestingInputModel| distance_between(input, other.input_data))
}

/// The finding that a run took more than a second.
pub open spec fn slow_run(input: Seq<char>, execution_time: u64) -> PerformanceAnomalyModel {
    PerformanceAnomalyModel {
        anomaly_type: PerformanceAnomalyType::ExcessiveExecutionTime,
        input_trigger: input,
        baseline_performance: 50,
        anomaly_performance: execution_time,
        severity: 1_000_000,
        description: "Execution time significantly exceeds baseline"@,
    }
}

/// The finding that a run held more than fifty megabytes.
pub open spec fn large_run(input: Seq<char>, memory_usage: u64) -> PerformanceAnomalyModel {
    PerformanceAnomalyModel {
        anomaly_type: PerformanceAnomalyType::MemoryLeak,
        input_trigger: input,
        baseline_performance: 1_048_576,
        anomaly_performance: memory_usage,
        severity: 1_000_000,
        description: "Memory usage significantly exceeds baseline"@,
    }
}

/// The anomaly of a run, if it has one: too slow comes before too large.
pub open spec fn anomaly_of(input: Seq<char>, execution_time: u64, memory_usage: u64) -> Option<
    PerformanceAnomalyModel,
> {
    if execution_time > 1000 {
        Some(slow_run(input, execution_time))
    } else if memory_usage > 52_428_800 {
        Some(large_run(input, memory_usage))
    } else {
        None
    }
}

/// The generators that a strategy calls for.
pub open spec fn strategy_matches(strategy: FuzzingStrategy, generators: Seq<Generator>) -> bool {
    generators.len() == 1 && generators[0].wf() && match strategy {
        FuzzingStrategy::Random => generators[0] matches Generator::Random(g) && g.max_length == 1024,
        FuzzingStrategy::Structured => generators[0] matches Generator::Structured(g) && g.templates.deep_view()
            == default_templates(),
        FuzzingStrategy::Grammar => generators[0] matches Generator::Grammar(g) && g.grammar_rules.deep_view()
            == default_grammar(),
        FuzzingStrategy::Mutation => generators[0] matches Generator::Mutation(g) && g.seed_inputs.deep_view()
            == default_seeds(),
    }
}

impl FuzzingEngine {
    /// Whether the engine is fit for use: its generators are, and its crash
    /// history is within its limit.
    pub open spec fn wf(&self) -> bool {
        &&& self.crash_detector.wf()
        &&& forall|i: int| 0 <= i < self.input_generators.len() ==> (#[trigger] self.input_generators[i]).wf()
    }

    /// An engine for the given configuration: the generator of the
    /// configured strategy, no coverage and no crashes yet.
    pub fn new(config: FuzzingConfig) -> (r: Self)
        ensures
            r.config == config,
            r.wf(),
            strategy_matches(config.strategy, r.input_generators@),
            r.coverage_tracker.coverage_map.deep_view() == Seq::<PathCountModel>::empty(),
            r.coverage_tracker.total_coverage == 0,
            r.crash_detector.crash_patterns.deep_view() == default_crash_table(),
            r.crash_detector.crash_history.deep_view() == Seq::<CrashReportModel>::empty(),
    {
        let mut generators: Vec<Generator> = Vec::new();
        match config.strategy {
            FuzzingStrategy::Random => {
                generators.push(Generator::Random(RandomInputGenerator::new(1024)));
            },
            FuzzingStrategy::Structured => {
                generators.push(Generator::Structured(StructuredInputGenerator::new()));
            },
            FuzzingStrategy::Grammar => {
                generators.push(Generator::Grammar(GrammarInputGenerator::new()));
            },
            FuzzingStrategy::Mutation => {
                generators.push(Generator::Mutation(MutationInputGenerator::new()));
            },
        }
        FuzzingEngine {
            config: config,
            input_generators: generators,
            coverage_tracker: CoverageTracker::new(),
            crash_detector: CrashDetector::new(),
        }
    }

    /// A test input from one of the generators, chosen by chance; the empty
    /// text where there is no generator.
    pub fn generate_test_input(&self) -> (r: String)
        requires
            self.wf(),
        ensures
            self.input_generators.len() == 0 ==> r@ == Seq::<char>::empty(),
            self.input_generators.len() > 0 ==> exists|k: int|
                0 <= k < self.input_generators.len() && (#[trigger] self.input_generators[k]).may_generate(r@),
    {
        if self.input_generators.len() == 0 {
            return String::new();
        }
        let k = random_in(0, self.input_generators.len() as u64) as usize;
        let r = self.input_generators[k].generate_input();
        assert(self.input_generators[k as int].may_generate(r@));
        r
    }

    /// Whether none of the crashes seen so far counts as one with `crash`.
    pub fn is_unique_crash(&self, crash: &CrashReport, existing_crashes: &Vec<CrashReport>) -> (r: bool)
        ensures
            r == is_new_crash(crash.deep_view(), existing_crashes.deep_view()),
    {
        let kind = number_of_kind(&crash.crash_type);
        let mut i: usize = 0;
        while i < existing_crashes.len()
            invariant
                i <= existing_crashes.len(),
                kind == kind_number(crash.deep_view().crash_type),
                forall|k: int| 0 <= k < i ==> !same_crash(crash.deep_view(), #[trigger] existing_crashes.deep_view()[k]),
            decreases existing_crashes.len() - i,
        {
            let other = &existing_crashes[i];
            if number_of_kind(&other.crash_type) == kind && same_location(
                &crash.crash_location,
                &other.crash_location,
            ) {
                assert(same_crash(crash.deep_view(), existing_crashes.deep_view()[i as int]));
                return false;
            }
            i += 1;
        }
        true
    }

    /// The edit distance between two inputs, with the length of the longer
    /// of them in bytes.
    pub fn calculate_input_distance(&self, input1: &str, input2: &str) -> (r: DistancePair)
        ensures
            r == distance_between(input1@, input2@),
    {
        let distance = edit_distance(input1, input2);
        let length = if input1.len() >= input2.len() {
            input1.len()
        } else {
            input2.len()
        };
        DistancePair { distance: distance, length: length }
    }

    /// How unlike an input is to the interesting inputs found so far, in
    /// millionths.
    pub fn calculate_uniqueness_score(&self, input: &str, existing_inputs: &Vec<InterestingInput>) -> (r: u64)
        ensures
            r == uniqueness_of(distances_to(input@, existing_inputs.deep_view())),
            r <= 1_000_000,
    {
        let mut pairs: Vec<DistancePair> = Vec::new();
        let ghost others = existing_inputs.deep_view();
        let mut i: usize = 0;
        while i < existing_inputs.len()
            invariant
                i <= existing_inputs.len(),
                others == existing_inputs.deep_view(),
                pairs@ == distances_to(input@, others.take(i as int)),
            decreases existing_inputs.len() - i,
        {
            let pair = self.calculate_input_distance(input, existing_inputs[i].input_data.as_str());
            pairs.push(pair);
            assert(distances_to(input@, others.take(i + 1)) =~= distances_to(input@, others.take(i as int)).push(
                distance_between(input@, others[i as int].input_data),
            ));
            i += 1;
        }
        assert(others.take(existing_inputs.len() as int) == others);
        uniqueness_from(&pairs)
    }

    /// The anomaly of a run, if it has one.
    pub fn detect_performance_anomaly(&self, input: &str, execution: &ExecutionResult) -> (r: Option<
        PerformanceAnomaly,
    >)
        ensures
            r.deep_view() == anomaly_of(input@, execution.execution_time, execution.memory_usage),
    {
        if execution.execution_time > 1000 {
            Some(
                PerformanceAnomaly {
                    anomaly_type: PerformanceAnomalyType::ExcessiveExecutionTime,
                    input_trigger: String::from_str(input),
                    baseline_performance: 50,
                    anomaly_performance: execution.execution_time,
                    severity: 1_000_000,
                    description: String::from_str("Execution time significantly exceeds baseline"),
                },
            )
        } else if execution.memory_usage > 50 * 1024 * 1024 {
            Some(
                PerformanceAnomaly {
                    anomaly_type: PerformanceAnomalyType::MemoryLeak,
                    input_trigger: String::from_str(input),
                    baseline_performance: 1024 * 1024,
                    anomaly_performance: execution.memory_usage,
                    severity: 1_000_000,
                    description: String::from_str("Memory usage significantly exceeds baseline"),
                },
            )
        } else {
            None
        }
    }
}

/// The result of a campaign that has not run the target yet.
pub open spec fn empty_fuzzing_result() -> FuzzingResultModel {
    FuzzingResultModel {
        total_executions: 0,
        crashes_found: 0,
        unique_crashes: 0,
        coverage_percentage: 0,
        execution_time: 0,
        crashes: Seq::empty(),
        interesting_inputs: Seq::empty(),
        coverage_info: CoverageInfoModel {
            lines_covered: 0,
            total_lines: 0,
            functions_covered: 0,
            total_functions: 0,
            branches_covered: 0,
            total_branches: 0,
            coverage_map: Seq::empty(),
        },
        performance_anomalies: Seq::empty(),
    }
}

impl Default for FuzzingResult {
    fn default() -> (r: Self)
        ensures
            r.deep_view() == empty_fuzzing_result(),
    {
        let r = FuzzingResult {
            total_executions: 0,
            crashes_found: 0,
            unique_crashes: 0,
            coverage_percentage: 0,
            execution_time: 0,
            crashes: Vec::new(),
            interesting_inputs: Vec::new(),
            coverage_info: CoverageInfo::default(),
            performance_anomalies: Vec::new(),
        };
        assert(r.crashes.deep_view() =~= Seq::empty());
        assert(r.interesting_inputs.deep_view() =~= Seq::empty());
        assert(r.performance_anomalies.deep_view() =~= Seq::empty());
        r
    }
}

/// Whether the counters of a campaign agree: every crash that is kept is
/// counted as unique, no more crashes are unique than were found, and no
/// more were found than there were executions.
pub open spec fn campaign_wf(result: FuzzingResultModel) -> bool {
    result.unique_crashes == result.crashes.len() && result.unique_crashes <= result.crashes_found
        <= result.total_executions
}

/// Whether a campaign goes on: it has tries left and its time is not used
/// up.
pub open spec fn campaign_continues(config: FuzzingConfigModel, total_executions: u32, elapsed_ms: u64) -> bool {
    total_executions < config.iterations && elapsed_ms <= config.duration_seconds * 1000
}

/// The interesting input recorded for a run on a path not taken before.
pub open spec fn interesting_input(
    input: Seq<char>,
    execution: ExecutionResultModel,
    others: Seq<InterestingInputModel>,
) -> InterestingInputModel {
    InterestingInputModel {
        input_data: input,
        execution_path: execution.execution_path,
        coverage_increase: 1_000_000,
        execution_time: execution.execution_time,
        memory_usage: execution.memory_usage,
        uniqueness_score: uniqueness_of(distances_to(input, others)) as u64,
    }
}

/// The result of a campaign at its end: the time it took, and the coverage
/// that the coverage map stands for.
pub open spec fn finished(result: FuzzingResultModel, map: Seq<PathCountModel>, elapsed_ms: u64) -> FuzzingResultModel {
    FuzzingResultModel {
        execution_time: elapsed_ms,
        coverage_percentage: coverage_percentage_of(map.len()),
        coverage_info: coverage_info_of(map),
        ..result
    }
}

impl FuzzingEngine {
    /// The result of a campaign that has not run the target yet.
    pub fn begin_campaign(&self) -> (r: FuzzingResult)
        ensures
            r.deep_view() == empty_fuzzing_result(),
            campaign_wf(r.deep_view()),
    {
        FuzzingResult::default()
    }

    /// Whether the campaign goes on after `elapsed_ms` milliseconds.
    pub fn should_continue(&self, result: &FuzzingResult, elapsed_ms: u64) -> (r: bool)
        ensures
            r == campaign_continues(self.config.deep_view(), result.total_executions, elapsed_ms),
    {
        result.total_executions < self.config.iterations && (elapsed_ms as u128) <= (
        self.config.duration_seconds as u128) * 1000
    }

    /// Enters one run of the target into the campaign: counts it, classifies
    /// a crash and keeps it if it is a new one, and, where the campaign is
    /// guided by coverage, counts the path and keeps the input if the path
    /// is new; notes an anomaly if the run was too slow or too large.
    pub fn record_execution(&mut self, result: &mut FuzzingResult, input: &str, execution: &ExecutionResult, now: i64)
        requires
            old(self).wf(),
            campaign_wf(old(result).deep_view()),
            old(result).total_executions < old(self).config.iterations,
        ensures
            final(self).wf(),
            final(self).config == old(self).config,
            final(self).input_generators == old(self).input_generators,
            final(self).crash_detector.crash_patterns == old(self).crash_detector.crash_patterns,
            campaign_wf(final(result).deep_view()),
            final(result).total_executions == old(result).total_executions + 1,
            final(result).total_executions <= final(self).config.iterations,
            final(result).crashes_found == old(result).crashes_found + (if execution.exit_code != 0 {
                1int
            } else {
                0int
            }),
            match crash_of(
                old(self).crash_detector.crash_patterns.deep_view(),
                execution.exit_code,
                execution.stderr@,
                now,
            ) {
                Some(crash) => if is_new_crash(crash, old(result).crashes.deep_view()) {
                    &&& final(result).crashes.deep_view().len() == old(result).crashes.deep_view().len() + 1
                    &&& final(result).crashes.deep_view().drop_last() == old(result).crashes.deep_view()
                    &&& final(result).crashes.deep_view().last().anonymous() == crash
                } else {
                    final(result).crashes.deep_view() == old(result).crashes.deep_view()
                },
                None => final(result).crashes.deep_view() == old(result).crashes.deep_view(),
            },
            match crash_of(
                old(self).crash_detector.crash_patterns.deep_view(),
                execution.exit_code,
                execution.stderr@,
                now,
            ) {
                Some(crash) => if first_match(
                    old(self).crash_detector.crash_patterns.deep_view(),
                    execution.stderr@,
                ) < old(self).crash_detector.crash_patterns.len() {
                    exists|report: CrashReportModel|
                        report.anonymous() == crash && final(self).crash_detector.crash_history.deep_view()
                            == #[trigger] history_with(old(self).crash_detector.crash_history.deep_view(), report)
                } else {
                    final(self).crash_detector.crash_history.deep_view() == old(
                        self,
                    ).crash_detector.crash_history.deep_view()
                },
                None => final(self).crash_detector.crash_history.deep_view() == old(
                    self,
                ).crash_detector.crash_history.deep_view(),
            },
            old(self).config.coverage_guided ==> final(self).coverage_tracker.coverage_map.deep_view()
                == coverage_after(old(self).coverage_tracker.coverage_map.deep_view(), execution.execution_path@),
            old(self).config.coverage_guided ==> final(self).coverage_tracker.total_coverage == (if path_index(
                old(self).coverage_tracker.coverage_map.deep_view(),
                execution.execution_path@,
            ) < old(self).coverage_tracker.coverage_map.len() {
                old(self).coverage_tracker.total_coverage
            } else if old(self).coverage_tracker.total_coverage + 1_000_000 > u64::MAX {
                u64::MAX
            } else {
                (old(self).coverage_tracker.total_coverage + 1_000_000) as u64
            }),
            !old(self).config.coverage_guided ==> final(self).coverage_tracker == old(self).coverage_tracker,
            final(result).interesting_inputs.deep_view() == (if old(self).config.coverage_guided && path_index(
                old(self).coverage_tracker.coverage_map.deep_view(),
                execution.execution_path@,
            ) >= old(self).coverage_tracker.coverage_map.len() {
                old(result).interesting_inputs.deep_view().push(
                    interesting_input(input@, execution.deep_view(), old(result).interesting_inputs.deep_view()),
                )
            } else {
                old(result).interesting_inputs.deep_view()
            }),
            final(result).performance_anomalies.deep_view() == (match anomaly_of(
                input@,
                execution.execution_time,
                execution.memory_usage,
            ) {
                Some(anomaly) => old(result).performance_anomalies.deep_view().push(anomaly),
                None => old(result).performance_anomalies.deep_view(),
            }),
            final(result).coverage_percentage == old(result).coverage_percentage,
            final(result).execution_time == old(result).execution_time,
            final(result).coverage_info == old(result).coverage_info,
    {
        result.total_executions = result.total_executions + 1;
        let ghost crashes_before = result.crashes.deep_view();
        let ghost history_before = self.crash_detector.crash_history.deep_view();
        let found = self.crash_detector.analyze_execution(execution, now);
        proof {
            if found is Some && first_match(self.crash_detector.crash_patterns.deep_view(), execution.stderr@)
                < self.crash_detector.crash_patterns.len() {
                let report = found.deep_view()->0;
                assert(self.crash_detector.crash_history.deep_view() == history_with(history_before, report));
            }
        }
        match found {
            Some(crash) => {
                result.crashes_found = result.crashes_found + 1;
                if self.is_unique_crash(&crash, &result.crashes) {
                    proof {
                        assert forall|i: int| 0 <= i < crashes_before.len() implies !same_crash(
                            crash.deep_view().anonymous(),
                            #[trigger] crashes_before[i],
                        ) by {
                            assert(!same_crash(crash.deep_view(), crashes_before[i]));
                        }
                    }
                    result.unique_crashes = result.unique_crashes + 1;
                    result.crashes.push(crash);
                    assert(result.crashes.deep_view() =~= crashes_before.push(crash.deep_view()));
                    assert(result.crashes.deep_view().drop_last() =~= crashes_before);
                } else {
                    proof {
                        let w = choose|i: int|
                            0 <= i < crashes_before.len() && same_crash(crash.deep_view(), #[trigger] crashes_before[i]);
                        assert(same_crash(crash.deep_view().anonymous(), crashes_before[w]));
                    }
                }
            },
            None => {},
        }
        let ghost inputs_before = result.interesting_inputs.deep_view();
        if self.config.coverage_guided {
            let change = self.coverage_tracker.update_coverage(execution);
            if change > 0 {
                let score = self.calculate_uniqueness_score(input, &result.interesting_inputs);
                let item = InterestingInput {
                    input_data: String::from_str(input),
                    execution_path: execution.execution_path.clone(),
                    coverage_increase: change,
                    execution_time: execution.execution_time,
                    memory_usage: execution.memory_usage,
                    uniqueness_score: score,
                };
                result.interesting_inputs.push(item);
                assert(result.interesting_inputs.deep_view() =~= inputs_before.push(item.deep_view()));
            }
        }
        let ghost anomalies_before = result.performance_anomalies.deep_view();
        match self.detect_performance_anomaly(input, execution) {
            Some(anomaly) => {
                result.performance_anomalies.push(anomaly);
                assert(result.performance_anomalies.deep_view() =~= anomalies_before.push(anomaly.deep_view()));
            },
            None => {},
        }
    }

    /// Brings a campaign to its end after `elapsed_ms` milliseconds: notes
    /// the time and the coverage reached.
    pub fn finish_campaign(&self, result: &mut FuzzingResult, elapsed_ms: u64)
        ensures
            final(result).deep_view() == finished(
                old(result).deep_view(),
                self.coverage_tracker.coverage_map.deep_view(),
                elapsed_ms,
            ),
            final(result).coverage_percentage <= 100_000_000,
    {
        result.execution_time = elapsed_ms;
        result.coverage_percentage = self.coverage_tracker.get_coverage_percentage();
        result.coverage_info = self.coverage_tracker.get_coverage_info();
    }
}

/// A campaign of zero iterations does not run the target once, and ends
/// with no executions, no crashes and no coverage.
pub proof fn lemma_campaign_without_iterations(config: FuzzingConfigModel, elapsed_ms: u64)
    requires
        config.iterations == 0,
    ensures
        !campaign_continues(config, empty_fuzzing_result().total_executions, elapsed_ms),
        finished(empty_fuzzing_result(), Seq::empty(), elapsed_ms).total_executions == 0,
        finished(empty_fuzzing_result(), Seq::empty(), elapsed_ms).crashes_found == 0,
        finished(empty_fuzzing_result(), Seq::empty(), elapsed_ms).unique_crashes == 0,
        finished(empty_fuzzing_result(), Seq::empty(), elapsed_ms).coverage_percentage == 0,
{
}

/// As long as a campaign goes on, its executions stay within the configured
/// iterations, and with well-formed counters the crashes that are kept
/// never outnumber the crashes that were found.
pub proof fn lemma_campaign_counters(config: FuzzingConfigModel, result: FuzzingResultModel, elapsed_ms: u64)
    requires
        campaign_wf(result),
        campaign_continues(config, result.total_executions, elapsed_ms),
    ensures
        result.total_executions + 1 <= config.iterations,
        result.crashes.len() <= result.crashes_found <= result.total_executions,
{
}


impl RandomInputGenerator {
    /// Tests whether the generator is fit for use.
    pub fn is_usable(&self) -> (r: bool)
        ensures
            r == self.wf(),
    {
        self.max_length >= 1
    }
}

impl StructuredInputGenerator {
    /// Tests whether the generator is fit for use.
    pub fn is_usable(&self) -> (r: bool)
        ensures
            r == self.wf(),
    {
        self.templates.len() >= 1
    }
}

impl MutationInputGenerator {
    /// Tests whether the generator is fit for use.
    pub fn is_usable(&self) -> (r: bool)
        ensures
            r == self.wf(),
    {
        self.seed_inputs.len() >= 1
    }
}

impl GrammarInputGenerator {
    /// Tests whether the generator is fit for use.
    pub fn is_usable(&self) -> (r: bool)
        ensures
            r == self.wf(),
    {
        let ghost rules = self.grammar_rules.deep_view();
        let mut i: usize = 0;
        while i < self.grammar_rules.len()
            invariant
                i <= self.grammar_rules.len(),
                rules == self.grammar_rules.deep_view(),
                forall|k: int| 0 <= k < i ==> (#[trigger] rules[k]).productions.len() >= 1,
            decreases self.grammar_rules.len() - i,
        {
            if self.grammar_rules[i].productions.len() == 0 {
                assert(rules[i as int].productions.len() == 0);
                return false;
            }
            i += 1;
        }
        true
    }
}

impl Generator {
    /// Tests whether the generator is fit for use.
    pub fn is_usable(&self) -> (r: bool)
        ensures
            r == self.wf(),
    {
        match self {
            Generator::Random(g) => g.is_usable(),
            Generator::Structured(g) => g.is_usable(),
            Generator::Grammar(g) => g.is_usable(),
            Generator::Mutation(g) => g.is_usable(),
        }
    }
}

impl FuzzingEngine {
    /// Tests whether the engine is fit for use.
    pub fn is_usable(&self) -> (r: bool)
        ensures
            r == self.wf(),
    {
        if self.crash_detector.crash_history.len() > CRASH_HISTORY_LIMIT {
            return false;
        }
        let mut i: usize = 0;
        while i < self.input_generators.len()
            invariant
                i <= self.input_generators.len(),
                self.crash_detector.wf(),
                forall|k: int| 0 <= k < i ==> (#[trigger] self.input_generators[k]).wf(),
            decreases self.input_generators.len() - i,
        {
            if !self.input_generators[i].is_usable() {
                return false;
            }
            i += 1;
        }
        true
    }

    /// Tests whether the counters of a campaign agree and leave room for
    /// one more execution.
    pub fn can_record(&self, result: &FuzzingResult) -> (r: bool)
        ensures
            r == (campaign_wf(result.deep_view()) && result.total_executions < self.config.iterations),
    {
        result.crashes.len() <= 0xffff_ffff && result.unique_crashes as usize == result.crashes.len()
            && result.unique_crashes <= result.crashes_found && result.crashes_found <= result.total_executions
            && result.total_executions < self.config.iterations
    }
}

/// An exit code as the fuzz driver keeps it: itself where it fits, and -1
/// where it does not.
pub open spec fn kept_exit_code(exit_code: i64) -> i32 {
    if i32::MIN <= exit_code <= i32::MAX {
        exit_code as i32
    } else {
        -1i32
    }
}

/// The coverage key of a run: its exit code and the length of its output.
/// It stands in for a real coverage signal.
pub open spec fn coverage_key(exit_code: i64, output_length: nat) -> Seq<char> {
    "exit-"@ + signed_decimal_digits(exit_code as int) + "-out-"@ + decimal_digits(output_length)
}

impl ExecutionResult {
    /// The record of one run of the target, from what the sandbox returned.
    pub fn observed(exit_code: i64, stdout: String, stderr: String, execution_time: u64, memory_usage: u64) -> (r:
        ExecutionResult)
        ensures
            r.deep_view() == (ExecutionResultModel {
                exit_code: kept_exit_code(exit_code),
                execution_time: execution_time,
                memory_usage: memory_usage,
                execution_path: coverage_key(exit_code, byte_length(stdout@) as nat),
                stdout: stdout@,
                stderr: stderr@,
            }),
    {
        let code = signed_decimal(exit_code);
        let length = decimal(stdout.as_str().len() as u64);
        let head = join2("exit-", code.as_str());
        let key = crate::text::join3(head.as_str(), "-out-", length.as_str());
        ExecutionResult {
            exit_code: if exit_code < -2_147_483_648 || exit_code > 2_147_483_647 {
                -1
            } else {
                exit_code as i32
            },
            execution_time: execution_time,
            memory_usage: memory_usage,
            execution_path: key,
            stdout: stdout,
            stderr: stderr,
        }
    }
}

} // verus!
