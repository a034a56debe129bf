//! The orchestrator's decisions: the session registry, the order of the
//! phases, timeouts and retries, and the weighted verdict.

use vstd::prelude::*;

use crate::outside::new_id;
use crate::text::{contains_text, decimal, decimal_digits, join2, join3, same_text};
use crate::{
    anonymous_recommendations, Codebase, DataEntry, DataEntryModel, EffortLevel, Finding,
    FindingModel, FindingType, ImpactLevel, Priority, Recommendation, RecommendationModel,
    RuntimeConfig, RuntimeConfigModel, Severity, ValidationResult, ValidationResultModel,
    ValidationStatus,
};

verus! {

/// One named stage of the pipeline.
#[derive(Debug, Clone, Copy, PartialEq, Eq, Structural)]
pub enum ValidationPhase {
    Initialization,
    EnvironmentSetup,
    StaticAnalysis,
    SecurityScanning,
    RuntimeExecution,
    PerformanceProfiling,
    FuzzTesting,
    ResultAggregation,
    Cleanup,
    Completed,
}

impl DeepView for ValidationPhase {
    type V = ValidationPhase;

    open spec fn deep_view(&self) -> ValidationPhase {
        *self
    }
}

/// Where one engine stands within a validation.
#[derive(Debug, Clone, Copy, PartialEq, Eq, Structural)]
pub enum EngineExecutionStatus {
    Pending,
    Running,
    Completed,
    Failed,
    Skipped,
}

impl DeepView for EngineExecutionStatus {
    type V = EngineExecutionStatus;

    open spec fn deep_view(&self) -> EngineExecutionStatus {
        *self
    }
}

/// How far a validation has come.
#[derive(Debug, PartialEq, Eq)]
pub struct ValidationProgress {
    /// In millionths, between 0 and 1 000 000.
    pub overall_progress: u64,
    pub current_phase: ValidationPhase,
    pub completed_phases: Vec<ValidationPhase>,
    /// In milliseconds.
    pub estimated_time_remaining: Option<u64>,
}

/// The mathematical value of a [`ValidationProgress`].
pub ghost struct ValidationProgressModel {
    pub overall_progress: u64,
    pub current_phase: ValidationPhase,
    pub completed_phases: Seq<ValidationPhase>,
    pub estimated_time_remaining: Option<u64>,
}

impl DeepView for ValidationProgress {
    type V = ValidationProgressModel;

    open spec fn deep_view(&self) -> ValidationProgressModel {
        ValidationProgressModel {
            overall_progress: self.overall_progress.deep_view(),
            current_phase: self.current_phase.deep_view(),
            completed_phases: self.completed_phases.deep_view(),
            estimated_time_remaining: self.estimated_time_remaining.deep_view(),
        }
    }
}

impl Clone for ValidationProgress {
    fn clone(&self) -> (r: Self)
        ensures
            r.deep_view() == self.deep_view(),
    {
        let r = ValidationProgress {
            overall_progress: self.overall_progress,
            current_phase: self.current_phase,
            completed_phases: self.completed_phases.clone(),
            estimated_time_remaining: self.estimated_time_remaining,
        };
        assert(r.completed_phases.deep_view() =~= self.completed_phases.deep_view());
        r
    }
}

/// The state of one engine within a validation.
#[derive(Debug, PartialEq, Eq)]
pub struct EngineStatus {
    pub engine_name: String,
    pub status: EngineExecutionStatus,
    /// In millionths.
    pub progress: u64,
    pub started_at: Option<i64>,
    pub completed_at: Option<i64>,
    pub error_message: Option<String>,
}

/// The mathematical value of a [`EngineStatus`].
pub ghost struct EngineStatusModel {
    pub engine_name: Seq<char>,
    pub status: EngineExecutionStatus,
    pub progress: u64,
    pub started_at: Option<i64>,
    pub completed_at: Option<i64>,
    pub error_message: Option<Seq<char>>,
}

impl DeepView for EngineStatus {
    type V = EngineStatusModel;

    open spec fn deep_view(&self) -> EngineStatusModel {
        EngineStatusModel {
            engine_name: self.engine_name.deep_view(),
            status: self.status.deep_view(),
            progress: self.progress.deep_view(),
            started_at: self.started_at.deep_view(),
            completed_at: self.completed_at.deep_view(),
            error_message: self.error_message.deep_view(),
        }
    }
}

impl Clone for EngineStatus {
    fn clone(&self) -> (r: Self)
        ensures
            r.deep_view() == self.deep_view(),
    {
        let r = EngineStatus {
            engine_name: self.engine_name.clone(),
            status: self.status,
            progress: self.progress,
            started_at: self.started_at,
            completed_at: self.completed_at,
            error_message: self.error_message.clone(),
        };
        r
    }
}

/// The live record of a validation in flight.
#[derive(Debug, PartialEq, Eq)]
pub struct ValidationSession {
    pub validation_id: String,
    pub codebase_id: String,
    pub status: ValidationStatus,
    /// Milliseconds since the Unix epoch.
    pub started_at: i64,
    /// Milliseconds since the Unix epoch.
    pub estimated_completion: Option<i64>,
    pub progress: ValidationProgress,
    pub engine_status: Vec<EngineStatus>,
}

/// The mathematical value of a [`ValidationSession`].
pub ghost struct ValidationSessionModel {
    pub validation_id: Seq<char>,
    pub codebase_id: Seq<char>,
    pub status: ValidationStatus,
    pub started_at: i64,
    pub estimated_completion: Option<i64>,
    pub progress: ValidationProgressModel,
    pub engine_status: Seq<EngineStatusModel>,
}

impl DeepView for ValidationSession {
    type V = ValidationSessionModel;

    open spec fn deep_view(&self) -> ValidationSessionModel {
        ValidationSessionModel {
            validation_id: self.validation_id.deep_view(),
            codebase_id: self.codebase_id.deep_view(),
            status: self.status.deep_view(),
            started_at: self.started_at.deep_view(),
            estimated_completion: self.estimated_completion.deep_view(),
            progress: self.progress.deep_view(),
            engine_status: self.engine_status.deep_view(),
        }
    }
}

impl Clone for ValidationSession {
    fn clone(&self) -> (r: Self)
        ensures
            r.deep_view() == self.deep_view(),
    {
        let r = ValidationSession {
            validation_id: self.validation_id.clone(),
            codebase_id: self.codebase_id.clone(),
            status: self.status,
            started_at: self.started_at,
            estimated_completion: self.estimated_completion,
            progress: self.progress.clone(),
            engine_status: self.engine_status.clone(),
        };
        assert(r.engine_status.deep_view() =~= self.engine_status.deep_view());
        r
    }
}

/// What one engine reports back.
#[derive(Debug, PartialEq, Eq)]
pub struct EngineResult {
    pub engine_name: String,
    /// In milliseconds.
    pub execution_time: u64,
    pub success: bool,
    pub findings: Vec<Finding>,
    pub metrics: Vec<DataEntry>,
    pub recommendations: Vec<String>,
    /// In millionths.
    pub confidence: u64,
}

/// The mathematical value of a [`EngineResult`].
pub ghost struct EngineResultModel {
    pub engine_name: Seq<char>,
    pub execution_time: u64,
    pub success: bool,
    pub findings: Seq<FindingModel>,
    pub metrics: Seq<DataEntryModel>,
    pub recommendations: Seq<Seq<char>>,
    pub confidence: u64,
}

impl DeepView for EngineResult {
    type V = EngineResultModel;

    open spec fn deep_view(&self) -> EngineResultModel {
        EngineResultModel {
            engine_name: self.engine_name.deep_view(),
            execution_time: self.execution_time.deep_view(),
            success: self.success.deep_view(),
            findings: self.findings.deep_view(),
            metrics: self.metrics.deep_view(),
            recommendations: self.recommendations.deep_view(),
            confidence: self.confidence.deep_view(),
        }
    }
}

impl Clone for EngineResult {
    fn clone(&self) -> (r: Self)
        ensures
            r.deep_view() == self.deep_view(),
    {
        let r = EngineResult {
            engine_name: self.engine_name.clone(),
            execution_time: self.execution_time,
            success: self.success,
            findings: self.findings.clone(),
            metrics: self.metrics.clone(),
            recommendations: self.recommendations.clone(),
            confidence: self.confidence,
        };
        assert(r.findings.deep_view() =~= self.findings.deep_view());
        assert(r.metrics.deep_view() =~= self.metrics.deep_view());
        assert(r.recommendations.deep_view() =~= self.recommendations.deep_view());
        r
    }
}

/// The time allowed for one phase.
#[derive(Debug, Clone, Copy, PartialEq, Eq, Structural)]
pub struct PhaseTimeout {
    pub phase: ValidationPhase,
    pub seconds: u64,
}

impl DeepView for PhaseTimeout {
    type V = PhaseTimeout;

    open spec fn deep_view(&self) -> PhaseTimeout {
        *self
    }
}

/// When and how a failed container start is tried again.
#[derive(Debug, PartialEq, Eq)]
pub struct RetryConfig {
    pub max_retries: u32,
    /// In milliseconds.
    pub retry_delay: u64,
    pub exponential_backoff: bool,
    pub retryable_errors: Vec<String>,
}

/// The mathematical value of a [`RetryConfig`].
pub ghost struct RetryConfigModel {
    pub max_retries: u32,
    pub retry_delay: u64,
    pub exponential_backoff: bool,
    pub retryable_errors: Seq<Seq<char>>,
}

impl DeepView for RetryConfig {
    type V = RetryConfigModel;

    open spec fn deep_view(&self) -> RetryConfigModel {
        RetryConfigModel {
            max_retries: self.max_retries.deep_view(),
            retry_delay: self.retry_delay.deep_view(),
            exponential_backoff: self.exponential_backoff.deep_view(),
            retryable_errors: self.retryable_errors.deep_view(),
        }
    }
}

impl Clone for RetryConfig {
    fn clone(&self) -> (r: Self)
        ensures
            r.deep_view() == self.deep_view(),
    {
        let r = RetryConfig {
            max_retries: self.max_retries,
            retry_delay: self.retry_delay,
            exponential_backoff: self.exponential_backoff,
            retryable_errors: self.retryable_errors.clone(),
        };
        assert(r.retryable_errors.deep_view() =~= self.retryable_errors.deep_view());
        r
    }
}

/// The phases of a validation with their limits.
#[derive(Debug, PartialEq, Eq)]
pub struct ValidationPipeline {
    pub phases: Vec<ValidationPhase>,
    pub parallel_execution: bool,
    pub timeout_per_phase: Vec<PhaseTimeout>,
    pub retry_config: RetryConfig,
}

/// The mathematical value of a [`ValidationPipeline`].
pub ghost struct ValidationPipelineModel {
    pub phases: Seq<ValidationPhase>,
    pub parallel_execution: bool,
    pub timeout_per_phase: Seq<PhaseTimeout>,
    pub retry_config: RetryConfigModel,
}

impl DeepView for ValidationPipeline {
    type V = ValidationPipelineModel;

    open spec fn deep_view(&self) -> ValidationPipelineModel {
        ValidationPipelineModel {
            phases: self.phases.deep_view(),
            parallel_execution: self.parallel_execution.deep_view(),
            timeout_per_phase: self.timeout_per_phase.deep_view(),
            retry_config: self.retry_config.deep_view(),
        }
    }
}

impl Clone for ValidationPipeline {
    fn clone(&self) -> (r: Self)
        ensures
            r.deep_view() == self.deep_view(),
    {
        let r = ValidationPipeline {
            phases: self.phases.clone(),
            parallel_execution: self.parallel_execution,
            timeout_per_phase: self.timeout_per_phase.clone(),
            retry_config: self.retry_config.clone(),
        };
        assert(r.phases.deep_view() =~= self.phases.deep_view());
        assert(r.timeout_per_phase.deep_view() =~= self.timeout_per_phase.deep_view());
        r
    }
}

/// The share of each aspect in the overall score, each in percent.
#[derive(Debug, Clone, Copy, PartialEq, Eq, Structural)]
pub struct ValidationWeights {
    pub security_weight: u64,
    pub performance_weight: u64,
    pub functionality_weight: u64,
    pub code_quality_weight: u64,
    pub reliability_weight: u64,
}

impl DeepView for ValidationWeights {
    type V = ValidationWeights;

    open spec fn deep_view(&self) -> ValidationWeights {
        *self
    }
}

/// Computes the overall score and the recommendations.
#[derive(Debug, Clone, Copy, PartialEq, Eq, Structural)]
pub struct ResultAggregator {
    pub weight_config: ValidationWeights,
}

impl DeepView for ResultAggregator {
    type V = ResultAggregator;

    open spec fn deep_view(&self) -> ResultAggregator {
        *self
    }
}

/// Owns the session registry and decides each step of the pipeline.
#[derive(Debug, PartialEq, Eq)]
pub struct ValidationOrchestrator {
    pub config: RuntimeConfig,
    pub active_validations: Vec<ValidationSession>,
}

/// The mathematical value of a [`ValidationOrchestrator`].
pub ghost struct ValidationOrchestratorModel {
    pub config: RuntimeConfigModel,
    pub active_validations: Seq<ValidationSessionModel>,
}

impl DeepView for ValidationOrchestrator {
    type V = ValidationOrchestratorModel;

    open spec fn deep_view(&self) -> ValidationOrchestratorModel {
        ValidationOrchestratorModel {
            config: self.config.deep_view(),
            active_validations: self.active_validations.deep_view(),
        }
    }
}

impl Clone for ValidationOrchestrator {
    fn clone(&self) -> (r: Self)
        ensures
            r.deep_view() == self.deep_view(),
    {
        let r = ValidationOrchestrator {
            config: self.config.clone(),
            active_validations: self.active_validations.clone(),
        };
        assert(r.active_validations.deep_view() =~= self.active_validations.deep_view());
        r
    }
}

/// `x`, or zero when `x` is negative.
pub open spec fn at_least_zero(x: int) -> int {
    if x < 0 {
        0
    } else {
        x
    }
}

/// How many of the findings are of the given kind.
pub open spec fn count_of(findings: Seq<FindingModel>, kind: FindingType) -> int
    decreases findings.len(),
{
    if findings.len() == 0 {
        0
    } else {
        count_of(findings.drop_last(), kind) + if findings.last().finding_type == kind {
            1int
        } else {
            0int
        }
    }
}

/// The performance score: the mean of what is left of one hundred points
/// after the CPU share, and after a tenth of a point for each megabyte.
pub open spec fn performance_score(cpu_usage_percent: int, memory_usage_mb: int) -> int {
    (at_least_zero(100_000_000 - cpu_usage_percent) + at_least_zero(
        100_000_000 - memory_usage_mb * 100_000,
    )) / 2
}

/// The functionality score: twenty points off for each runtime error.
pub open spec fn functionality_score(findings: Seq<FindingModel>) -> int {
    at_least_zero(100_000_000 - 20_000_000 * count_of(findings, FindingType::RuntimeError))
}

/// The quality score: five points off for each finding.
pub open spec fn quality_score(findings: Seq<FindingModel>) -> int {
    at_least_zero(100_000_000 - 5_000_000 * findings.len())
}

/// The reliability score: twenty-five points off for each crash-prone
/// finding.
pub open spec fn reliability_score(findings: Seq<FindingModel>) -> int {
    at_least_zero(100_000_000 - 25_000_000 * count_of(findings, FindingType::CrashProne))
}

/// The weighted sum of the five scores, before it is divided by one hundred
/// and clamped.
pub open spec fn weighted_sum(weights: ValidationWeights, result: ValidationResultModel) -> int {
    result.security_result.security_score * weights.security_weight + performance_score(
        result.performance_metrics.cpu_usage_percent as int,
        result.performance_metrics.memory_usage_mb as int,
    ) * weights.performance_weight + functionality_score(result.findings)
        * weights.functionality_weight + quality_score(result.findings) * weights.code_quality_weight
        + reliability_score(result.findings) * weights.reliability_weight
}

/// The overall score: the five scores weighted by their percentages, and
/// held within zero and one hundred points.
pub open spec fn weighted_score(weights: ValidationWeights, result: ValidationResultModel) -> int {
    let score = weighted_sum(weights, result) / 100;
    if score > 100_000_000 {
        100_000_000
    } else {
        score
    }
}

/// The weights an aggregator starts with: 30% security, 20% performance,
/// 25% functionality, 15% quality, 10% reliability.
pub open spec fn default_weights() -> ValidationWeights {
    ValidationWeights {
        security_weight: 30,
        performance_weight: 20,
        functionality_weight: 25,
        code_quality_weight: 15,
        reliability_weight: 10,
    }
}

/// The recommendation made when the security score is under seventy points.
pub open spec fn improve_security() -> RecommendationModel {
    RecommendationModel {
        id: Seq::empty(),
        title: "Improve Security Posture"@,
        description: "Address security vulnerabilities found during scanning"@,
        priority: Priority::Critical,
        action: "Review and fix security findings"@,
        effort: EffortLevel::High,
        impact: ImpactLevel::Critical,
    }
}

/// The recommendation made when the CPU share is over eighty percent.
pub open spec fn optimize_performance() -> RecommendationModel {
    RecommendationModel {
        id: Seq::empty(),
        title: "Optimize Performance"@,
        description: "High resource usage detected during execution"@,
        priority: Priority::Medium,
        action: "Profile and optimize CPU-intensive operations"@,
        effort: EffortLevel::Medium,
        impact: ImpactLevel::High,
    }
}

/// The recommendation made when more than one hundred megabytes are used.
pub open spec fn reduce_memory() -> RecommendationModel {
    RecommendationModel {
        id: Seq::empty(),
        title: "Reduce Memory Usage"@,
        description: "The code uses significant memory. Consider memory optimization techniques."@,
        priority: Priority::Medium,
        action: "Review memory allocation patterns and implement memory pooling where appropriate"@,
        effort: EffortLevel::Medium,
        impact: ImpactLevel::Medium,
    }
}

/// The recommendations for a result, identifiers blanked: security first,
/// then CPU, then memory.
pub open spec fn recommendations_for(result: ValidationResultModel) -> Seq<RecommendationModel> {
    (if result.security_result.security_score < 70_000_000 {
        seq![improve_security()]
    } else {
        Seq::empty()
    }) + (if result.performance_metrics.cpu_usage_percent > 80_000_000 {
        seq![optimize_performance()]
    } else {
        Seq::empty()
    }) + (if result.performance_metrics.memory_usage_mb > 100 {
        seq![reduce_memory()]
    } else {
        Seq::empty()
    })
}

fn count_kind(findings: &Vec<Finding>, kind: FindingType) -> (r: usize)
    ensures
        r == count_of(findings.deep_view(), kind),
{
    let mut n: usize = 0;
    let ghost all = findings.deep_view();
    let mut i: usize = 0;
    while i < findings.len()
        invariant
            i <= findings.len(),
            all == findings.deep_view(),
            n == count_of(all.take(i as int), kind),
            n <= i,
        decreases findings.len() - i,
    {
        assert(all.take(i + 1).drop_last() == all.take(i as int));
        if findings[i].finding_type == kind {
            n += 1;
        }
        i += 1;
    }
    assert(all.take(findings.len() as int) == all);
    n
}

fn points_left(count: usize, cost: u64) -> (r: u64)
    requires
        0 < cost <= 100_000_000,
    ensures
        r == at_least_zero(100_000_000 - cost * count),
{
    if count as u128 >= 100_000_000 {
        assert(cost * count >= 100_000_000) by (nonlinear_arith)
            requires
                count >= 100_000_000,
                cost >= 1,
        ;
        0
    } else {
        assert(cost * count <= 100_000_000 * 100_000_000) by (nonlinear_arith)
            requires
                count <= 100_000_000,
                cost <= 100_000_000,
        ;
        let lost: u64 = cost * (count as u64);
        if lost >= 100_000_000 {
            0
        } else {
            100_000_000 - lost
        }
    }
}

fn weighted_term(score: u64, weight: u64) -> (r: u64)
    ensures
        r <= 10_000_000_000,
        score * weight <= 10_000_000_000 ==> r == score * weight,
        score * weight > 10_000_000_000 ==> r == 10_000_000_000,
{
    assert(score * weight <= 0xffff_ffff_ffff_ffff * 0xffff_ffff_ffff_ffff) by (nonlinear_arith)
        requires
            score <= 0xffff_ffff_ffff_ffff,
            weight <= 0xffff_ffff_ffff_ffff,
    ;
    let product: u128 = (score as u128) * (weight as u128);
    if product > 10_000_000_000 {
        10_000_000_000
    } else {
        product as u64
    }
}

impl ResultAggregator {
    /// An aggregator with the default weights.
    pub fn new() -> (r: Self)
        ensures
            r.weight_config == default_weights(),
    {
        ResultAggregator {
            weight_config: ValidationWeights {
                security_weight: 30,
                performance_weight: 20,
                functionality_weight: 25,
                code_quality_weight: 15,
                reliability_weight: 10,
            },
        }
    }

    /// The performance score of a run, in millionths of a point.
    pub fn calculate_performance_score(&self, metrics: &crate::performance::PerformanceMetrics) -> (r: u64)
        ensures
            r == performance_score(metrics.cpu_usage_percent as int, metrics.memory_usage_mb as int),
            r <= 100_000_000,
    {
        let cpu_score: u64 = if metrics.cpu_usage_percent >= 100_000_000 {
            0
        } else {
            100_000_000 - metrics.cpu_usage_percent
        };
        let memory_score: u64 = if metrics.memory_usage_mb >= 1000 {
            0
        } else {
            100_000_000 - metrics.memory_usage_mb * 100_000
        };
        (cpu_score + memory_score) / 2
    }

    /// The functionality score of a result, in millionths of a point.
    pub fn calculate_functionality_score(&self, result: &ValidationResult) -> (r: u64)
        ensures
            r == functionality_score(result.deep_view().findings),
            r <= 100_000_000,
    {
        points_left(count_kind(&result.findings, FindingType::RuntimeError), 20_000_000)
    }

    /// The quality score of a result, in millionths of a point.
    pub fn calculate_quality_score(&self, result: &ValidationResult) -> (r: u64)
        ensures
            r == quality_score(result.deep_view().findings),
            r <= 100_000_000,
    {
        points_left(result.findings.len(), 5_000_000)
    }

    /// The reliability score of a result, in millionths of a point.
    pub fn calculate_reliability_score(&self, result: &ValidationResult) -> (r: u64)
        ensures
            r == reliability_score(result.deep_view().findings),
            r <= 100_000_000,
    {
        points_left(count_kind(&result.findings, FindingType::CrashProne), 25_000_000)
    }

    /// The overall score of a result, in millionths of a point.
    pub fn calculate_weighted_score(&self, result: &ValidationResult) -> (r: u64)
        ensures
            r == weighted_score(self.weight_config, result.deep_view()),
            r <= 100_000_000,
    {
        let w = self.weight_config;
        let security = result.security_result.security_score;
        let performance = self.calculate_performance_score(&result.performance_metrics);
        let functionality = self.calculate_functionality_score(result);
        let quality = self.calculate_quality_score(result);
        let reliability = self.calculate_reliability_score(result);
        let a = weighted_term(security, w.security_weight);
        let b = weighted_term(performance, w.performance_weight);
        let c = weighted_term(functionality, w.functionality_weight);
        let d = weighted_term(quality, w.code_quality_weight);
        let e = weighted_term(reliability, w.reliability_weight);
        let total: u64 = a + b + c + d + e;
        let score = total / 100;
        if score > 100_000_000 {
            100_000_000
        } else {
            score
        }
    }

    /// The recommendations for a result.
    pub fn generate_recommendations(&self, result: &ValidationResult) -> (r: Vec<Recommendation>)
        ensures
            anonymous_recommendations(r.deep_view()) == recommendations_for(result.deep_view()),
    {
        let mut out: Vec<Recommendation> = Vec::new();
        assert(anonymous_recommendations(out.deep_view()) =~= Seq::empty());
        if result.security_result.security_score < 70_000_000 {
            let item = Recommendation {
                id: new_id(),
                title: String::from_str("Improve Security Posture"),
                description: String::from_str("Address security vulnerabilities found during scanning"),
                priority: Priority::Critical,
                action: String::from_str("Review and fix security findings"),
                effort: EffortLevel::High,
                impact: ImpactLevel::Critical,
            };
            out.push(item);
            assert(anonymous_recommendations(out.deep_view()) =~= seq![improve_security()]);
        }
        let ghost first = anonymous_recommendations(out.deep_view());
        if result.performance_metrics.cpu_usage_percent > 80_000_000 {
            let item = Recommendation {
                id: new_id(),
                title: String::from_str("Optimize Performance"),
                description: String::from_str("High resource usage detected during execution"),
                priority: Priority::Medium,
                action: String::from_str("Profile and optimize CPU-intensive operations"),
                effort: EffortLevel::Medium,
                impact: ImpactLevel::High,
            };
            out.push(item);
            assert(anonymous_recommendations(out.deep_view()) =~= first + seq![optimize_performance()]);
        } else {
            assert(anonymous_recommendations(out.deep_view()) =~= first + Seq::empty());
        }
        let ghost second = anonymous_recommendations(out.deep_view());
        if result.performance_metrics.memory_usage_mb > 100 {
            let item = Recommendation {
                id: new_id(),
                title: String::from_str("Reduce Memory Usage"),
                description: String::from_str(
                    "The code uses significant memory. Consider memory optimization techniques.",
                ),
                priority: Priority::Medium,
                action: String::from_str(
                    "Review memory allocation patterns and implement memory pooling where appropriate",
                ),
                effort: EffortLevel::Medium,
                impact: ImpactLevel::Medium,
            };
            out.push(item);
            assert(anonymous_recommendations(out.deep_view()) =~= second + seq![reduce_memory()]);
        } else {
            assert(anonymous_recommendations(out.deep_view()) =~= second + Seq::empty());
        }
        out
    }
}

/// The overall score lies between zero and one hundred points, whatever the
/// weights and whatever the result holds.
pub proof fn lemma_weighted_score_in_range(weights: ValidationWeights, result: ValidationResultModel)
    ensures
        0 <= weighted_score(weights, result) <= 100_000_000,
{
    let p = performance_score(
        result.performance_metrics.cpu_usage_percent as int,
        result.performance_metrics.memory_usage_mb as int,
    );
    let f = functionality_score(result.findings);
    let q = quality_score(result.findings);
    let r = reliability_score(result.findings);
    assert(result.security_result.security_score * weights.security_weight >= 0) by (nonlinear_arith)
        requires
            result.security_result.security_score >= 0,
            weights.security_weight >= 0,
    ;
    assert(p * weights.performance_weight >= 0) by (nonlinear_arith)
        requires
            p >= 0,
            weights.performance_weight >= 0,
    ;
    assert(f * weights.functionality_weight >= 0) by (nonlinear_arith)
        requires
            f >= 0,
            weights.functionality_weight >= 0,
    ;
    assert(q * weights.code_quality_weight >= 0) by (nonlinear_arith)
        requires
            q >= 0,
            weights.code_quality_weight >= 0,
    ;
    assert(r * weights.reliability_weight >= 0) by (nonlinear_arith)
        requires
            r >= 0,
            weights.reliability_weight >= 0,
    ;
}

/// Whether a session with the given identifier is registered.
pub open spec fn has_session(sessions: Seq<ValidationSessionModel>, id: Seq<char>) -> bool {
    exists|i: int| 0 <= i < sessions.len() && (#[trigger] sessions[i]).validation_id == id
}

/// Whether no two sessions share an identifier.
pub open spec fn distinct_ids(sessions: Seq<ValidationSessionModel>) -> bool {
    forall|i: int, j: int|
        0 <= i < j < sessions.len() ==> (#[trigger] sessions[i]).validation_id != (
        #[trigger] sessions[j]).validation_id
}

/// The position of the first session with the given identifier, or the
/// number of sessions when none has it.
pub open spec fn position_of(sessions: Seq<ValidationSessionModel>, id: Seq<char>) -> int
    decreases sessions.len(),
{
    if sessions.len() == 0 {
        0
    } else if sessions[0].validation_id == id {
        0
    } else {
        1 + position_of(sessions.subrange(1, sessions.len() as int), id)
    }
}

/// The session with the given identifier, if one is registered.
pub open spec fn session_of(sessions: Seq<ValidationSessionModel>, id: Seq<char>) -> Option<
    ValidationSessionModel,
> {
    let at = position_of(sessions, id);
    if 0 <= at < sessions.len() {
        Some(sessions[at])
    } else {
        None
    }
}

/// The sessions without the one at the position of the given identifier.
pub open spec fn without_session(sessions: Seq<ValidationSessionModel>, id: Seq<char>) -> Seq<
    ValidationSessionModel,
> {
    let at = position_of(sessions, id);
    if 0 <= at < sessions.len() {
        sessions.remove(at)
    } else {
        sessions
    }
}

/// The sessions with the one of the given identifier replaced by `session`;
/// unchanged when none has it.
pub open spec fn with_session(
    sessions: Seq<ValidationSessionModel>,
    id: Seq<char>,
    session: ValidationSessionModel,
) -> Seq<ValidationSessionModel> {
    let at = position_of(sessions, id);
    if 0 <= at < sessions.len() {
        sessions.update(at, session)
    } else {
        sessions
    }
}

/// `position_of` names the first session with the identifier.
pub proof fn lemma_position_of(sessions: Seq<ValidationSessionModel>, id: Seq<char>)
    ensures
        0 <= position_of(sessions, id) <= sessions.len(),
        position_of(sessions, id) < sessions.len() ==> sessions[position_of(
            sessions,
            id,
        )].validation_id == id,
        forall|k: int| 0 <= k < position_of(sessions, id) ==> (#[trigger] sessions[k]).validation_id != id,
        has_session(sessions, id) <==> position_of(sessions, id) < sessions.len(),
    decreases sessions.len(),
{
    if sessions.len() > 0 && sessions[0].validation_id != id {
        let rest = sessions.subrange(1, sessions.len() as int);
        lemma_position_of(rest, id);
        let at = position_of(sessions, id);
        assert forall|k: int| 0 <= k < at implies (#[trigger] sessions[k]).validation_id != id by {
            if k > 0 {
                assert(rest[k - 1] == sessions[k]);
            }
        }
        if at < sessions.len() {
            assert(rest[at - 1] == sessions[at]);
        }
        if has_session(sessions, id) {
            let w = choose|w: int| 0 <= w < sessions.len() && (#[trigger] sessions[w]).validation_id == id;
            assert(rest[w - 1] == sessions[w]);
            assert(has_session(rest, id));
        }
        if at < sessions.len() {
            assert(sessions[at].validation_id == id);
        }
    } else if sessions.len() > 0 {
        assert(sessions[0].validation_id == id);
    }
}

/// A position whose session has the identifier, with none before it that
/// has, is the position of the identifier.
pub proof fn lemma_position_is(sessions: Seq<ValidationSessionModel>, id: Seq<char>, at: int)
    requires
        0 <= at <= sessions.len(),
        forall|k: int| 0 <= k < at ==> (#[trigger] sessions[k]).validation_id != id,
        at < sessions.len() ==> sessions[at].validation_id == id,
    ensures
        position_of(sessions, id) == at,
{
    lemma_position_of(sessions, id);
    let p = position_of(sessions, id);
    if p < at {
        assert(sessions[p].validation_id != id);
    }
    if at < p {
        assert(sessions[at].validation_id != id);
    }
}

/// The time a validation of a codebase with so many files is expected to
/// take, in seconds.
pub open spec fn estimated_seconds(files: nat) -> int {
    if files <= 10 {
        120
    } else if files <= 50 {
        300
    } else if files <= 100 {
        600
    } else {
        900
    }
}

/// The instant `millis` milliseconds after `now`, held at the latest
/// instant there is.
pub open spec fn instant_after(now: i64, millis: int) -> i64 {
    if now + millis > i64::MAX {
        i64::MAX
    } else {
        (now + millis) as i64
    }
}

/// The progress of a validation that has just been registered.
pub open spec fn initial_progress() -> ValidationProgressModel {
    ValidationProgressModel {
        overall_progress: 0,
        current_phase: ValidationPhase::Initialization,
        completed_phases: Seq::empty(),
        estimated_time_remaining: Some(300_000u64),
    }
}

/// The session registered for a new validation.
pub open spec fn new_session(id: Seq<char>, codebase_id: Seq<char>, files: nat, now: i64) -> ValidationSessionModel {
    ValidationSessionModel {
        validation_id: id,
        codebase_id: codebase_id,
        status: ValidationStatus::Running,
        started_at: now,
        estimated_completion: Some(instant_after(now, estimated_seconds(files) * 1000)),
        progress: initial_progress(),
        engine_status: Seq::empty(),
    }
}

/// Whether the status is one a validation ends in.
pub open spec fn is_terminal(status: ValidationStatus) -> bool {
    status == ValidationStatus::Completed || status == ValidationStatus::Failed || status
        == ValidationStatus::Timeout || status == ValidationStatus::Cancelled
}

/// Whether a validation may pass from one status to the other: from pending
/// to running, and from running to one of the four ends.
pub open spec fn may_become(from: ValidationStatus, to: ValidationStatus) -> bool {
    (from == ValidationStatus::Pending && to == ValidationStatus::Running) || (from
        == ValidationStatus::Running && is_terminal(to))
}

/// Tests whether a validation may pass from one status to the other.
pub fn can_transition(from: ValidationStatus, to: ValidationStatus) -> (r: bool)
    ensures
        r == may_become(from, to),
{
    match from {
        ValidationStatus::Pending => to == ValidationStatus::Running,
        ValidationStatus::Running => to == ValidationStatus::Completed || to == ValidationStatus::Failed
            || to == ValidationStatus::Timeout || to == ValidationStatus::Cancelled,
        _ => false,
    }
}

/// The progress fraction for so many completed phases of eight, in
/// millionths and never above one.
pub open spec fn progress_fraction(completed: nat) -> u64 {
    if completed >= 8 {
        1_000_000
    } else {
        (completed * 125_000) as u64
    }
}

/// The progress after the validation has moved on to `phase`: the phase it
/// leaves is listed as completed, once.
pub open spec fn progress_after(progress: ValidationProgressModel, phase: ValidationPhase) -> ValidationProgressModel {
    let completed = if progress.completed_phases.contains(progress.current_phase) {
        progress.completed_phases
    } else {
        progress.completed_phases.push(progress.current_phase)
    };
    ValidationProgressModel {
        overall_progress: progress_fraction(completed.len()),
        current_phase: phase,
        completed_phases: completed,
        estimated_time_remaining: progress.estimated_time_remaining,
    }
}

fn phase_listed(phases: &Vec<ValidationPhase>, phase: ValidationPhase) -> (r: bool)
    ensures
        r == phases.deep_view().contains(phase),
{
    let mut i: usize = 0;
    while i < phases.len()
        invariant
            i <= phases.len(),
            forall|k: int| 0 <= k < i ==> phases.deep_view()[k] != phase,
        decreases phases.len() - i,
    {
        if phases[i] == phase {
            assert(phases.deep_view()[i as int] == phase);
            return true;
        }
        i += 1;
    }
    false
}

impl ValidationProgress {
    /// Moves on to `phase`.
    pub fn enter(&mut self, phase: ValidationPhase)
        ensures
            final(self).deep_view() == progress_after(old(self).deep_view(), phase),
    {
        let ghost before = self.completed_phases.deep_view();
        if !phase_listed(&self.completed_phases, self.current_phase) {
            self.completed_phases.push(self.current_phase);
            assert(self.completed_phases.deep_view() =~= before.push(self.current_phase));
        }
        self.current_phase = phase;
        self.overall_progress = if self.completed_phases.len() >= 8 {
            1_000_000
        } else {
            (self.completed_phases.len() as u64) * 125_000
        };
    }
}

impl Default for ValidationProgress {
    fn default() -> (r: Self)
        ensures
            r.deep_view() == (ValidationProgressModel {
                overall_progress: 0,
                current_phase: ValidationPhase::Initialization,
                completed_phases: Seq::empty(),
                estimated_time_remaining: None,
            }),
    {
        let r = ValidationProgress {
            overall_progress: 0,
            current_phase: ValidationPhase::Initialization,
            completed_phases: Vec::new(),
            estimated_time_remaining: None,
        };
        assert(r.completed_phases.deep_view() =~= Seq::empty());
        r
    }
}

impl ValidationOrchestrator {
    /// Whether the registry is well formed: no two sessions share an
    /// identifier.
    pub open spec fn wf(&self) -> bool {
        distinct_ids(self.active_validations.deep_view())
    }

    /// An orchestrator with an empty registry.
    pub fn new(config: RuntimeConfig) -> (r: Self)
        ensures
            r.config == config,
            r.active_validations.deep_view() == Seq::<ValidationSessionModel>::empty(),
            r.wf(),
    {
        let r = ValidationOrchestrator { config: config, active_validations: Vec::new() };
        assert(r.active_validations.deep_view() =~= Seq::empty());
        r
    }

    fn find(&self, validation_id: &str) -> (r: usize)
        ensures
            r == position_of(self.active_validations.deep_view(), validation_id@),
            r <= self.active_validations.len(),
            r < self.active_validations.len() <==> has_session(
                self.active_validations.deep_view(),
                validation_id@,
            ),
    {
        let ghost sessions = self.active_validations.deep_view();
        let mut i: usize = 0;
        while i < self.active_validations.len()
            invariant
                i <= self.active_validations.len(),
                sessions == self.active_validations.deep_view(),
                forall|k: int| 0 <= k < i ==> (#[trigger] sessions[k]).validation_id != validation_id@,
            decreases self.active_validations.len() - i,
        {
            if same_text(self.active_validations[i].validation_id.as_str(), validation_id) {
                proof {
                    assert(sessions[i as int].validation_id == validation_id@);
                    lemma_position_is(sessions, validation_id@, i as int);
                    lemma_position_of(sessions, validation_id@);
                }
                return i;
            }
            i += 1;
        }
        proof {
            lemma_position_is(sessions, validation_id@, i as int);
            lemma_position_of(sessions, validation_id@);
        }
        i
    }

    /// The instant a validation of the codebase is expected to be done.
    pub fn estimate_completion_time(&self, codebase: &Codebase, now: i64) -> (r: Option<i64>)
        ensures
            r == Some(instant_after(now, estimated_seconds(codebase.files.len() as nat) * 1000)),
    {
        let files = codebase.files.len();
        let millis: i64 = if files <= 10 {
            120_000
        } else if files <= 50 {
            300_000
        } else if files <= 100 {
            600_000
        } else {
            900_000
        };
        if now > i64::MAX - millis {
            Some(i64::MAX)
        } else {
            Some(now + millis)
        }
    }

    /// Registers a running session for the codebase under the given
    /// identifier. A session that had the identifier before is replaced.
    pub fn register(&mut self, validation_id: &str, codebase: &Codebase, now: i64)
        requires
            old(self).wf(),
        ensures
            final(self).wf(),
            final(self).config == old(self).config,
            final(self).active_validations.deep_view() == without_session(
                old(self).active_validations.deep_view(),
                validation_id@,
            ).push(new_session(validation_id@, codebase.id@, codebase.files.len() as nat, now)),
            session_of(final(self).active_validations.deep_view(), validation_id@) == Some(
                new_session(validation_id@, codebase.id@, codebase.files.len() as nat, now),
            ),
    {
        self.remove_session(validation_id);
        let ghost kept = self.active_validations.deep_view();
        let session = ValidationSession {
            validation_id: String::from_str(validation_id),
            codebase_id: codebase.id.clone(),
            status: ValidationStatus::Running,
            started_at: now,
            estimated_completion: self.estimate_completion_time(codebase, now),
            progress: ValidationProgress {
                overall_progress: 0,
                current_phase: ValidationPhase::Initialization,
                completed_phases: Vec::new(),
                estimated_time_remaining: Some(300_000),
            },
            engine_status: Vec::new(),
        };
        assert(session.progress.completed_phases.deep_view() =~= Seq::empty());
        assert(session.engine_status.deep_view() =~= Seq::empty());
        self.active_validations.push(session);
        proof {
            let now_held = self.active_validations.deep_view();
            assert(now_held =~= kept.push(session.deep_view()));
            assert forall|k: int| 0 <= k < kept.len() implies (#[trigger] now_held[k]).validation_id
                != validation_id@ by {
                assert(now_held[k] == kept[k]);
            }
            lemma_position_is(now_held, validation_id@, kept.len() as int);
        }
    }

    /// Starts a validation of the codebase: registers a running session
    /// under a fresh identifier and returns the identifier.
    pub fn start_validation(&mut self, codebase: &Codebase, now: i64) -> (validation_id: String)
        requires
            old(self).wf(),
        ensures
            final(self).wf(),
            final(self).config == old(self).config,
            final(self).active_validations.deep_view() == without_session(
                old(self).active_validations.deep_view(),
                validation_id@,
            ).push(new_session(validation_id@, codebase.id@, codebase.files.len() as nat, now)),
            session_of(final(self).active_validations.deep_view(), validation_id@) == Some(
                new_session(validation_id@, codebase.id@, codebase.files.len() as nat, now),
            ),
    {
        let validation_id = new_id();
        self.register(validation_id.as_str(), codebase, now);
        validation_id
    }

    /// Takes the session with the given identifier out of the registry, if
    /// there is one.
    pub fn remove_session(&mut self, validation_id: &str)
        requires
            old(self).wf(),
        ensures
            final(self).wf(),
            final(self).config == old(self).config,
            final(self).active_validations.deep_view() == without_session(
                old(self).active_validations.deep_view(),
                validation_id@,
            ),
            !has_session(final(self).active_validations.deep_view(), validation_id@),
    {
        let ghost before = self.active_validations.deep_view();
        let at = self.find(validation_id);
        if at < self.active_validations.len() {
            let _gone = self.active_validations.remove(at);
            proof {
                let after = self.active_validations.deep_view();
                assert(after =~= before.remove(at as int));
                lemma_position_of(before, validation_id@);
                assert forall|k: int| 0 <= k < after.len() implies (#[trigger] after[k]).validation_id
                    != validation_id@ by {
                    if k < at {
                        assert(after[k] == before[k]);
                    } else {
                        assert(after[k] == before[k + 1]);
                    }
                }
                assert forall|i: int, j: int| 0 <= i < j < after.len() implies (#[trigger] after[i]).validation_id
                    != (#[trigger] after[j]).validation_id by {
                    let bi = if i < at {
                        i
                    } else {
                        i + 1
                    };
                    let bj = if j < at {
                        j
                    } else {
                        j + 1
                    };
                    assert(after[i] == before[bi]);
                    assert(after[j] == before[bj]);
                }
            }
        }
    }

    /// A snapshot of the session with the given identifier, if one is
    /// registered.
    pub fn get_validation_status(&self, validation_id: &str) -> (r: Option<ValidationSession>)
        ensures
            r.deep_view() == session_of(self.active_validations.deep_view(), validation_id@),
    {
        let at = self.find(validation_id);
        if at < self.active_validations.len() {
            Some(self.active_validations[at].clone())
        } else {
            None
        }
    }

    /// Snapshots of all registered sessions.
    pub fn list_active_validations(&self) -> (r: Vec<ValidationSession>)
        ensures
            r.deep_view() == self.active_validations.deep_view(),
    {
        let r = self.active_validations.clone();
        assert(r.deep_view() =~= self.active_validations.deep_view());
        r
    }

    fn set_status(&mut self, validation_id: &str, status: ValidationStatus)
        requires
            old(self).wf(),
        ensures
            final(self).wf(),
            final(self).config == old(self).config,
            final(self).active_validations.deep_view() == (match session_of(
                old(self).active_validations.deep_view(),
                validation_id@,
            ) {
                Some(session) => if may_become(session.status, status) {
                    with_session(
                        old(self).active_validations.deep_view(),
                        validation_id@,
                        ValidationSessionModel { status: status, ..session },
                    )
                } else {
                    old(self).active_validations.deep_view()
                },
                None => old(self).active_validations.deep_view(),
            }),
    {
        let ghost before = self.active_validations.deep_view();
        let at = self.find(validation_id);
        if at < self.active_validations.len() {
            if can_transition(self.active_validations[at].status, status) {
                let mut session = self.active_validations[at].clone();
                session.status = status;
                self.active_validations.set(at, session);
                proof {
                    let after = self.active_validations.deep_view();
                    assert(after =~= before.update(
                        at as int,
                        ValidationSessionModel { status: status, ..before[at as int] },
                    ));
                    assert forall|i: int, j: int| 0 <= i < j < after.len() implies (
                    #[trigger] after[i]).validation_id != (#[trigger] after[j]).validation_id by {
                        assert(after[i].validation_id == before[i].validation_id);
                        assert(after[j].validation_id == before[j].validation_id);
                    }
                }
            }
        }
    }

    /// Cancels the validation: a running session becomes cancelled. The
    /// session stays registered until the validation is concluded.
    pub fn cancel_validation(&mut self, validation_id: &str)
        requires
            old(self).wf(),
        ensures
            final(self).wf(),
            final(self).config == old(self).config,
            final(self).active_validations.deep_view() == (match session_of(
                old(self).active_validations.deep_view(),
                validation_id@,
            ) {
                Some(session) => if may_become(session.status, ValidationStatus::Cancelled) {
                    with_session(
                        old(self).active_validations.deep_view(),
                        validation_id@,
                        ValidationSessionModel { status: ValidationStatus::Cancelled, ..session },
                    )
                } else {
                    old(self).active_validations.deep_view()
                },
                None => old(self).active_validations.deep_view(),
            }),
    {
        self.set_status(validation_id, ValidationStatus::Cancelled);
    }

    /// Gives up a validation that failed outside its pipeline: its session
    /// leaves the registry.
    pub fn mark_validation_failed(&mut self, validation_id: &str)
        requires
            old(self).wf(),
        ensures
            final(self).wf(),
            final(self).config == old(self).config,
            final(self).active_validations.deep_view() == without_session(
                old(self).active_validations.deep_view(),
                validation_id@,
            ),
            !has_session(final(self).active_validations.deep_view(), validation_id@),
    {
        self.remove_session(validation_id);
    }

    /// Whether the validation was cancelled while it was running.
    pub fn is_cancelled(&self, validation_id: &str) -> (r: bool)
        ensures
            r == (session_of(self.active_validations.deep_view(), validation_id@) matches Some(session)
                && session.status == ValidationStatus::Cancelled),
    {
        let at = self.find(validation_id);
        at < self.active_validations.len() && self.active_validations[at].status
            == ValidationStatus::Cancelled
    }

    /// Notes that the validation has moved on to `phase`: the phase it
    /// leaves is listed as completed and the progress fraction follows.
    /// Nothing changes when no such session is registered.
    pub fn update_validation_phase(&mut self, validation_id: &str, phase: ValidationPhase)
        requires
            old(self).wf(),
        ensures
            final(self).wf(),
            final(self).config == old(self).config,
            final(self).active_validations.deep_view() == (match session_of(
                old(self).active_validations.deep_view(),
                validation_id@,
            ) {
                Some(session) => with_session(
                    old(self).active_validations.deep_view(),
                    validation_id@,
                    ValidationSessionModel { progress: progress_after(session.progress, phase), ..session },
                ),
                None => old(self).active_validations.deep_view(),
            }),
    {
        let ghost before = self.active_validations.deep_view();
        let at = self.find(validation_id);
        if at < self.active_validations.len() {
            let mut session = self.active_validations[at].clone();
            session.progress.enter(phase);
            self.active_validations.set(at, session);
            proof {
                let after = self.active_validations.deep_view();
                assert(after =~= before.update(
                    at as int,
                    ValidationSessionModel {
                        progress: progress_after(before[at as int].progress, phase),
                        ..before[at as int]
                    },
                ));
                assert forall|i: int, j: int| 0 <= i < j < after.len() implies (#[trigger] after[i]).validation_id
                    != (#[trigger] after[j]).validation_id by {
                    assert(after[i].validation_id == before[i].validation_id);
                    assert(after[j].validation_id == before[j].validation_id);
                }
            }
        }
    }
}

/// The list of completed phases only ever grows: what was listed before a
/// move is listed after it, at the same place.
pub proof fn lemma_completed_phases_grow(progress: ValidationProgressModel, phase: ValidationPhase)
    ensures
        progress.completed_phases.len() <= progress_after(progress, phase).completed_phases.len(),
        progress_after(progress, phase).completed_phases.take(progress.completed_phases.len() as int)
            == progress.completed_phases,
        progress_after(progress, phase).overall_progress <= 1_000_000,
{
    assert(progress_after(progress, phase).completed_phases.take(progress.completed_phases.len() as int)
        =~= progress.completed_phases);
}

/// What the work of a phase came to.
#[derive(Debug, Clone, Copy, PartialEq, Eq, Structural)]
pub enum PipelineEvent {
    /// The phase did its work.
    Succeeded,
    /// The phase failed.
    Failed,
    /// The phase ran longer than it may.
    TimedOut,
    /// The whole validation ran longer than it may.
    GlobalTimeout,
    /// The validation was cancelled from outside.
    Cancelled,
}

/// Where a validation stands in its pipeline.
#[derive(Debug, Clone, Copy, PartialEq, Eq, Structural)]
pub struct PipelineState {
    /// The phase that is to be run, or `Completed` when none is left.
    pub phase: ValidationPhase,
    pub status: ValidationStatus,
    /// Whether a workspace or a container may exist on the host.
    pub environment_live: bool,
    /// The status the validation will end in.
    pub verdict: ValidationStatus,
}

/// The place of a phase in the fixed order.
pub open spec fn rank(phase: ValidationPhase) -> nat {
    match phase {
        ValidationPhase::Initialization => 0,
        ValidationPhase::EnvironmentSetup => 1,
        ValidationPhase::StaticAnalysis => 2,
        ValidationPhase::SecurityScanning => 3,
        ValidationPhase::RuntimeExecution => 4,
        ValidationPhase::PerformanceProfiling => 5,
        ValidationPhase::FuzzTesting => 6,
        ValidationPhase::ResultAggregation => 7,
        ValidationPhase::Cleanup => 8,
        ValidationPhase::Completed => 9,
    }
}

/// The phase that follows `phase` when nothing goes wrong; fuzz testing is
/// passed over where it is not enabled.
pub open spec fn following(phase: ValidationPhase, fuzzing_enabled: bool) -> ValidationPhase {
    match phase {
        ValidationPhase::Initialization => ValidationPhase::EnvironmentSetup,
        ValidationPhase::EnvironmentSetup => ValidationPhase::SecurityScanning,
        ValidationPhase::StaticAnalysis => ValidationPhase::SecurityScanning,
        ValidationPhase::SecurityScanning => ValidationPhase::RuntimeExecution,
        ValidationPhase::RuntimeExecution => ValidationPhase::PerformanceProfiling,
        ValidationPhase::PerformanceProfiling => if fuzzing_enabled {
            ValidationPhase::FuzzTesting
        } else {
            ValidationPhase::ResultAggregation
        },
        ValidationPhase::FuzzTesting => ValidationPhase::ResultAggregation,
        ValidationPhase::ResultAggregation => ValidationPhase::Cleanup,
        ValidationPhase::Cleanup => ValidationPhase::Completed,
        ValidationPhase::Completed => ValidationPhase::Completed,
    }
}

/// The state of a validation that has not begun.
pub open spec fn initial_state() -> PipelineState {
    PipelineState {
        phase: ValidationPhase::Initialization,
        status: ValidationStatus::Pending,
        environment_live: false,
        verdict: ValidationStatus::Completed,
    }
}

/// The state after `event`. A pending validation starts running. A finished
/// one stays as it is. Cleanup always leads to the end, with the verdict as
/// the status and nothing left on the host. A global timeout or a
/// cancellation abandons the pipeline for cleanup, and so does a failure
/// before the environment is set up; any other failure lets the next phase
/// run.
pub open spec fn advanced(state: PipelineState, event: PipelineEvent, fuzzing_enabled: bool) -> PipelineState {
    if state.status == ValidationStatus::Pending {
        PipelineState { status: ValidationStatus::Running, ..state }
    } else if state.phase == ValidationPhase::Completed {
        state
    } else if state.phase == ValidationPhase::Cleanup {
        PipelineState {
            phase: ValidationPhase::Completed,
            status: state.verdict,
            environment_live: false,
            verdict: state.verdict,
        }
    } else if event == PipelineEvent::GlobalTimeout {
        PipelineState { phase: ValidationPhase::Cleanup, verdict: ValidationStatus::Timeout, ..state }
    } else if event == PipelineEvent::Cancelled {
        PipelineState { phase: ValidationPhase::Cleanup, verdict: ValidationStatus::Cancelled, ..state }
    } else if event != PipelineEvent::Succeeded && rank(state.phase) <= 1 {
        PipelineState { phase: ValidationPhase::Cleanup, verdict: ValidationStatus::Failed, ..state }
    } else {
        PipelineState {
            phase: following(state.phase, fuzzing_enabled),
            environment_live: state.environment_live || state.phase == ValidationPhase::Initialization,
            ..state
        }
    }
}

/// The state after a sequence of events, from the first to the last.
pub open spec fn run(state: PipelineState, events: Seq<PipelineEvent>, fuzzing_enabled: bool) -> PipelineState
    decreases events.len(),
{
    if events.len() == 0 {
        state
    } else {
        advanced(run(state, events.drop_last(), fuzzing_enabled), events.last(), fuzzing_enabled)
    }
}

impl PipelineState {
    /// Whether the state is one that a validation can be in: it has ended
    /// exactly when no phase is left, nothing is left on the host once it
    /// has ended, and it holds an environment only after the setup phase
    /// was entered.
    pub open spec fn wf(self) -> bool {
        &&& is_terminal(self.status) <==> self.phase == ValidationPhase::Completed
        &&& self.phase == ValidationPhase::Completed ==> !self.environment_live
        &&& is_terminal(self.verdict)
        &&& self.status == ValidationStatus::Pending ==> self.phase == ValidationPhase::Initialization
            && !self.environment_live
        &&& self.environment_live ==> rank(self.phase) >= 1
        &&& self.phase == ValidationPhase::Completed ==> self.status == self.verdict
    }

    /// The state of a validation that has not begun.
    pub fn new() -> (r: Self)
        ensures
            r == initial_state(),
            r.wf(),
    {
        PipelineState {
            phase: ValidationPhase::Initialization,
            status: ValidationStatus::Pending,
            environment_live: false,
            verdict: ValidationStatus::Completed,
        }
    }

    /// The state after `event`.
    pub fn advance(self, event: PipelineEvent, fuzzing_enabled: bool) -> (r: Self)
        ensures
            r == advanced(self, event, fuzzing_enabled),
            self.wf() ==> r.wf(),
            self.wf() ==> r.status == self.status || may_become(self.status, r.status),
    {
        if self.status == ValidationStatus::Pending {
            PipelineState { status: ValidationStatus::Running, ..self }
        } else if self.phase == ValidationPhase::Completed {
            self
        } else if self.phase == ValidationPhase::Cleanup {
            PipelineState {
                phase: ValidationPhase::Completed,
                status: self.verdict,
                environment_live: false,
                verdict: self.verdict,
            }
        } else if event == PipelineEvent::GlobalTimeout {
            PipelineState { phase: ValidationPhase::Cleanup, verdict: ValidationStatus::Timeout, ..self }
        } else if event == PipelineEvent::Cancelled {
            PipelineState { phase: ValidationPhase::Cleanup, verdict: ValidationStatus::Cancelled, ..self }
        } else if event != PipelineEvent::Succeeded && (self.phase == ValidationPhase::Initialization
            || self.phase == ValidationPhase::EnvironmentSetup) {
            PipelineState { phase: ValidationPhase::Cleanup, verdict: ValidationStatus::Failed, ..self }
        } else {
            let next = match self.phase {
                ValidationPhase::Initialization => ValidationPhase::EnvironmentSetup,
                ValidationPhase::EnvironmentSetup => ValidationPhase::SecurityScanning,
                ValidationPhase::StaticAnalysis => ValidationPhase::SecurityScanning,
                ValidationPhase::SecurityScanning => ValidationPhase::RuntimeExecution,
                ValidationPhase::RuntimeExecution => ValidationPhase::PerformanceProfiling,
                ValidationPhase::PerformanceProfiling => if fuzzing_enabled {
                    ValidationPhase::FuzzTesting
                } else {
                    ValidationPhase::ResultAggregation
                },
                ValidationPhase::FuzzTesting => ValidationPhase::ResultAggregation,
                ValidationPhase::ResultAggregation => ValidationPhase::Cleanup,
                ValidationPhase::Cleanup => ValidationPhase::Completed,
                ValidationPhase::Completed => ValidationPhase::Completed,
            };
            PipelineState {
                phase: next,
                environment_live: self.environment_live || self.phase == ValidationPhase::Initialization,
                ..self
            }
        }
    }
}

/// Every state a validation reaches is well formed, and its status only
/// ever moves from pending to running and from running to one of the four
/// ends.
pub proof fn lemma_run_well_formed(events: Seq<PipelineEvent>, fuzzing_enabled: bool)
    ensures
        run(initial_state(), events, fuzzing_enabled).wf(),
    decreases events.len(),
{
    if events.len() > 0 {
        lemma_run_well_formed(events.drop_last(), fuzzing_enabled);
    }
}

/// Once a validation has reached one of its four ends, neither a workspace
/// nor a container is left on the host, whatever happened on the way.
pub proof fn lemma_nothing_left_at_the_end(events: Seq<PipelineEvent>, fuzzing_enabled: bool)
    ensures
        is_terminal(run(initial_state(), events, fuzzing_enabled).status) ==> !run(
            initial_state(),
            events,
            fuzzing_enabled,
        ).environment_live,
{
    lemma_run_well_formed(events, fuzzing_enabled);
}

/// A running validation moves forward with every event: the phase after the
/// event comes later in the fixed order.
pub proof fn lemma_advance_moves_forward(state: PipelineState, event: PipelineEvent, fuzzing_enabled: bool)
    requires
        state.wf(),
        state.status == ValidationStatus::Running,
    ensures
        rank(advanced(state, event, fuzzing_enabled).phase) > rank(state.phase),
{
}

/// After the event that starts it and nine more, whatever they are, a
/// validation has ended: cleanup was passed and the status is one of the
/// four ends.
pub proof fn lemma_validation_ends(events: Seq<PipelineEvent>, fuzzing_enabled: bool)
    requires
        events.len() >= 10,
    ensures
        is_terminal(run(initial_state(), events, fuzzing_enabled).status),
        run(initial_state(), events, fuzzing_enabled).phase == ValidationPhase::Completed,
        !run(initial_state(), events, fuzzing_enabled).environment_live,
{
    lemma_run_progress(events, fuzzing_enabled);
    lemma_run_well_formed(events, fuzzing_enabled);
}

/// After the first event and `n` more a validation stands at a phase of
/// rank `n` at least, or has ended.
pub proof fn lemma_run_progress(events: Seq<PipelineEvent>, fuzzing_enabled: bool)
    requires
        events.len() >= 1,
    ensures
        run(initial_state(), events, fuzzing_enabled).status != ValidationStatus::Pending,
        rank(run(initial_state(), events, fuzzing_enabled).phase) + 1 >= events.len() || run(
            initial_state(),
            events,
            fuzzing_enabled,
        ).phase == ValidationPhase::Completed,
    decreases events.len(),
{
    lemma_run_well_formed(events.drop_last(), fuzzing_enabled);
    if events.len() == 1 {
        assert(events.drop_last().len() == 0);
        assert(run(initial_state(), events.drop_last(), fuzzing_enabled) == initial_state());
    } else {
        lemma_run_progress(events.drop_last(), fuzzing_enabled);
        let before = run(initial_state(), events.drop_last(), fuzzing_enabled);
        if before.phase != ValidationPhase::Completed {
            lemma_advance_moves_forward(before, events.last(), fuzzing_enabled);
        }
    }
}

/// The delay after the given number of doublings, held at the largest
/// number a `u64` can take.
pub open spec fn backoff(delay: u64, doublings: nat) -> u64
    decreases doublings,
{
    if doublings == 0 {
        delay
    } else {
        let earlier = backoff(delay, (doublings - 1) as nat);
        if earlier > u64::MAX / 2 {
            u64::MAX
        } else {
            (2 * earlier) as u64
        }
    }
}

/// How long to wait before the attempt after `attempt` failed ones, or
/// `None` when the failure is not tried again: the retries are used up, or
/// the kind of error is not among the retryable ones.
pub open spec fn retry_delay_for(config: RetryConfigModel, attempt: u32, error_kind: Seq<char>) -> Option<u64> {
    if attempt < config.max_retries && config.retryable_errors.contains(error_kind) {
        if config.exponential_backoff {
            Some(backoff(config.retry_delay, attempt as nat))
        } else {
            Some(config.retry_delay)
        }
    } else {
        None
    }
}

impl RetryConfig {
    /// Decides whether a failed attempt is tried again, and after what
    /// delay in milliseconds. `attempt` counts the attempts that failed
    /// before this one.
    pub fn next_delay(&self, attempt: u32, error_kind: &str) -> (r: Option<u64>)
        ensures
            r == retry_delay_for(self.deep_view(), attempt, error_kind@),
    {
        if attempt < self.max_retries && contains_text(&self.retryable_errors, error_kind) {
            if self.exponential_backoff {
                let mut delay = self.retry_delay;
                let mut k: u32 = 0;
                while k < attempt
                    invariant
                        k <= attempt,
                        delay == backoff(self.retry_delay, k as nat),
                    decreases attempt - k,
                {
                    delay = if delay > u64::MAX / 2 {
                        u64::MAX
                    } else {
                        2 * delay
                    };
                    k += 1;
                }
                Some(delay)
            } else {
                Some(self.retry_delay)
            }
        } else {
            None
        }
    }
}

/// The time allowed for `phase` in seconds, from the first entry that names
/// it.
pub open spec fn timeout_of(timeouts: Seq<PhaseTimeout>, phase: ValidationPhase) -> Option<u64>
    decreases timeouts.len(),
{
    if timeouts.len() == 0 {
        None
    } else if timeouts[0].phase == phase {
        Some(timeouts[0].seconds)
    } else {
        timeout_of(timeouts.subrange(1, timeouts.len() as int), phase)
    }
}

/// The pipeline every validation runs through.
pub open spec fn standard_pipeline(parallel_execution: bool) -> ValidationPipelineModel {
    ValidationPipelineModel {
        phases: seq![
            ValidationPhase::Initialization,
            ValidationPhase::EnvironmentSetup,
            ValidationPhase::SecurityScanning,
            ValidationPhase::RuntimeExecution,
            ValidationPhase::PerformanceProfiling,
            ValidationPhase::FuzzTesting,
            ValidationPhase::ResultAggregation,
            ValidationPhase::Cleanup,
        ],
        parallel_execution: parallel_execution,
        timeout_per_phase: seq![
            PhaseTimeout { phase: ValidationPhase::SecurityScanning, seconds: 60 },
            PhaseTimeout { phase: ValidationPhase::RuntimeExecution, seconds: 120 },
            PhaseTimeout { phase: ValidationPhase::PerformanceProfiling, seconds: 90 },
            PhaseTimeout { phase: ValidationPhase::FuzzTesting, seconds: 180 },
        ],
        retry_config: RetryConfigModel {
            max_retries: 2,
            retry_delay: 5000,
            exponential_backoff: true,
            retryable_errors: seq!["ContainerError"@, "NetworkError"@],
        },
    }
}

impl ValidationPipeline {
    /// The time allowed for `phase` in seconds, if the pipeline limits it.
    pub fn phase_timeout(&self, phase: ValidationPhase) -> (r: Option<u64>)
        ensures
            r == timeout_of(self.timeout_per_phase.deep_view(), phase),
    {
        let ghost all = self.timeout_per_phase.deep_view();
        let mut i: usize = 0;
        assert(all.subrange(0, all.len() as int) == all);
        while i < self.timeout_per_phase.len()
            invariant
                i <= self.timeout_per_phase.len(),
                all == self.timeout_per_phase.deep_view(),
                timeout_of(all, phase) == timeout_of(all.subrange(i as int, all.len() as int), phase),
            decreases self.timeout_per_phase.len() - i,
        {
            let ghost rest = all.subrange(i as int, all.len() as int);
            assert(rest[0] == self.timeout_per_phase[i as int]);
            if self.timeout_per_phase[i].phase == phase {
                return Some(self.timeout_per_phase[i].seconds);
            }
            assert(rest.subrange(1, rest.len() as int) == all.subrange(i + 1, all.len() as int));
            i += 1;
        }
        None
    }
}

impl ValidationOrchestrator {
    /// The pipeline every validation runs through, run in parallel or not
    /// as the configuration says.
    pub fn create_validation_pipeline(&self) -> (r: ValidationPipeline)
        ensures
            r.deep_view() == standard_pipeline(self.config.validation.parallel_execution),
    {
        let mut phases: Vec<ValidationPhase> = Vec::new();
        phases.push(ValidationPhase::Initialization);
        phases.push(ValidationPhase::EnvironmentSetup);
        phases.push(ValidationPhase::SecurityScanning);
        phases.push(ValidationPhase::RuntimeExecution);
        phases.push(ValidationPhase::PerformanceProfiling);
        phases.push(ValidationPhase::FuzzTesting);
        phases.push(ValidationPhase::ResultAggregation);
        phases.push(ValidationPhase::Cleanup);
        let mut timeouts: Vec<PhaseTimeout> = Vec::new();
        timeouts.push(PhaseTimeout { phase: ValidationPhase::SecurityScanning, seconds: 60 });
        timeouts.push(PhaseTimeout { phase: ValidationPhase::RuntimeExecution, seconds: 120 });
        timeouts.push(PhaseTimeout { phase: ValidationPhase::PerformanceProfiling, seconds: 90 });
        timeouts.push(PhaseTimeout { phase: ValidationPhase::FuzzTesting, seconds: 180 });
        let mut retryable: Vec<String> = Vec::new();
        retryable.push(String::from_str("ContainerError"));
        retryable.push(String::from_str("NetworkError"));
        let r = ValidationPipeline {
            phases: phases,
            parallel_execution: self.config.validation.parallel_execution,
            timeout_per_phase: timeouts,
            retry_config: RetryConfig {
                max_retries: 2,
                retry_delay: 5000,
                exponential_backoff: true,
                retryable_errors: retryable,
            },
        };
        proof {
            let m = standard_pipeline(self.config.validation.parallel_execution);
            assert(r.phases.deep_view() =~= m.phases);
            assert(r.timeout_per_phase.deep_view() =~= m.timeout_per_phase);
            assert(r.retry_config.retryable_errors.deep_view() =~= m.retry_config.retryable_errors);
        }
        r
    }
}

/// The finding that stands for a policy violation, its identifier blanked.
/// The violation's location becomes the finding's file where
/// `keep_location` says so.
pub open spec fn violation_finding(
    violation: crate::security::SecurityViolationModel,
    keep_location: bool,
    confidence: u64,
) -> FindingModel {
    FindingModel {
        id: Seq::empty(),
        finding_type: FindingType::SecurityVulnerability,
        severity: crate::severity_of_risk(violation.risk_level),
        title: violation.title,
        description: violation.description,
        file: if keep_location {
            violation.location
        } else {
            None
        },
        line: None,
        evidence: violation.evidence,
        confidence: confidence,
    }
}

/// The findings that stand for the violations, in their order.
pub open spec fn violation_findings(
    violations: Seq<crate::security::SecurityViolationModel>,
    keep_location: bool,
    confidence: u64,
) -> Seq<FindingModel>
    decreases violations.len(),
{
    if violations.len() == 0 {
        Seq::empty()
    } else {
        violation_findings(violations.drop_last(), keep_location, confidence).push(
            violation_finding(violations.last(), keep_location, confidence),
        )
    }
}

/// Appends one finding for each violation.
pub fn append_violation_findings(
    findings: &mut Vec<Finding>,
    violations: &Vec<crate::security::SecurityViolation>,
    keep_location: bool,
    confidence: u64,
)
    ensures
        crate::findings_added(
            old(findings).deep_view(),
            final(findings).deep_view(),
            violation_findings(violations.deep_view(), keep_location, confidence),
        ),
{
    let ghost before = findings.deep_view();
    let ghost all = violations.deep_view();
    let mut i: usize = 0;
    proof {
        crate::lemma_findings_added_none(before);
    }
    while i < violations.len()
        invariant
            i <= violations.len(),
            all == violations.deep_view(),
            before == old(findings).deep_view(),
            crate::findings_added(
                before,
                findings.deep_view(),
                violation_findings(all.take(i as int), keep_location, confidence),
            ),
        decreases violations.len() - i,
    {
        let violation = &violations[i];
        let ghost had = findings.deep_view();
        let evidence = violation.evidence.clone();
        assert(evidence.deep_view() =~= violation.evidence.deep_view());
        let item = Finding::new(
            new_id(),
            FindingType::SecurityVulnerability,
            crate::severity_from_risk(violation.risk_level.as_str()),
            violation.title.clone(),
            violation.description.clone(),
            if keep_location {
                violation.location.clone()
            } else {
                None
            },
            evidence,
            confidence,
        );
        findings.push(item);
        proof {
            assert(findings.deep_view() =~= had.push(item.deep_view()));
            crate::lemma_findings_added_push(
                before,
                had,
                violation_findings(all.take(i as int), keep_location, confidence),
                item.deep_view(),
            );
            assert(all.take(i + 1).drop_last() == all.take(i as int));
            assert(all.take(i + 1).last() == violation.deep_view());
        }
        i += 1;
    }
    assert(all.take(violations.len() as int) == all);
}

/// The finding made when a codebase holds nothing that can be run.
pub open spec fn nothing_runnable_finding() -> FindingModel {
    FindingModel {
        id: Seq::empty(),
        finding_type: FindingType::RuntimeError,
        severity: Severity::Medium,
        title: "no runnable code detected"@,
        description: "The codebase holds no file that an entrypoint could be chosen from"@,
        file: None,
        line: None,
        evidence: Seq::empty(),
        confidence: 1_000_000,
    }
}

/// The finding made when the entrypoint ended with a code other than zero.
pub open spec fn execution_failed_finding(exit_code: i64, stderr: Seq<char>) -> FindingModel {
    FindingModel {
        id: Seq::empty(),
        finding_type: FindingType::RuntimeError,
        severity: Severity::High,
        title: "Runtime Execution Failed"@,
        description: "Code execution failed with exit code "@ + crate::text::signed_decimal_digits(
            exit_code as int,
        ),
        file: None,
        line: None,
        evidence: seq![
            DataEntryModel { key: "exit_code"@, value: crate::DataValueModel::Integer(exit_code) },
            DataEntryModel { key: "stderr"@, value: crate::DataValueModel::Text(stderr) },
        ],
        confidence: 1_000_000,
    }
}

/// The findings of the execution phase: one when nothing could be run, and
/// one when the exit code is not zero.
pub open spec fn runtime_findings(runnable: bool, exit_code: i64, stderr: Seq<char>) -> Seq<FindingModel> {
    (if runnable {
        Seq::empty()
    } else {
        seq![nothing_runnable_finding()]
    }) + (if exit_code != 0 {
        seq![execution_failed_finding(exit_code, stderr)]
    } else {
        Seq::empty()
    })
}

/// Appends the findings of the execution phase.
pub fn append_runtime_findings(
    findings: &mut Vec<Finding>,
    runnable: bool,
    execution: &crate::container::ExecutionResult,
)
    ensures
        crate::findings_added(
            old(findings).deep_view(),
            final(findings).deep_view(),
            runtime_findings(runnable, execution.exit_code, execution.stderr@),
        ),
{
    let ghost before = findings.deep_view();
    proof {
        crate::lemma_findings_added_none(before);
    }
    if !runnable {
        let item = Finding::new(
            new_id(),
            FindingType::RuntimeError,
            Severity::Medium,
            String::from_str("no runnable code detected"),
            String::from_str("The codebase holds no file that an entrypoint could be chosen from"),
            None,
            crate::no_entries(),
            1_000_000,
        );
        findings.push(item);
        proof {
            assert(findings.deep_view() =~= before.push(item.deep_view()));
            crate::lemma_findings_added_push(before, before, Seq::empty(), item.deep_view());
            assert(Seq::<FindingModel>::empty().push(item.deep_view().anonymous()) =~= seq![
                nothing_runnable_finding(),
            ]);
        }
    }
    let ghost first = if runnable {
        Seq::<FindingModel>::empty()
    } else {
        seq![nothing_runnable_finding()]
    };
    if execution.exit_code != 0 {
        let ghost had = findings.deep_view();
        let code = crate::text::signed_decimal(execution.exit_code);
        let item = Finding::new(
            new_id(),
            FindingType::RuntimeError,
            Severity::High,
            String::from_str("Runtime Execution Failed"),
            join2("Code execution failed with exit code ", code.as_str()),
            None,
            crate::two_entries(
                crate::integer_entry("exit_code", execution.exit_code),
                crate::text_entry("stderr", execution.stderr.as_str()),
            ),
            1_000_000,
        );
        findings.push(item);
        proof {
            assert(findings.deep_view() =~= had.push(item.deep_view()));
            crate::lemma_findings_added_push(before, had, first, item.deep_view());
            assert(first.push(item.deep_view().anonymous()) =~= first + seq![
                execution_failed_finding(execution.exit_code, execution.stderr@),
            ]);
        }
    } else {
        assert(first =~= first + Seq::<FindingModel>::empty());
    }
}

/// The finding made when the CPU share is over ninety percent.
pub open spec fn high_cpu_finding(cpu_usage_percent: u64) -> FindingModel {
    FindingModel {
        id: Seq::empty(),
        finding_type: FindingType::PerformanceIssue,
        severity: Severity::Medium,
        title: "High CPU Usage"@,
        description: "CPU usage ("@ + crate::text::fixed_digits(cpu_usage_percent as nat, 1)
            + "%) exceeds threshold"@,
        file: None,
        line: None,
        evidence: Seq::empty(),
        confidence: 800_000,
    }
}

/// The findings of the profiling phase.
pub open spec fn profiling_findings(cpu_usage_percent: u64) -> Seq<FindingModel> {
    if cpu_usage_percent > 90_000_000 {
        seq![high_cpu_finding(cpu_usage_percent)]
    } else {
        Seq::empty()
    }
}

/// Appends the findings of the profiling phase.
pub fn append_profiling_findings(findings: &mut Vec<Finding>, metrics: &crate::performance::PerformanceMetrics)
    ensures
        crate::findings_added(
            old(findings).deep_view(),
            final(findings).deep_view(),
            profiling_findings(metrics.cpu_usage_percent),
        ),
{
    let ghost before = findings.deep_view();
    proof {
        crate::lemma_findings_added_none(before);
    }
    if metrics.cpu_usage_percent > 90_000_000 {
        let share = crate::text::fixed(metrics.cpu_usage_percent, 1);
        let item = Finding::new(
            new_id(),
            FindingType::PerformanceIssue,
            Severity::Medium,
            String::from_str("High CPU Usage"),
            join3("CPU usage (", share.as_str(), "%) exceeds threshold"),
            None,
            crate::no_entries(),
            800_000,
        );
        findings.push(item);
        proof {
            assert(findings.deep_view() =~= before.push(item.deep_view()));
            crate::lemma_findings_added_push(before, before, Seq::empty(), item.deep_view());
            assert(Seq::<FindingModel>::empty().push(item.deep_view().anonymous()) =~= seq![
                high_cpu_finding(metrics.cpu_usage_percent),
            ]);
        }
    }
}

/// The severity of a finding that stands for a crash.
pub open spec fn severity_of_crash(severity: crate::fuzzing::CrashSeverity) -> Severity {
    match severity {
        crate::fuzzing::CrashSeverity::Critical => Severity::Critical,
        crate::fuzzing::CrashSeverity::High => Severity::High,
        crate::fuzzing::CrashSeverity::Medium => Severity::Medium,
        crate::fuzzing::CrashSeverity::Low => Severity::Low,
    }
}

/// The finding that stands for a crash, its identifier blanked.
pub open spec fn crash_finding(crash: crate::fuzzing::CrashReportModel) -> FindingModel {
    FindingModel {
        id: Seq::empty(),
        finding_type: FindingType::CrashProne,
        severity: severity_of_crash(crash.severity),
        title: "Fuzzing Crash: "@ + crate::fuzzing::crash_label(crash.crash_type),
        description: crash.error_message,
        file: crash.crash_location,
        line: None,
        evidence: Seq::empty(),
        confidence: 900_000,
    }
}

/// The findings that stand for the crashes, in their order.
pub open spec fn crash_findings(crashes: Seq<crate::fuzzing::CrashReportModel>) -> Seq<FindingModel>
    decreases crashes.len(),
{
    if crashes.len() == 0 {
        Seq::empty()
    } else {
        crash_findings(crashes.drop_last()).push(crash_finding(crashes.last()))
    }
}

/// Appends one finding for each crash of a fuzz campaign.
pub fn append_crash_findings(findings: &mut Vec<Finding>, crashes: &Vec<crate::fuzzing::CrashReport>)
    ensures
        crate::findings_added(
            old(findings).deep_view(),
            final(findings).deep_view(),
            crash_findings(crashes.deep_view()),
        ),
{
    let ghost before = findings.deep_view();
    let ghost all = crashes.deep_view();
    let mut i: usize = 0;
    proof {
        crate::lemma_findings_added_none(before);
    }
    while i < crashes.len()
        invariant
            i <= crashes.len(),
            all == crashes.deep_view(),
            before == old(findings).deep_view(),
            crate::findings_added(before, findings.deep_view(), crash_findings(all.take(i as int))),
        decreases crashes.len() - i,
    {
        let crash = &crashes[i];
        let ghost had = findings.deep_view();
        let severity = match crash.severity {
            crate::fuzzing::CrashSeverity::Critical => Severity::Critical,
            crate::fuzzing::CrashSeverity::High => Severity::High,
            crate::fuzzing::CrashSeverity::Medium => Severity::Medium,
            crate::fuzzing::CrashSeverity::Low => Severity::Low,
        };
        let label = crate::fuzzing::label_of_crash(&crash.crash_type);
        let item = Finding::new(
            new_id(),
            FindingType::CrashProne,
            severity,
            join2("Fuzzing Crash: ", label.as_str()),
            crash.error_message.clone(),
            crash.crash_location.clone(),
            crate::no_entries(),
            900_000,
        );
        findings.push(item);
        proof {
            assert(findings.deep_view() =~= had.push(item.deep_view()));
            crate::lemma_findings_added_push(before, had, crash_findings(all.take(i as int)), item.deep_view());
            assert(all.take(i + 1).drop_last() == all.take(i as int));
            assert(all.take(i + 1).last() == crash.deep_view());
        }
        i += 1;
    }
    assert(all.take(crashes.len() as int) == all);
}

/// How a validation came to its end.
#[derive(Debug, Clone, Copy, PartialEq, Eq, Structural)]
pub enum Outcome {
    /// The pipeline ran through.
    Completed,
    /// The validation could not be carried out.
    Failed,
    /// The validation ran longer than it may.
    TimedOut,
    /// The validation was cancelled from outside.
    Cancelled,
}

/// The status a validation ends in.
pub open spec fn status_of(outcome: Outcome) -> ValidationStatus {
    match outcome {
        Outcome::Completed => ValidationStatus::Completed,
        Outcome::Failed => ValidationStatus::Failed,
        Outcome::TimedOut => ValidationStatus::Timeout,
        Outcome::Cancelled => ValidationStatus::Cancelled,
    }
}

/// The time from `started` to `completed` in milliseconds, zero when the
/// clock went backwards.
pub open spec fn elapsed(started: i64, completed: i64) -> u64 {
    if completed < started {
        0
    } else {
        (completed - started) as u64
    }
}

/// The finding made when the whole validation ran out of time.
pub open spec fn timeout_finding(timeout_seconds: u64) -> FindingModel {
    FindingModel {
        id: Seq::empty(),
        finding_type: FindingType::RuntimeError,
        severity: Severity::High,
        title: "Validation Timeout"@,
        description: "Runtime validation exceeded "@ + decimal_digits(timeout_seconds as nat)
            + " seconds timeout"@,
        file: None,
        line: None,
        evidence: Seq::empty(),
        confidence: 1_000_000,
    }
}

/// The finding made when the validation could not be carried out.
pub open spec fn failure_finding(failure: Seq<char>) -> FindingModel {
    FindingModel {
        id: Seq::empty(),
        finding_type: FindingType::RuntimeError,
        severity: Severity::Critical,
        title: "Validation Execution Failed"@,
        description: "Runtime validation failed: "@ + failure,
        file: None,
        line: None,
        evidence: Seq::empty(),
        confidence: 1_000_000,
    }
}

/// The finding that the end of a validation adds: one for a timeout, one
/// for a failure, none otherwise.
pub open spec fn closing_findings(outcome: Outcome, failure: Seq<char>, timeout_seconds: u64) -> Seq<FindingModel> {
    match outcome {
        Outcome::TimedOut => seq![timeout_finding(timeout_seconds)],
        Outcome::Failed => seq![failure_finding(failure)],
        _ => Seq::empty(),
    }
}

/// Brings a result to its end: the status of the outcome, the instant and
/// the duration, the finding that the outcome calls for, the overall score
/// and the recommendations.
pub fn conclude(
    result: &mut ValidationResult,
    outcome: Outcome,
    failure: &str,
    timeout_seconds: u64,
    completed_at: i64,
)
    ensures
        final(result).status == status_of(outcome),
        is_terminal(final(result).status),
        final(result).completed_at == Some(completed_at),
        final(result).duration == Some(elapsed(old(result).started_at, completed_at)),
        crate::findings_added(
            old(result).findings.deep_view(),
            final(result).findings.deep_view(),
            closing_findings(outcome, failure@, timeout_seconds),
        ),
        final(result).overall_score == weighted_score(default_weights(), final(result).deep_view()),
        final(result).overall_score <= 100_000_000,
        anonymous_recommendations(final(result).recommendations.deep_view()) == recommendations_for(
            final(result).deep_view(),
        ),
        final(result).validation_id == old(result).validation_id,
        final(result).codebase_id == old(result).codebase_id,
        final(result).started_at == old(result).started_at,
        final(result).security_result == old(result).security_result,
        final(result).performance_metrics == old(result).performance_metrics,
        final(result).fuzzing_result == old(result).fuzzing_result,
        final(result).metadata == old(result).metadata,
{
    let ghost before = result.findings.deep_view();
    proof {
        crate::lemma_findings_added_none(before);
    }
    match outcome {
        Outcome::Completed => {
            result.status = ValidationStatus::Completed;
        },
        Outcome::Cancelled => {
            result.status = ValidationStatus::Cancelled;
        },
        Outcome::Failed => {
            result.status = ValidationStatus::Failed;
            let item = Finding::new(
                new_id(),
                FindingType::RuntimeError,
                Severity::Critical,
                String::from_str("Validation Execution Failed"),
                join2("Runtime validation failed: ", failure),
                None,
                crate::no_entries(),
                1_000_000,
            );
            result.findings.push(item);
            proof {
                assert(result.findings.deep_view() =~= before.push(item.deep_view()));
                crate::lemma_findings_added_push(before, before, Seq::empty(), item.deep_view());
                assert(Seq::<FindingModel>::empty().push(item.deep_view().anonymous()) =~= seq![
                    failure_finding(failure@),
                ]);
            }
        },
        Outcome::TimedOut => {
            result.status = ValidationStatus::Timeout;
            let seconds = decimal(timeout_seconds);
            let item = Finding::new(
                new_id(),
                FindingType::RuntimeError,
                Severity::High,
                String::from_str("Validation Timeout"),
                join3("Runtime validation exceeded ", seconds.as_str(), " seconds timeout"),
                None,
                crate::no_entries(),
                1_000_000,
            );
            result.findings.push(item);
            proof {
                assert(result.findings.deep_view() =~= before.push(item.deep_view()));
                crate::lemma_findings_added_push(before, before, Seq::empty(), item.deep_view());
                assert(Seq::<FindingModel>::empty().push(item.deep_view().anonymous()) =~= seq![
                    timeout_finding(timeout_seconds),
                ]);
            }
        },
    }
    result.completed_at = Some(completed_at);
    result.duration = Some(
        if completed_at < result.started_at {
            0
        } else {
            (completed_at as i128 - result.started_at as i128) as u64
        },
    );
    let aggregator = ResultAggregator::new();
    let score = aggregator.calculate_weighted_score(result);
    let recommendations = aggregator.generate_recommendations(result);
    result.overall_score = score;
    result.recommendations = recommendations;
}

/// The time a whole validation may take, in milliseconds: the container's
/// timeout, and never more than the longest validation time.
pub open spec fn global_timeout(config: RuntimeConfigModel) -> u64 {
    let container = if config.container.timeout_seconds > u64::MAX / 1000 {
        u64::MAX
    } else {
        (config.container.timeout_seconds * 1000) as u64
    };
    if container < config.validation.max_validation_time {
        container
    } else {
        config.validation.max_validation_time
    }
}

impl ValidationOrchestrator {
    /// The time a whole validation may take, in milliseconds.
    pub fn global_timeout_ms(&self) -> (r: u64)
        ensures
            r == global_timeout(self.config.deep_view()),
            r <= self.config.validation.max_validation_time,
    {
        let container: u64 = if self.config.container.timeout_seconds > u64::MAX / 1000 {
            u64::MAX
        } else {
            self.config.container.timeout_seconds * 1000
        };
        if container < self.config.validation.max_validation_time {
            container
        } else {
            self.config.validation.max_validation_time
        }
    }

    /// Whether a validation that started at `started_at` has used up its
    /// time at the instant `now`.
    pub fn has_timed_out(&self, started_at: i64, now: i64) -> (r: bool)
        ensures
            r == (elapsed(started_at, now) >= global_timeout(self.config.deep_view())),
    {
        let used: u64 = if now < started_at {
            0
        } else {
            (now as i128 - started_at as i128) as u64
        };
        used >= self.global_timeout_ms()
    }

    /// Computes the overall score and the recommendations of a result.
    pub fn aggregate_results(&self, result: &mut ValidationResult)
        ensures
            final(result).overall_score == weighted_score(default_weights(), final(result).deep_view()),
            final(result).overall_score <= 100_000_000,
            anonymous_recommendations(final(result).recommendations.deep_view()) == recommendations_for(
                final(result).deep_view(),
            ),
            final(result).validation_id == old(result).validation_id,
            final(result).codebase_id == old(result).codebase_id,
            final(result).status == old(result).status,
            final(result).started_at == old(result).started_at,
            final(result).completed_at == old(result).completed_at,
            final(result).duration == old(result).duration,
            final(result).security_result == old(result).security_result,
            final(result).performance_metrics == old(result).performance_metrics,
            final(result).fuzzing_result == old(result).fuzzing_result,
            final(result).findings == old(result).findings,
            final(result).metadata == old(result).metadata,
    {
        let aggregator = ResultAggregator::new();
        let score = aggregator.calculate_weighted_score(result);
        let recommendations = aggregator.generate_recommendations(result);
        result.overall_score = score;
        result.recommendations = recommendations;
    }

    /// The overall score of a result, in millionths of a point.
    pub fn calculate_overall_score(&self, result: &ValidationResult) -> (r: u64)
        ensures
            r == weighted_score(default_weights(), result.deep_view()),
            r <= 100_000_000,
    {
        ResultAggregator::new().calculate_weighted_score(result)
    }

    /// Ends a validation: concludes its result and takes its session out of
    /// the registry.
    pub fn complete_validation(
        &mut self,
        result: &mut ValidationResult,
        outcome: Outcome,
        failure: &str,
        completed_at: i64,
    )
        requires
            old(self).wf(),
        ensures
            final(self).wf(),
            final(self).config == old(self).config,
            final(self).active_validations.deep_view() == without_session(
                old(self).active_validations.deep_view(),
                old(result).validation_id@,
            ),
            !has_session(final(self).active_validations.deep_view(), final(result).validation_id@),
            final(result).status == status_of(outcome),
            is_terminal(final(result).status),
            final(result).completed_at == Some(completed_at),
            final(result).duration == Some(elapsed(old(result).started_at, completed_at)),
            crate::findings_added(
                old(result).findings.deep_view(),
                final(result).findings.deep_view(),
                closing_findings(outcome, failure@, old(self).config.container.timeout_seconds),
            ),
            final(result).overall_score == weighted_score(default_weights(), final(result).deep_view()),
            final(result).overall_score <= 100_000_000,
            anonymous_recommendations(final(result).recommendations.deep_view()) == recommendations_for(
                final(result).deep_view(),
            ),
            final(result).validation_id == old(result).validation_id,
            final(result).codebase_id == old(result).codebase_id,
            final(result).started_at == old(result).started_at,
            final(result).security_result == old(result).security_result,
            final(result).performance_metrics == old(result).performance_metrics,
            final(result).fuzzing_result == old(result).fuzzing_result,
            final(result).metadata == old(result).metadata,
    {
        conclude(result, outcome, failure, self.config.container.timeout_seconds, completed_at);
        self.remove_session(result.validation_id.as_str());
    }
}

/// The duration of a concluded validation is the time between its two
/// instants, to the millisecond, whenever the clock did not go backwards.
pub proof fn lemma_duration_is_the_difference(started: i64, completed: i64)
    requires
        started <= completed,
    ensures
        started + elapsed(started, completed) == completed,
{
}

/// The name a phase is written with.
pub open spec fn phase_name(phase: ValidationPhase) -> Seq<char> {
    match phase {
        ValidationPhase::Initialization => "Initialization"@,
        ValidationPhase::EnvironmentSetup => "EnvironmentSetup"@,
        ValidationPhase::StaticAnalysis => "StaticAnalysis"@,
        ValidationPhase::SecurityScanning => "SecurityScanning"@,
        ValidationPhase::RuntimeExecution => "RuntimeExecution"@,
        ValidationPhase::PerformanceProfiling => "PerformanceProfiling"@,
        ValidationPhase::FuzzTesting => "FuzzTesting"@,
        ValidationPhase::ResultAggregation => "ResultAggregation"@,
        ValidationPhase::Cleanup => "Cleanup"@,
        ValidationPhase::Completed => "Completed"@,
    }
}

/// The name a phase is written with.
pub fn name_of_phase(phase: ValidationPhase) -> (r: String)
    ensures
        r@ == phase_name(phase),
{
    match phase {
        ValidationPhase::Initialization => String::from_str("Initialization"),
        ValidationPhase::EnvironmentSetup => String::from_str("EnvironmentSetup"),
        ValidationPhase::StaticAnalysis => String::from_str("StaticAnalysis"),
        ValidationPhase::SecurityScanning => String::from_str("SecurityScanning"),
        ValidationPhase::RuntimeExecution => String::from_str("RuntimeExecution"),
        ValidationPhase::PerformanceProfiling => String::from_str("PerformanceProfiling"),
        ValidationPhase::FuzzTesting => String::from_str("FuzzTesting"),
        ValidationPhase::ResultAggregation => String::from_str("ResultAggregation"),
        ValidationPhase::Cleanup => String::from_str("Cleanup"),
        ValidationPhase::Completed => String::from_str("Completed"),
    }
}

/// The finding made when a phase ran longer than it may.
pub open spec fn phase_timeout_finding(phase: ValidationPhase, limit_seconds: u64) -> FindingModel {
    FindingModel {
        id: Seq::empty(),
        finding_type: FindingType::PerformanceIssue,
        severity: Severity::Medium,
        title: "Phase Timeout"@,
        description: "Phase "@ + phase_name(phase) + " exceeded "@ + decimal_digits(limit_seconds as nat)
            + " seconds"@,
        file: None,
        line: None,
        evidence: Seq::empty(),
        confidence: 1_000_000,
    }
}

/// The finding made when a phase failed.
pub open spec fn phase_failure_finding(phase: ValidationPhase, reason: Seq<char>) -> FindingModel {
    FindingModel {
        id: Seq::empty(),
        finding_type: FindingType::RuntimeError,
        severity: Severity::High,
        title: "Phase Failed"@,
        description: "Phase "@ + phase_name(phase) + " failed: "@ + reason,
        file: None,
        line: None,
        evidence: Seq::empty(),
        confidence: 1_000_000,
    }
}

/// The finding that the outcome of a phase calls for: one for a phase that
/// ran out of time, one for a phase that failed, none otherwise.
pub open spec fn phase_findings(
    phase: ValidationPhase,
    event: PipelineEvent,
    limit_seconds: u64,
    reason: Seq<char>,
) -> Seq<FindingModel> {
    match event {
        PipelineEvent::TimedOut => seq![phase_timeout_finding(phase, limit_seconds)],
        PipelineEvent::Failed => seq![phase_failure_finding(phase, reason)],
        _ => Seq::empty(),
    }
}

/// Appends the finding that the outcome of a phase calls for.
pub fn append_phase_findings(
    findings: &mut Vec<Finding>,
    phase: ValidationPhase,
    event: PipelineEvent,
    limit_seconds: u64,
    reason: &str,
)
    ensures
        crate::findings_added(
            old(findings).deep_view(),
            final(findings).deep_view(),
            phase_findings(phase, event, limit_seconds, reason@),
        ),
{
    let ghost before = findings.deep_view();
    proof {
        crate::lemma_findings_added_none(before);
    }
    let name = name_of_phase(phase);
    match event {
        PipelineEvent::TimedOut => {
            let seconds = decimal(limit_seconds);
            let item = Finding::new(
                new_id(),
                FindingType::PerformanceIssue,
                Severity::Medium,
                String::from_str("Phase Timeout"),
                crate::text::join5("Phase ", name.as_str(), " exceeded ", seconds.as_str(), " seconds"),
                None,
                crate::no_entries(),
                1_000_000,
            );
            findings.push(item);
            proof {
                assert(findings.deep_view() =~= before.push(item.deep_view()));
                crate::lemma_findings_added_push(before, before, Seq::empty(), item.deep_view());
                assert(Seq::<FindingModel>::empty().push(item.deep_view().anonymous()) =~= seq![
                    phase_timeout_finding(phase, limit_seconds),
                ]);
            }
        },
        PipelineEvent::Failed => {
            let head = join3("Phase ", name.as_str(), " failed: ");
            let item = Finding::new(
                new_id(),
                FindingType::RuntimeError,
                Severity::High,
                String::from_str("Phase Failed"),
                join2(head.as_str(), reason),
                None,
                crate::no_entries(),
                1_000_000,
            );
            findings.push(item);
            proof {
                assert(findings.deep_view() =~= before.push(item.deep_view()));
                crate::lemma_findings_added_push(before, before, Seq::empty(), item.deep_view());
                assert(Seq::<FindingModel>::empty().push(item.deep_view().anonymous()) =~= seq![
                    phase_failure_finding(phase, reason@),
                ]);
            }
        },
        _ => {},
    }
}

/// The kinds of error a validation can meet.
#[derive(Debug, Clone, Copy, PartialEq, Eq, Structural)]
pub enum ErrorKind {
    /// The container runtime cannot be reached or has no matching image.
    RuntimeUnavailable,
    /// The host could not create or write the workspace.
    WorkspaceError,
    /// A container could not be created, started or made to run the command.
    ExecutionError,
    /// A phase ran longer than it may.
    PhaseTimeout,
    /// The whole validation ran longer than it may.
    GlobalTimeout,
    /// The code broke the runtime policy.
    PolicyViolation,
    /// The configuration could not be read.
    ConfigError,
}

/// What becomes of a validation that meets an error.
#[derive(Debug, Clone, Copy, PartialEq, Eq, Structural)]
pub enum Disposition {
    /// The program ends before any validation begins.
    RefuseToStart,
    /// The validation ends as failed; cleanup runs.
    FailValidation,
    /// The validation ends as timed out; cleanup runs.
    EndAsTimeout,
    /// A finding is recorded and the pipeline goes on.
    RecordFinding,
}

/// What becomes of a validation that meets an error of the given kind.
pub open spec fn disposition_of(kind: ErrorKind) -> Disposition {
    match kind {
        ErrorKind::RuntimeUnavailable => Disposition::RefuseToStart,
        ErrorKind::ConfigError => Disposition::RefuseToStart,
        ErrorKind::WorkspaceError => Disposition::FailValidation,
        ErrorKind::GlobalTimeout => Disposition::EndAsTimeout,
        ErrorKind::ExecutionError => Disposition::RecordFinding,
        ErrorKind::PhaseTimeout => Disposition::RecordFinding,
        ErrorKind::PolicyViolation => Disposition::RecordFinding,
    }
}

impl ErrorKind {
    /// What becomes of a validation that meets an error of this kind.
    pub fn disposition(self) -> (r: Disposition)
        ensures
            r == disposition_of(self),
    {
        match self {
            ErrorKind::RuntimeUnavailable => Disposition::RefuseToStart,
            ErrorKind::ConfigError => Disposition::RefuseToStart,
            ErrorKind::WorkspaceError => Disposition::FailValidation,
            ErrorKind::GlobalTimeout => Disposition::EndAsTimeout,
            ErrorKind::ExecutionError => Disposition::RecordFinding,
            ErrorKind::PhaseTimeout => Disposition::RecordFinding,
            ErrorKind::PolicyViolation => Disposition::RecordFinding,
        }
    }

    /// The event that an error of this kind is for the pipeline.
    pub fn event(self) -> (r: PipelineEvent)
        ensures
            r == (match self {
                ErrorKind::GlobalTimeout => PipelineEvent::GlobalTimeout,
                ErrorKind::PhaseTimeout => PipelineEvent::TimedOut,
                ErrorKind::PolicyViolation => PipelineEvent::Succeeded,
                _ => PipelineEvent::Failed,
            }),
    {
        match self {
            ErrorKind::GlobalTimeout => PipelineEvent::GlobalTimeout,
            ErrorKind::PhaseTimeout => PipelineEvent::TimedOut,
            ErrorKind::PolicyViolation => PipelineEvent::Succeeded,
            _ => PipelineEvent::Failed,
        }
    }
}

impl ValidationOrchestrator {
    /// Tests whether the registry is well formed.
    pub fn is_well_formed(&self) -> (r: bool)
        ensures
            r == self.wf(),
    {
        let ghost sessions = self.active_validations.deep_view();
        let mut j: usize = 0;
        while j < self.active_validations.len()
            invariant
                j <= self.active_validations.len(),
                sessions == self.active_validations.deep_view(),
                forall|a: int, b: int|
                    0 <= a < b < j ==> (#[trigger] sessions[a]).validation_id != (
                    #[trigger] sessions[b]).validation_id,
            decreases self.active_validations.len() - j,
        {
            let mut i: usize = 0;
            while i < j
                invariant
                    i <= j < self.active_validations.len(),
                    sessions == self.active_validations.deep_view(),
                    forall|a: int| 0 <= a < i ==> (#[trigger] sessions[a]).validation_id != sessions[j as int].validation_id,
                decreases j - i,
            {
                if same_text(
                    self.active_validations[i].validation_id.as_str(),
                    self.active_validations[j].validation_id.as_str(),
                ) {
                    assert(sessions[i as int].validation_id == sessions[j as int].validation_id);
                    return false;
                }
                i += 1;
            }
            j += 1;
        }
        true
    }
}

impl Outcome {
    /// The outcome that a pipeline's last status stands for. A pipeline
    /// that did not reach one of the four ends counts as failed.
    pub fn of_status(status: ValidationStatus) -> (r: Outcome)
        ensures
            is_terminal(status) ==> status_of(r) == status,
            !is_terminal(status) ==> r == Outcome::Failed,
    {
        match status {
            ValidationStatus::Completed => Outcome::Completed,
            ValidationStatus::Timeout => Outcome::TimedOut,
            ValidationStatus::Cancelled => Outcome::Cancelled,
            _ => Outcome::Failed,
        }
    }
}

} // verus!
