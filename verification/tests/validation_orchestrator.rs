use kwality_runtime_validator::container::{ContainerManager, ExecutionResult, ResourceUsage};
use kwality_runtime_validator::fuzzing::{CrashReport, CrashSeverity, CrashType};
use kwality_runtime_validator::performance::PerformanceMetrics;
use kwality_runtime_validator::security::{
    SecurityResult, SecurityViolation, ViolationSeverity, ViolationType,
};
use kwality_runtime_validator::validation::{
    append_crash_findings, append_profiling_findings, append_runtime_findings,
    append_violation_findings, can_transition, conclude, Outcome, PipelineEvent, PipelineState,
    ResultAggregator, RetryConfig, ValidationOrchestrator, ValidationPhase, ValidationProgress,
};
use kwality_runtime_validator::{
    CodeFile, Codebase, DataValue, EffortLevel, FileType, Finding, FindingType, ImpactLevel,
    Priority, RuntimeConfig, Severity, ValidationResult, ValidationStatus,
};

fn codebase(files: usize) -> Codebase {
    Codebase {
        id: "cb-9".to_string(),
        name: "demo".to_string(),
        files: (0..files)
            .map(|i| CodeFile {
                path: format!("f{}.py", i),
                content: String::new(),
                language: None,
                file_type: FileType::Source,
                size: 0,
            })
            .collect(),
        metadata: Vec::new(),
    }
}

fn result() -> ValidationResult {
    ValidationResult {
        validation_id: "v-1".to_string(),
        codebase_id: "cb-9".to_string(),
        status: ValidationStatus::Running,
        started_at: 1_000,
        completed_at: None,
        duration: None,
        overall_score: 0,
        security_result: SecurityResult::default(),
        performance_metrics: PerformanceMetrics::default(),
        fuzzing_result: None,
        findings: Vec::new(),
        recommendations: Vec::new(),
        metadata: Vec::new(),
    }
}

fn finding(kind: FindingType) -> Finding {
    Finding {
        id: "f".to_string(),
        finding_type: kind,
        severity: Severity::Low,
        title: "t".to_string(),
        description: "d".to_string(),
        file: None,
        line: None,
        evidence: Vec::new(),
        confidence: 1_000_000,
    }
}

fn orchestrator() -> ValidationOrchestrator {
    ValidationOrchestrator::new(RuntimeConfig::default())
}

#[test]
fn weighted_score_of_a_clean_run() {
    let mut r = result();
    r.security_result.security_score = 100_000_000;
    let aggregator = ResultAggregator::new();
    assert_eq!(aggregator.calculate_performance_score(&r.performance_metrics), 100_000_000);
    assert_eq!(aggregator.calculate_weighted_score(&r), 100_000_000);
}

#[test]
fn weighted_score_combines_the_five_scores() {
    let mut r = result();
    r.security_result.security_score = 80_000_000;
    r.performance_metrics.cpu_usage_percent = 40_000_000;
    r.performance_metrics.memory_usage_mb = 200;
    r.findings = vec![
        finding(FindingType::RuntimeError),
        finding(FindingType::CrashProne),
        finding(FindingType::PerformanceIssue),
    ];
    let aggregator = ResultAggregator::new();
    assert_eq!(aggregator.calculate_performance_score(&r.performance_metrics), 70_000_000);
    assert_eq!(aggregator.calculate_functionality_score(&r), 80_000_000);
    assert_eq!(aggregator.calculate_quality_score(&r), 85_000_000);
    assert_eq!(aggregator.calculate_reliability_score(&r), 75_000_000);
    assert_eq!(aggregator.calculate_weighted_score(&r), 78_250_000);
}

#[test]
fn scores_stop_at_zero_and_the_total_at_one_hundred() {
    let mut r = result();
    r.performance_metrics.cpu_usage_percent = 250_000_000;
    r.performance_metrics.memory_usage_mb = 5_000;
    r.findings = (0..30).map(|_| finding(FindingType::RuntimeError)).collect();
    let mut aggregator = ResultAggregator::new();
    assert_eq!(aggregator.calculate_performance_score(&r.performance_metrics), 0);
    assert_eq!(aggregator.calculate_functionality_score(&r), 0);
    assert_eq!(aggregator.calculate_quality_score(&r), 0);
    assert_eq!(aggregator.calculate_reliability_score(&r), 100_000_000);
    assert_eq!(aggregator.calculate_weighted_score(&r), 10_000_000);
    r.security_result.security_score = u64::MAX;
    aggregator.weight_config.security_weight = u64::MAX;
    aggregator.weight_config.reliability_weight = u64::MAX;
    assert_eq!(aggregator.calculate_weighted_score(&r), 100_000_000);
}

#[test]
fn odd_performance_score_rounds_down() {
    let mut metrics = PerformanceMetrics::default();
    metrics.cpu_usage_percent = 1;
    let aggregator = ResultAggregator::new();
    assert_eq!(aggregator.calculate_performance_score(&metrics), 99_999_999);
}

#[test]
fn recommendations_by_threshold() {
    let aggregator = ResultAggregator::new();
    let mut r = result();
    r.security_result.security_score = 70_000_000;
    r.performance_metrics.cpu_usage_percent = 80_000_000;
    r.performance_metrics.memory_usage_mb = 100;
    assert!(aggregator.generate_recommendations(&r).is_empty());
    r.security_result.security_score = 69_999_999;
    r.performance_metrics.cpu_usage_percent = 80_000_001;
    r.performance_metrics.memory_usage_mb = 600;
    let all = aggregator.generate_recommendations(&r);
    assert_eq!(all.len(), 3);
    assert_eq!(all[0].title, "Improve Security Posture");
    assert_eq!(all[0].priority, Priority::Critical);
    assert_eq!(all[0].effort, EffortLevel::High);
    assert_eq!(all[0].impact, ImpactLevel::Critical);
    assert_eq!(all[1].title, "Optimize Performance");
    assert_eq!(all[1].priority, Priority::Medium);
    assert_eq!(all[2].title, "Reduce Memory Usage");
    assert_eq!(all[2].priority, Priority::Medium);
    assert_ne!(all[0].id, all[1].id);
}

#[test]
fn status_moves_only_forward() {
    let all = [
        ValidationStatus::Pending,
        ValidationStatus::Running,
        ValidationStatus::Completed,
        ValidationStatus::Failed,
        ValidationStatus::Timeout,
        ValidationStatus::Cancelled,
    ];
    for from in all {
        for to in all {
            let ends = to != ValidationStatus::Pending && to != ValidationStatus::Running;
            let allowed = (from == ValidationStatus::Pending && to == ValidationStatus::Running)
                || (from == ValidationStatus::Running && ends);
            assert_eq!(can_transition(from, to), allowed);
        }
    }
}

#[test]
fn registry_holds_a_session_until_the_validation_ends() {
    let mut o = orchestrator();
    let id = o.start_validation(&codebase(3), 5_000);
    assert!(!id.is_empty());
    let session = o.get_validation_status(&id).unwrap();
    assert_eq!(session.validation_id, id);
    assert_eq!(session.codebase_id, "cb-9");
    assert_eq!(session.status, ValidationStatus::Running);
    assert_eq!(session.started_at, 5_000);
    assert_eq!(session.estimated_completion, Some(125_000));
    assert_eq!(session.progress.current_phase, ValidationPhase::Initialization);
    assert_eq!(session.progress.overall_progress, 0);
    assert_eq!(session.progress.estimated_time_remaining, Some(300_000));
    assert_eq!(o.list_active_validations().len(), 1);
    assert!(o.get_validation_status("other").is_none());

    let mut r = result();
    r.validation_id = id.clone();
    o.complete_validation(&mut r, Outcome::Completed, "", 9_000);
    assert!(o.get_validation_status(&id).is_none());
    assert!(o.list_active_validations().is_empty());
    assert_eq!(r.status, ValidationStatus::Completed);
    assert_eq!(r.duration, Some(8_000));
}

#[test]
fn registering_an_identifier_again_replaces_the_session() {
    let mut o = orchestrator();
    o.register("a", &codebase(1), 1);
    o.register("b", &codebase(1), 2);
    o.register("a", &codebase(60), 3);
    let all = o.list_active_validations();
    assert_eq!(all.len(), 2);
    assert_eq!(all[0].validation_id, "b");
    assert_eq!(all[1].validation_id, "a");
    assert_eq!(all[1].started_at, 3);
    assert_eq!(all[1].estimated_completion, Some(600_003));
    o.mark_validation_failed("b");
    assert!(o.get_validation_status("b").is_none());
    assert_eq!(o.list_active_validations().len(), 1);
    o.mark_validation_failed("missing");
    assert_eq!(o.list_active_validations().len(), 1);
}

#[test]
fn completion_estimate_grows_with_the_codebase() {
    let o = orchestrator();
    assert_eq!(o.estimate_completion_time(&codebase(0), 0), Some(120_000));
    assert_eq!(o.estimate_completion_time(&codebase(10), 0), Some(120_000));
    assert_eq!(o.estimate_completion_time(&codebase(11), 0), Some(300_000));
    assert_eq!(o.estimate_completion_time(&codebase(50), 0), Some(300_000));
    assert_eq!(o.estimate_completion_time(&codebase(51), 0), Some(600_000));
    assert_eq!(o.estimate_completion_time(&codebase(101), 7), Some(900_007));
    assert_eq!(o.estimate_completion_time(&codebase(1), i64::MAX - 5), Some(i64::MAX));
}

#[test]
fn cancelling_marks_a_running_session() {
    let mut o = orchestrator();
    o.register("a", &codebase(1), 1);
    assert!(!o.is_cancelled("a"));
    o.cancel_validation("a");
    assert!(o.is_cancelled("a"));
    assert_eq!(o.get_validation_status("a").unwrap().status, ValidationStatus::Cancelled);
    o.cancel_validation("a");
    assert_eq!(o.get_validation_status("a").unwrap().status, ValidationStatus::Cancelled);
    o.cancel_validation("nobody");
    assert!(!o.is_cancelled("nobody"));
}

#[test]
fn phases_are_listed_once_and_progress_is_in_eighths() {
    let mut o = orchestrator();
    o.register("a", &codebase(1), 1);
    o.update_validation_phase("a", ValidationPhase::EnvironmentSetup);
    let p = o.get_validation_status("a").unwrap().progress;
    assert_eq!(p.current_phase, ValidationPhase::EnvironmentSetup);
    assert_eq!(p.completed_phases, vec![ValidationPhase::Initialization]);
    assert_eq!(p.overall_progress, 125_000);
    o.update_validation_phase("a", ValidationPhase::SecurityScanning);
    o.update_validation_phase("a", ValidationPhase::EnvironmentSetup);
    o.update_validation_phase("a", ValidationPhase::RuntimeExecution);
    let p = o.get_validation_status("a").unwrap().progress;
    assert_eq!(
        p.completed_phases,
        vec![
            ValidationPhase::Initialization,
            ValidationPhase::EnvironmentSetup,
            ValidationPhase::SecurityScanning,
        ]
    );
    assert_eq!(p.overall_progress, 375_000);
    o.update_validation_phase("missing", ValidationPhase::Cleanup);
    assert_eq!(o.list_active_validations().len(), 1);
}

#[test]
fn progress_never_passes_one() {
    let mut progress = ValidationProgress::default();
    assert_eq!(progress.estimated_time_remaining, None);
    let order = [
        ValidationPhase::EnvironmentSetup,
        ValidationPhase::StaticAnalysis,
        ValidationPhase::SecurityScanning,
        ValidationPhase::RuntimeExecution,
        ValidationPhase::PerformanceProfiling,
        ValidationPhase::FuzzTesting,
        ValidationPhase::ResultAggregation,
        ValidationPhase::Cleanup,
        ValidationPhase::Completed,
    ];
    let mut last = 0;
    for phase in order {
        progress.enter(phase);
        assert!(progress.overall_progress >= last);
        assert!(progress.overall_progress <= 1_000_000);
        last = progress.overall_progress;
    }
    assert_eq!(progress.completed_phases.len(), 9);
    assert_eq!(progress.overall_progress, 1_000_000);
}

#[test]
fn pipeline_runs_the_phases_in_order() {
    let mut state = PipelineState::new();
    assert_eq!(state.status, ValidationStatus::Pending);
    state = state.advance(PipelineEvent::Succeeded, true);
    assert_eq!(state.status, ValidationStatus::Running);
    let mut seen = vec![state.phase];
    while state.phase != ValidationPhase::Completed {
        state = state.advance(PipelineEvent::Succeeded, true);
        seen.push(state.phase);
    }
    assert_eq!(
        seen,
        vec![
            ValidationPhase::Initialization,
            ValidationPhase::EnvironmentSetup,
            ValidationPhase::SecurityScanning,
            ValidationPhase::RuntimeExecution,
            ValidationPhase::PerformanceProfiling,
            ValidationPhase::FuzzTesting,
            ValidationPhase::ResultAggregation,
            ValidationPhase::Cleanup,
            ValidationPhase::Completed,
        ]
    );
    assert_eq!(state.status, ValidationStatus::Completed);
    assert!(!state.environment_live);
    assert_eq!(state.advance(PipelineEvent::Failed, true), state);
}

#[test]
fn fuzzing_is_passed_over_when_disabled() {
    let mut state = PipelineState::new().advance(PipelineEvent::Succeeded, false);
    let mut seen = Vec::new();
    while state.phase != ValidationPhase::Completed {
        state = state.advance(PipelineEvent::Succeeded, false);
        seen.push(state.phase);
    }
    assert!(!seen.contains(&ValidationPhase::FuzzTesting));
    assert!(seen.contains(&ValidationPhase::Cleanup));
}

#[test]
fn every_path_ends_through_cleanup_with_nothing_left() {
    let events = [
        PipelineEvent::Succeeded,
        PipelineEvent::Failed,
        PipelineEvent::TimedOut,
        PipelineEvent::GlobalTimeout,
        PipelineEvent::Cancelled,
    ];
    for at in 0..8 {
        for event in events {
            let mut state = PipelineState::new().advance(PipelineEvent::Succeeded, true);
            let mut cleaned = false;
            let mut steps = 0;
            while state.phase != ValidationPhase::Completed {
                if state.phase == ValidationPhase::Cleanup {
                    cleaned = true;
                }
                let e = if steps == at { event } else { PipelineEvent::Succeeded };
                state = state.advance(e, true);
                steps += 1;
                assert!(steps <= 9);
            }
            assert!(cleaned);
            assert!(!state.environment_live);
            assert!(matches!(
                state.status,
                ValidationStatus::Completed
                    | ValidationStatus::Failed
                    | ValidationStatus::Timeout
                    | ValidationStatus::Cancelled
            ));
        }
    }
}

#[test]
fn verdict_follows_what_went_wrong() {
    let running = PipelineState::new().advance(PipelineEvent::Succeeded, true);
    let setup = running.advance(PipelineEvent::Succeeded, true);
    assert_eq!(setup.phase, ValidationPhase::EnvironmentSetup);
    assert!(setup.environment_live);
    let failed = setup.advance(PipelineEvent::Failed, true);
    assert_eq!(failed.phase, ValidationPhase::Cleanup);
    assert_eq!(failed.advance(PipelineEvent::Succeeded, true).status, ValidationStatus::Failed);
    let scanning = setup.advance(PipelineEvent::Succeeded, true);
    let after_timeout = scanning.advance(PipelineEvent::TimedOut, true);
    assert_eq!(after_timeout.phase, ValidationPhase::RuntimeExecution);
    let timed_out = scanning.advance(PipelineEvent::GlobalTimeout, true);
    assert_eq!(timed_out.phase, ValidationPhase::Cleanup);
    assert!(timed_out.environment_live);
    let end = timed_out.advance(PipelineEvent::Failed, true);
    assert_eq!(end.status, ValidationStatus::Timeout);
    assert!(!end.environment_live);
    let cancelled = scanning.advance(PipelineEvent::Cancelled, true);
    assert_eq!(cancelled.advance(PipelineEvent::Succeeded, true).status, ValidationStatus::Cancelled);
}

#[test]
fn retries_are_limited_and_double() {
    let config = orchestrator().create_validation_pipeline().retry_config;
    assert_eq!(config.max_retries, 2);
    assert_eq!(config.next_delay(0, "ContainerError"), Some(5_000));
    assert_eq!(config.next_delay(1, "NetworkError"), Some(10_000));
    assert_eq!(config.next_delay(2, "ContainerError"), None);
    assert_eq!(config.next_delay(0, "ConfigError"), None);
    let flat = RetryConfig {
        max_retries: 100,
        retry_delay: 7,
        exponential_backoff: false,
        retryable_errors: vec!["E".to_string()],
    };
    assert_eq!(flat.next_delay(50, "E"), Some(7));
    let steep = RetryConfig { exponential_backoff: true, retry_delay: 1 << 62, ..flat };
    assert_eq!(steep.next_delay(1, "E"), Some(1 << 63));
    assert_eq!(steep.next_delay(2, "E"), Some(u64::MAX));
    assert_eq!(steep.next_delay(70, "E"), Some(u64::MAX));
}

#[test]
fn pipeline_has_the_phase_timeouts() {
    let pipeline = orchestrator().create_validation_pipeline();
    assert_eq!(pipeline.phases.len(), 8);
    assert_eq!(pipeline.phases[0], ValidationPhase::Initialization);
    assert_eq!(pipeline.phases[7], ValidationPhase::Cleanup);
    assert!(!pipeline.parallel_execution);
    assert_eq!(pipeline.phase_timeout(ValidationPhase::SecurityScanning), Some(60));
    assert_eq!(pipeline.phase_timeout(ValidationPhase::RuntimeExecution), Some(120));
    assert_eq!(pipeline.phase_timeout(ValidationPhase::PerformanceProfiling), Some(90));
    assert_eq!(pipeline.phase_timeout(ValidationPhase::FuzzTesting), Some(180));
    assert_eq!(pipeline.phase_timeout(ValidationPhase::Cleanup), None);
}

#[test]
fn global_timeout_is_the_smaller_limit() {
    let mut config = RuntimeConfig::default();
    let o = ValidationOrchestrator::new(config.clone());
    assert_eq!(o.global_timeout_ms(), 300_000);
    assert!(!o.has_timed_out(1_000, 300_999));
    assert!(o.has_timed_out(1_000, 301_000));
    assert!(!o.has_timed_out(1_000, 0));
    config.validation.max_validation_time = 5_000;
    let short = ValidationOrchestrator::new(config.clone());
    assert_eq!(short.global_timeout_ms(), 5_000);
    config.container.timeout_seconds = u64::MAX;
    config.validation.max_validation_time = u64::MAX;
    assert_eq!(ValidationOrchestrator::new(config).global_timeout_ms(), u64::MAX);
}

#[test]
fn timeout_adds_exactly_one_finding() {
    let mut r = result();
    r.findings.push(finding(FindingType::PerformanceIssue));
    conclude(&mut r, Outcome::TimedOut, "", 5, 6_000);
    assert_eq!(r.status, ValidationStatus::Timeout);
    assert_eq!(r.completed_at, Some(6_000));
    assert_eq!(r.duration, Some(5_000));
    assert_eq!(r.findings.len(), 2);
    let timeouts: Vec<&Finding> =
        r.findings.iter().filter(|f| f.title == "Validation Timeout").collect();
    assert_eq!(timeouts.len(), 1);
    assert_eq!(timeouts[0].severity, Severity::High);
    assert_eq!(timeouts[0].finding_type, FindingType::RuntimeError);
    assert_eq!(timeouts[0].description, "Runtime validation exceeded 5 seconds timeout");
    assert_eq!(timeouts[0].confidence, 1_000_000);
    assert!(r.overall_score <= 100_000_000);
}

#[test]
fn failure_adds_a_critical_finding_and_cancellation_none() {
    let mut failed = result();
    conclude(&mut failed, Outcome::Failed, "docker is gone", 300, 2_000);
    assert_eq!(failed.status, ValidationStatus::Failed);
    assert_eq!(failed.findings.len(), 1);
    assert_eq!(failed.findings[0].title, "Validation Execution Failed");
    assert_eq!(failed.findings[0].severity, Severity::Critical);
    assert_eq!(failed.findings[0].description, "Runtime validation failed: docker is gone");
    let mut cancelled = result();
    conclude(&mut cancelled, Outcome::Cancelled, "", 300, 2_000);
    assert_eq!(cancelled.status, ValidationStatus::Cancelled);
    assert!(cancelled.findings.is_empty());
}

#[test]
fn duration_is_zero_when_the_clock_went_backwards() {
    let mut r = result();
    conclude(&mut r, Outcome::Completed, "", 300, 10);
    assert_eq!(r.duration, Some(0));
    let mut wide = result();
    wide.started_at = i64::MIN;
    conclude(&mut wide, Outcome::Completed, "", 300, i64::MAX);
    assert_eq!(wide.duration, Some(u64::MAX));
    assert_eq!(wide.completed_at, Some(i64::MAX));
}

#[test]
fn concluding_scores_and_recommends() {
    let mut r = result();
    r.security_result.security_score = 60_000_000;
    conclude(&mut r, Outcome::Completed, "", 300, 2_000);
    assert_eq!(r.overall_score, 18_000_000 + 20_000_000 + 25_000_000 + 15_000_000 + 10_000_000);
    assert_eq!(r.recommendations.len(), 1);
    assert_eq!(r.recommendations[0].title, "Improve Security Posture");
    let mut again = result();
    again.security_result.security_score = 60_000_000;
    orchestrator().aggregate_results(&mut again);
    assert_eq!(again.overall_score, r.overall_score);
    assert_eq!(again.status, ValidationStatus::Running);
    assert_eq!(orchestrator().calculate_overall_score(&again), r.overall_score);
}

#[test]
fn violations_become_findings() {
    let violations = vec![
        SecurityViolation {
            violation_type: ViolationType::FileSystemAccess,
            severity: ViolationSeverity::High,
            title: "Sensitive file access".to_string(),
            description: "d".to_string(),
            timestamp: 0,
            location: Some("/etc/passwd".to_string()),
            evidence: Vec::new(),
            risk_level: "critical".to_string(),
            mitigation: "m".to_string(),
        },
        SecurityViolation {
            violation_type: ViolationType::NetworkAccess,
            severity: ViolationSeverity::Low,
            title: "n".to_string(),
            description: "d".to_string(),
            timestamp: 0,
            location: None,
            evidence: Vec::new(),
            risk_level: "unheard of".to_string(),
            mitigation: "m".to_string(),
        },
    ];
    let mut findings = vec![finding(FindingType::MemoryLeak)];
    append_violation_findings(&mut findings, &violations, true, 900_000);
    assert_eq!(findings.len(), 3);
    assert_eq!(findings[0].finding_type, FindingType::MemoryLeak);
    assert_eq!(findings[1].finding_type, FindingType::SecurityVulnerability);
    assert_eq!(findings[1].severity, Severity::Critical);
    assert_eq!(findings[1].title, "Sensitive file access");
    assert_eq!(findings[1].file, Some("/etc/passwd".to_string()));
    assert_eq!(findings[1].confidence, 900_000);
    assert_eq!(findings[2].severity, Severity::Info);
    let mut without = Vec::new();
    append_violation_findings(&mut without, &violations, false, 800_000);
    assert_eq!(without[0].file, None);
    assert_eq!(without[0].confidence, 800_000);
}

#[test]
fn empty_codebase_gives_the_nothing_runnable_finding() {
    let manager = ContainerManager::new(RuntimeConfig::default().container);
    let empty = codebase(0);
    let runnable = manager.has_runnable_code(&empty);
    let execution = ExecutionResult {
        execution_id: "e".to_string(),
        exit_code: 1,
        stdout: "no runnable code detected\n".to_string(),
        stderr: String::new(),
        duration: 3,
        resource_usage: ResourceUsage::default(),
        security_events: Vec::new(),
    };
    let mut findings = Vec::new();
    append_runtime_findings(&mut findings, runnable, &execution);
    assert_eq!(findings.len(), 2);
    assert_eq!(findings[0].title, "no runnable code detected");
    assert_eq!(findings[1].title, "Runtime Execution Failed");
    assert_eq!(findings[1].description, "Code execution failed with exit code 1");
    assert_eq!(findings[1].severity, Severity::High);
    assert_eq!(findings[1].evidence[0].key, "exit_code");
    assert_eq!(findings[1].evidence[0].value, DataValue::Integer(1));
    assert_eq!(findings[1].evidence[1].value, DataValue::Text(String::new()));
    let mut r = result();
    r.findings = findings;
    conclude(&mut r, Outcome::Completed, "", 300, 2_000);
    assert_eq!(r.status, ValidationStatus::Completed);
}

#[test]
fn clean_run_gives_no_runtime_finding() {
    let execution = ExecutionResult {
        execution_id: "e".to_string(),
        exit_code: 0,
        stdout: "hi\n".to_string(),
        stderr: String::new(),
        duration: 3,
        resource_usage: ResourceUsage::default(),
        security_events: Vec::new(),
    };
    let mut findings = Vec::new();
    append_runtime_findings(&mut findings, true, &execution);
    assert!(findings.is_empty());
}

#[test]
fn busy_processor_gives_a_profiling_finding() {
    let mut metrics = PerformanceMetrics::default();
    metrics.cpu_usage_percent = 90_000_000;
    let mut findings = Vec::new();
    append_profiling_findings(&mut findings, &metrics);
    assert!(findings.is_empty());
    metrics.cpu_usage_percent = 97_260_000;
    append_profiling_findings(&mut findings, &metrics);
    assert_eq!(findings.len(), 1);
    assert_eq!(findings[0].title, "High CPU Usage");
    assert_eq!(findings[0].description, "CPU usage (97.3%) exceeds threshold");
    assert_eq!(findings[0].confidence, 800_000);
}

#[test]
fn crashes_become_crash_prone_findings() {
    let crashes = vec![
        CrashReport {
            id: "c1".to_string(),
            crash_type: CrashType::SegmentationFault,
            severity: CrashSeverity::Critical,
            reproducer_input: String::new(),
            stack_trace: "segmentation fault".to_string(),
            error_message: "segmentation fault".to_string(),
            timestamp: 0,
            crash_location: Some("main.py".to_string()),
        },
        CrashReport {
            id: "c2".to_string(),
            crash_type: CrashType::Other("Exit code 3".to_string()),
            severity: CrashSeverity::Medium,
            reproducer_input: String::new(),
            stack_trace: String::new(),
            error_message: "Process exited with code 3".to_string(),
            timestamp: 0,
            crash_location: None,
        },
    ];
    let mut findings = Vec::new();
    append_crash_findings(&mut findings, &crashes);
    assert_eq!(findings.len(), 2);
    assert_eq!(findings[0].finding_type, FindingType::CrashProne);
    assert_eq!(findings[0].severity, Severity::Critical);
    assert_eq!(findings[0].title, "Fuzzing Crash: SegmentationFault");
    assert_eq!(findings[0].description, "segmentation fault");
    assert_eq!(findings[0].file, Some("main.py".to_string()));
    assert_eq!(findings[1].title, "Fuzzing Crash: Other(\"Exit code 3\")");
    assert_eq!(findings[1].severity, Severity::Medium);
}

#[test]
fn a_phase_that_fails_or_times_out_leaves_a_finding() {
    let mut findings = Vec::new();
    kwality_runtime_validator::validation::append_phase_findings(
        &mut findings,
        ValidationPhase::FuzzTesting,
        PipelineEvent::TimedOut,
        180,
        "",
    );
    kwality_runtime_validator::validation::append_phase_findings(
        &mut findings,
        ValidationPhase::RuntimeExecution,
        PipelineEvent::Failed,
        120,
        "no such container",
    );
    kwality_runtime_validator::validation::append_phase_findings(
        &mut findings,
        ValidationPhase::Cleanup,
        PipelineEvent::Succeeded,
        0,
        "",
    );
    assert_eq!(findings.len(), 2);
    assert_eq!(findings[0].title, "Phase Timeout");
    assert_eq!(findings[0].finding_type, FindingType::PerformanceIssue);
    assert_eq!(findings[0].severity, Severity::Medium);
    assert_eq!(findings[0].description, "Phase FuzzTesting exceeded 180 seconds");
    assert_eq!(findings[1].title, "Phase Failed");
    assert_eq!(findings[1].finding_type, FindingType::RuntimeError);
    assert_eq!(findings[1].severity, Severity::High);
    assert_eq!(findings[1].description, "Phase RuntimeExecution failed: no such container");
}

#[test]
fn errors_are_fatal_or_become_findings() {
    assert_eq!(kwality_runtime_validator::validation::ErrorKind::RuntimeUnavailable.disposition(), kwality_runtime_validator::validation::Disposition::RefuseToStart);
    assert_eq!(kwality_runtime_validator::validation::ErrorKind::ConfigError.disposition(), kwality_runtime_validator::validation::Disposition::RefuseToStart);
    assert_eq!(kwality_runtime_validator::validation::ErrorKind::WorkspaceError.disposition(), kwality_runtime_validator::validation::Disposition::FailValidation);
    assert_eq!(kwality_runtime_validator::validation::ErrorKind::GlobalTimeout.disposition(), kwality_runtime_validator::validation::Disposition::EndAsTimeout);
    assert_eq!(kwality_runtime_validator::validation::ErrorKind::ExecutionError.disposition(), kwality_runtime_validator::validation::Disposition::RecordFinding);
    assert_eq!(kwality_runtime_validator::validation::ErrorKind::PhaseTimeout.disposition(), kwality_runtime_validator::validation::Disposition::RecordFinding);
    assert_eq!(kwality_runtime_validator::validation::ErrorKind::PolicyViolation.disposition(), kwality_runtime_validator::validation::Disposition::RecordFinding);
    assert_eq!(kwality_runtime_validator::validation::ErrorKind::GlobalTimeout.event(), PipelineEvent::GlobalTimeout);
    assert_eq!(kwality_runtime_validator::validation::ErrorKind::PhaseTimeout.event(), PipelineEvent::TimedOut);
    assert_eq!(kwality_runtime_validator::validation::ErrorKind::WorkspaceError.event(), PipelineEvent::Failed);
    assert_eq!(kwality_runtime_validator::validation::ErrorKind::PolicyViolation.event(), PipelineEvent::Succeeded);
}

#[test]
fn registry_check_finds_a_repeated_identifier() {
    let mut o = orchestrator();
    assert!(o.is_well_formed());
    o.register("a", &codebase(1), 1);
    o.register("b", &codebase(1), 2);
    assert!(o.is_well_formed());
    let copy = o.active_validations[0].clone();
    o.active_validations.push(copy);
    assert!(!o.is_well_formed());
}

#[test]
fn outcome_of_the_last_status() {
    assert_eq!(Outcome::of_status(ValidationStatus::Completed), Outcome::Completed);
    assert_eq!(Outcome::of_status(ValidationStatus::Timeout), Outcome::TimedOut);
    assert_eq!(Outcome::of_status(ValidationStatus::Cancelled), Outcome::Cancelled);
    assert_eq!(Outcome::of_status(ValidationStatus::Failed), Outcome::Failed);
    assert_eq!(Outcome::of_status(ValidationStatus::Running), Outcome::Failed);
    assert_eq!(Outcome::of_status(ValidationStatus::Pending), Outcome::Failed);
}
