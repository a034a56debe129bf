use kwality_runtime_validator::container::{ExecutionResult, ResourceUsage};
use kwality_runtime_validator::security::{
    SecurityViolation, ViolationSeverity, ViolationType,
};
use kwality_runtime_validator::validation::{conclude, Outcome};
use kwality_runtime_validator::{
    error_patterns, line_number, severity_from_risk, CodeFile, Codebase, DataValue, FileType,
    Finding, FindingType, FuzzingStrategy, RuntimeConfig, RuntimeValidator, Severity,
    ValidationStatus, FULL_SCORE, MICRO,
};

fn validator() -> RuntimeValidator {
    RuntimeValidator::new(RuntimeConfig::default())
}

fn codebase() -> Codebase {
    Codebase {
        id: "cb-7".to_string(),
        name: "hello".to_string(),
        files: vec![CodeFile {
            path: "main.py".to_string(),
            content: "print(\"hi\")".to_string(),
            language: Some("python".to_string()),
            file_type: FileType::Source,
            size: 11,
        }],
        metadata: Vec::new(),
    }
}

fn execution(exit_code: i64, stdout: &str, stderr: &str) -> ExecutionResult {
    ExecutionResult {
        execution_id: "e".to_string(),
        exit_code,
        stdout: stdout.to_string(),
        stderr: stderr.to_string(),
        duration: 12,
        resource_usage: ResourceUsage::default(),
        security_events: Vec::new(),
    }
}

#[test]
fn units() {
    assert_eq!(MICRO, 1_000_000);
    assert_eq!(FULL_SCORE, 100 * MICRO);
}

#[test]
fn default_configuration() {
    let config = RuntimeConfig::default();
    assert_eq!(config.container.image, "kwality/runner:latest");
    assert_eq!(config.container.memory_limit_mb, 512);
    assert_eq!(config.container.cpu_limit_cores, 1_000_000);
    assert_eq!(config.container.timeout_seconds, 300);
    assert!(config.container.network_isolation);
    assert!(!config.container.readonly_filesystem);
    assert_eq!(config.container.temp_dir_size_mb, 100);
    assert!(config.container.environment.is_empty());
    assert_eq!(config.container.security_opts, vec!["no-new-privileges"]);
    assert_eq!(config.performance.benchmark_iterations, 3);
    assert_eq!(config.performance.thresholds.max_execution_time_ms, 10_000);
    assert_eq!(config.performance.thresholds.max_memory_usage_mb, 256);
    assert_eq!(config.performance.thresholds.max_cpu_usage_percent, 90_000_000);
    assert_eq!(config.security.blocked_syscalls, vec!["ptrace", "mount", "umount"]);
    assert_eq!(config.security.allowed_networks, vec!["127.0.0.1"]);
    assert_eq!(config.security.sensitive_files, vec!["/etc/passwd", "/etc/shadow"]);
    assert!(!config.fuzzing.enabled);
    assert_eq!(config.fuzzing.duration_seconds, 60);
    assert_eq!(config.fuzzing.iterations, 1000);
    assert_eq!(config.fuzzing.strategy, FuzzingStrategy::Random);
    assert!(config.fuzzing.coverage_guided);
    assert_eq!(config.validation.max_validation_time, 600_000);
    assert!(config.validation.cleanup_after_validation);
    assert_eq!(config.clone(), config);
}

#[test]
fn line_numbers_are_one_based_and_held() {
    assert_eq!(line_number(0), 1);
    assert_eq!(line_number(41), 42);
    assert_eq!(line_number(u32::MAX as usize - 1), u32::MAX);
    assert_eq!(line_number(u32::MAX as usize), u32::MAX);
    assert_eq!(line_number(usize::MAX), u32::MAX);
}

#[test]
fn risk_tags_map_to_severities() {
    assert_eq!(severity_from_risk("critical"), Severity::Critical);
    assert_eq!(severity_from_risk("high"), Severity::High);
    assert_eq!(severity_from_risk("medium"), Severity::Medium);
    assert_eq!(severity_from_risk("low"), Severity::Low);
    assert_eq!(severity_from_risk("High"), Severity::Info);
    assert_eq!(severity_from_risk(""), Severity::Info);
}

#[test]
fn a_validation_begins_running_and_empty() {
    let v = validator();
    let first = v.begin_validation(&codebase(), 1_700_000_000_000);
    let second = v.begin_validation(&codebase(), 1_700_000_000_000);
    assert_ne!(first.validation_id, second.validation_id);
    assert_eq!(first.validation_id.len(), 36);
    assert_eq!(first.codebase_id, "cb-7");
    assert_eq!(first.status, ValidationStatus::Running);
    assert_eq!(first.started_at, 1_700_000_000_000);
    assert_eq!(first.completed_at, None);
    assert_eq!(first.duration, None);
    assert_eq!(first.overall_score, 0);
    assert!(first.findings.is_empty());
    assert!(first.fuzzing_result.is_none());
}

#[test]
fn hello_world_scores_well() {
    let mut v = validator();
    let mut result = v.begin_validation(&codebase(), 1_000);
    v.security_monitor.start_monitoring(&codebase(), 1_001);
    let observed = kwality_runtime_validator::security::ObservedBehavior {
        syscalls: Vec::new(),
        network_destinations: Vec::new(),
        file_paths: Vec::new(),
    };
    result.security_result = v.security_monitor.collect_results(&observed, 1_002);
    let run = execution(0, "hi\n", "");
    result.performance_metrics =
        v.performance_profiler.collect_metrics(run.duration, &run.resource_usage, Vec::new());
    v.analyze_execution_results(&run, &mut result);
    conclude(&mut result, Outcome::Completed, "", 300, 1_050);
    assert_eq!(result.status, ValidationStatus::Completed);
    assert_eq!(run.exit_code, 0);
    assert!(run.stdout.contains("hi"));
    assert_eq!(
        result.findings.iter().filter(|f| f.finding_type == FindingType::RuntimeError).count(),
        0
    );
    assert!(result.overall_score >= 70_000_000);
    assert_eq!(result.overall_score, 100_000_000);
    assert_eq!(result.duration, Some(50));
    assert_eq!(result.completed_at.unwrap() - result.started_at, 50);
}

#[test]
fn segfault_is_crash_prone_and_critical() {
    let v = validator();
    let mut result = v.begin_validation(&codebase(), 0);
    let run = execution(-11, "", "fatal: segmentation fault (core dumped)");
    v.analyze_execution_results(&run, &mut result);
    assert_eq!(result.findings.len(), 2);
    assert_eq!(result.findings[0].title, "Non-zero Exit Code");
    assert_eq!(result.findings[0].finding_type, FindingType::RuntimeError);
    assert_eq!(result.findings[0].severity, Severity::High);
    assert_eq!(
        result.findings[0].description,
        "Program exited with code -11 indicating an error"
    );
    assert_eq!(result.findings[0].evidence[0].value, DataValue::Integer(-11));
    assert_eq!(result.findings[0].confidence, 900_000);
    let crash = &result.findings[1];
    assert_eq!(crash.finding_type, FindingType::CrashProne);
    assert_eq!(crash.severity, Severity::Critical);
    assert_eq!(crash.title, "Error Pattern Detected: segmentation fault|segfault");
    assert_eq!(
        crash.description,
        "Detected error pattern 'segmentation fault|segfault' in program output"
    );
    assert_eq!(crash.evidence[0].key, "pattern");
    assert_eq!(
        crash.evidence[1].value,
        DataValue::Text("fatal: segmentation fault (core dumped)".to_string())
    );
    assert_eq!(crash.confidence, 800_000);
}

#[test]
fn error_output_is_searched_with_every_pattern() {
    assert_eq!(error_patterns().len(), 6);
    let v = validator();
    let mut findings: Vec<Finding> = Vec::new();
    v.analyze_stderr("panic: stack overflow after timeout", &mut findings);
    let kinds: Vec<FindingType> = findings.iter().map(|f| f.finding_type).collect();
    assert_eq!(
        kinds,
        vec![
            FindingType::SecurityVulnerability,
            FindingType::RuntimeError,
            FindingType::PerformanceIssue,
        ]
    );
    let mut none: Vec<Finding> = Vec::new();
    v.analyze_stderr("", &mut none);
    assert!(none.is_empty());
}

#[test]
fn memory_hog_gives_a_high_memory_finding() {
    let v = validator();
    let mut metrics = kwality_runtime_validator::performance::PerformanceMetrics::default();
    metrics.memory_usage_mb = 600;
    metrics.cpu_usage_percent = 95_500_000;
    metrics.execution_time_ms = 10_001;
    let mut findings: Vec<Finding> = Vec::new();
    v.analyze_performance_issues(&metrics, &mut findings);
    assert_eq!(findings.len(), 3);
    assert_eq!(findings[0].title, "High CPU Usage");
    assert_eq!(findings[0].description, "CPU usage (95.5%) exceeds threshold (90.0%)");
    assert_eq!(findings[0].evidence[0].value, DataValue::Fraction(95_500_000));
    assert_eq!(findings[1].title, "High Memory Usage");
    assert_eq!(findings[1].finding_type, FindingType::PerformanceIssue);
    assert_eq!(findings[1].severity, Severity::Medium);
    assert_eq!(findings[1].description, "Memory usage (600 MB) exceeds threshold (256 MB)");
    assert_eq!(findings[1].evidence[1].value, DataValue::Count(256));
    assert_eq!(findings[2].title, "Slow Execution");
    assert_eq!(findings[2].severity, Severity::Low);
    assert_eq!(findings[2].description, "Execution time (10001 ms) exceeds threshold (10000 ms)");
    metrics.memory_usage_mb = 256;
    metrics.cpu_usage_percent = 90_000_000;
    metrics.execution_time_ms = 10_000;
    let mut none: Vec<Finding> = Vec::new();
    v.analyze_performance_issues(&metrics, &mut none);
    assert!(none.is_empty());
}

#[test]
fn violations_are_findings_without_a_file() {
    let v = validator();
    let mut security = kwality_runtime_validator::security::SecurityResult::default();
    security.violations = vec![SecurityViolation {
        violation_type: ViolationType::FileSystemAccess,
        severity: ViolationSeverity::High,
        title: "Sensitive file access".to_string(),
        description: "d".to_string(),
        timestamp: 0,
        location: Some("/etc/shadow".to_string()),
        evidence: Vec::new(),
        risk_level: "high".to_string(),
        mitigation: "m".to_string(),
    }];
    let mut findings: Vec<Finding> = Vec::new();
    v.analyze_security_issues(&security, &mut findings);
    assert_eq!(findings.len(), 1);
    assert_eq!(findings[0].finding_type, FindingType::SecurityVulnerability);
    assert_eq!(findings[0].severity, Severity::High);
    assert_eq!(findings[0].file, None);
    assert_eq!(findings[0].confidence, 800_000);
}

#[test]
fn overall_score_is_the_weighted_score() {
    let v = validator();
    let mut result = v.begin_validation(&codebase(), 0);
    result.security_result.security_score = 50_000_000;
    result.performance_metrics.cpu_usage_percent = 100_000_000;
    assert_eq!(v.calculate_overall_score(&result), 15_000_000 + 10_000_000 + 50_000_000);
    let advice = v.generate_recommendations(&result);
    assert_eq!(advice.len(), 2);
    assert_eq!(advice[0].title, "Improve Security Posture");
    assert_eq!(advice[1].title, "Optimize Performance");
}

#[test]
fn health_of_the_validator() {
    let v = validator();
    let container = v.container_manager.health_check(None, true, Some(1), Some(2));
    let report = v.health_check(container, 2048, 8);
    assert_eq!(report.len(), 8);
    assert_eq!(report[0].key, "status");
    assert_eq!(report[0].value, DataValue::Text("healthy".to_string()));
    assert_eq!(report[1].value, DataValue::Text("0.1.0".to_string()));
    assert_eq!(report[2].key, "docker_daemon");
    assert_eq!(report[6].key, "system_memory_usage");
    assert_eq!(report[6].value, DataValue::Count(2048));
    assert_eq!(report[7].value, DataValue::Count(8));
}

#[test]
fn a_file_knows_its_size_in_bytes() {
    let file = CodeFile::new("a.py".to_string(), "héllo".to_string(), None, FileType::Source);
    assert_eq!(file.size, 6);
    assert_eq!(file.path, "a.py");
    assert_eq!(file.language, None);
    let empty = CodeFile::new("b".to_string(), String::new(), Some("text".to_string()), FileType::Other);
    assert_eq!(empty.size, 0);
    assert_eq!(empty.language, Some("text".to_string()));
}
