use kwality_runtime_validator::security::{
    calculate_security_score, check_policy, determine_risk_level,
    generate_security_recommendations, run_compliance_checks, severity_of_secret, AnomalyType,
    BehaviorAnalyzer, BehavioralAnomaly, ComplianceStatus, ObservedBehavior, PolicyClass,
    RiskLevel, SecretFindings, SecretPattern, SecretSeverity, SecretType, SecretsDetector,
    SecurityMonitor, SecurityPriority, SecurityRecommendationType, SecurityResult,
    SecurityViolation, SyscallMonitor, ViolationSeverity, ViolationType, Vulnerability,
    VulnerabilityPattern, VulnerabilityScanner, VulnerabilitySeverity, VulnerabilityType,
};
use kwality_runtime_validator::{CodeFile, Codebase, FileType, RuntimeConfig, SecurityConfig};

fn violation(kind: ViolationType, severity: ViolationSeverity) -> SecurityViolation {
    SecurityViolation {
        violation_type: kind,
        severity,
        title: "t".to_string(),
        description: "d".to_string(),
        timestamp: 0,
        location: None,
        evidence: Vec::new(),
        risk_level: "high".to_string(),
        mitigation: "m".to_string(),
    }
}

fn vulnerability(severity: VulnerabilitySeverity) -> Vulnerability {
    Vulnerability {
        id: "v".to_string(),
        vulnerability_type: VulnerabilityType::SqlInjection,
        severity,
        title: "t".to_string(),
        description: "d".to_string(),
        affected_component: "a:1".to_string(),
        cve_id: None,
        cvss_score: None,
        discovered_at: 0,
        remediation: "r".to_string(),
        references: Vec::new(),
    }
}

fn secret(severity: SecretSeverity, confidence: u64) -> SecretFindings {
    SecretFindings {
        secret_type: SecretType::ApiKey,
        confidence,
        file_path: "config.go".to_string(),
        line_number: 15,
        matched_text: "api_key = \"sk-1234567890abcdef\"".to_string(),
        context: String::new(),
        severity,
    }
}

fn file(path: &str, content: &str) -> CodeFile {
    CodeFile {
        path: path.to_string(),
        content: content.to_string(),
        language: None,
        file_type: FileType::Source,
        size: content.len() as u64,
    }
}

fn security_config() -> SecurityConfig {
    RuntimeConfig::default().security
}

#[test]
fn score_of_nothing_is_full() {
    assert_eq!(calculate_security_score(&Vec::new(), &Vec::new(), &Vec::new()), 100_000_000);
}

#[test]
fn violations_cost_by_severity() {
    let all = vec![
        violation(ViolationType::NetworkAccess, ViolationSeverity::Critical),
        violation(ViolationType::NetworkAccess, ViolationSeverity::High),
        violation(ViolationType::NetworkAccess, ViolationSeverity::Medium),
        violation(ViolationType::NetworkAccess, ViolationSeverity::Low),
        violation(ViolationType::NetworkAccess, ViolationSeverity::Info),
    ];
    assert_eq!(calculate_security_score(&all, &Vec::new(), &Vec::new()), 48_000_000);
}

#[test]
fn vulnerabilities_cost_by_severity() {
    let all = vec![
        vulnerability(VulnerabilitySeverity::Critical),
        vulnerability(VulnerabilitySeverity::High),
        vulnerability(VulnerabilitySeverity::Medium),
        vulnerability(VulnerabilitySeverity::Low),
    ];
    assert_eq!(calculate_security_score(&Vec::new(), &all, &Vec::new()), 35_000_000);
}

#[test]
fn secrets_cost_points_times_confidence() {
    let score = calculate_security_score(
        &Vec::new(),
        &Vec::new(),
        &vec![secret(SecretSeverity::High, 850_000)],
    );
    assert_eq!(score, 100_000_000 - 10_200_000);
    let all = vec![
        secret(SecretSeverity::Critical, 1_000_000),
        secret(SecretSeverity::High, 500_000),
        secret(SecretSeverity::Medium, 250_000),
        secret(SecretSeverity::Low, 0),
    ];
    assert_eq!(
        calculate_security_score(&Vec::new(), &Vec::new(), &all),
        100_000_000 - 20_000_000 - 6_000_000 - 1_500_000
    );
}

#[test]
fn score_never_falls_below_zero() {
    let many: Vec<SecurityViolation> = (0..10)
        .map(|_| violation(ViolationType::NetworkAccess, ViolationSeverity::Critical))
        .collect();
    assert_eq!(calculate_security_score(&many, &Vec::new(), &Vec::new()), 0);
    let huge = vec![secret(SecretSeverity::Critical, u64::MAX)];
    assert_eq!(calculate_security_score(&Vec::new(), &Vec::new(), &huge), 0);
}

#[test]
fn risk_level_thresholds() {
    let none: Vec<SecurityViolation> = Vec::new();
    assert_eq!(determine_risk_level(29_999_999, &none), RiskLevel::Critical);
    assert_eq!(determine_risk_level(30_000_000, &none), RiskLevel::High);
    assert_eq!(determine_risk_level(49_999_999, &none), RiskLevel::High);
    assert_eq!(determine_risk_level(50_000_000, &none), RiskLevel::Medium);
    assert_eq!(determine_risk_level(70_000_000, &none), RiskLevel::Low);
    assert_eq!(determine_risk_level(89_999_999, &none), RiskLevel::Low);
    assert_eq!(determine_risk_level(90_000_000, &none), RiskLevel::Minimal);
    let critical = vec![
        violation(ViolationType::NetworkAccess, ViolationSeverity::Low),
        violation(ViolationType::NetworkAccess, ViolationSeverity::Critical),
    ];
    assert_eq!(determine_risk_level(100_000_000, &critical), RiskLevel::Critical);
}

#[test]
fn syscall_monitor_names_each_blocked_call_once() {
    let mut config = security_config();
    config.blocked_syscalls =
        vec!["ptrace".to_string(), "mount".to_string(), "ptrace".to_string(), "umount".to_string()];
    let monitor = SyscallMonitor::new(&config);
    assert_eq!(monitor.blocked_syscalls, vec!["ptrace", "mount", "umount"]);
    assert_eq!(
        monitor.monitored_syscalls,
        vec!["open", "read", "write", "connect", "bind", "execve", "fork", "clone"]
    );
}

#[test]
fn blocked_syscalls_are_violations() {
    let monitor = SyscallMonitor::new(&security_config());
    let attempted = vec!["read".to_string(), "ptrace".to_string(), "mount".to_string()];
    let found = monitor.check_violations(&attempted, 1234);
    assert_eq!(found.len(), 2);
    assert_eq!(found[0].violation_type, ViolationType::UnauthorizedSyscall);
    assert_eq!(found[0].severity, ViolationSeverity::High);
    assert_eq!(found[0].title, "Blocked syscall attempted");
    assert_eq!(found[0].description, "Code attempted to use blocked syscall: ptrace");
    assert_eq!(found[0].timestamp, 1234);
    assert_eq!(found[0].location, None);
    assert_eq!(found[0].risk_level, "high");
    assert_eq!(found[0].evidence.len(), 1);
    assert_eq!(found[0].evidence[0].key, "syscall");
    assert_eq!(
        found[0].evidence[0].value,
        kwality_runtime_validator::DataValue::Text("ptrace".to_string())
    );
    assert_eq!(found[1].description, "Code attempted to use blocked syscall: mount");
}

#[test]
fn destinations_outside_the_allow_list_are_violations() {
    let allowed = vec!["127.0.0.1".to_string()];
    let seen = vec!["127.0.0.1".to_string(), "10.0.0.8".to_string()];
    let found = check_policy(PolicyClass::Network, &allowed, &seen, 5);
    assert_eq!(found.len(), 1);
    assert_eq!(found[0].violation_type, ViolationType::NetworkAccess);
    assert_eq!(found[0].severity, ViolationSeverity::Medium);
    assert_eq!(found[0].location, Some("10.0.0.8".to_string()));
    assert_eq!(found[0].risk_level, "medium");
}

#[test]
fn sensitive_paths_are_violations() {
    let sensitive = vec!["/etc/passwd".to_string(), "/etc/shadow".to_string()];
    let seen = vec![
        "/tmp/x".to_string(),
        "/etc/shadow".to_string(),
        "/etc/passwd.bak".to_string(),
        "/etc".to_string(),
    ];
    let found = check_policy(PolicyClass::FileSystem, &sensitive, &seen, 5);
    assert_eq!(found.len(), 2);
    assert_eq!(found[0].violation_type, ViolationType::FileSystemAccess);
    assert_eq!(found[0].description, "Code attempted to access sensitive file: /etc/shadow");
    assert_eq!(found[1].location, Some("/etc/passwd.bak".to_string()));
}

#[test]
fn scanner_reports_file_and_line() {
    let mut scanner = VulnerabilityScanner::new();
    let source = "import os\nprint('ok')\nos.system('ls ' + input())\n";
    scanner.scan_file(&file("app/run.py", source), 77);
    let found = scanner.get_findings();
    assert_eq!(found.len(), 1);
    assert_eq!(found[0].vulnerability_type, VulnerabilityType::CommandInjection);
    assert_eq!(found[0].severity, VulnerabilitySeverity::Critical);
    assert_eq!(found[0].title, "Command Injection");
    assert_eq!(found[0].affected_component, "app/run.py:3");
    assert_eq!(found[0].discovered_at, 77);
    assert_eq!(
        found[0].remediation,
        "Pass arguments as a list and never build shell commands from input"
    );
    assert!(!found[0].id.is_empty());
}

#[test]
fn scanner_is_quiet_on_clean_code() {
    let mut scanner = VulnerabilityScanner::new();
    scanner.scan_file(&file("main.py", "print(\"hi\")"), 0);
    assert!(scanner.get_findings().is_empty());
}

#[test]
fn scanner_tries_every_entry_on_every_line() {
    let catalogue = vec![
        VulnerabilityPattern {
            name: "A".to_string(),
            pattern: "a+".to_string(),
            vulnerability_type: VulnerabilityType::PathTraversal,
            severity: VulnerabilitySeverity::Low,
            description: "has a".to_string(),
        },
        VulnerabilityPattern {
            name: "B".to_string(),
            pattern: "b".to_string(),
            vulnerability_type: VulnerabilityType::BufferOverflow,
            severity: VulnerabilitySeverity::Medium,
            description: "has b".to_string(),
        },
        VulnerabilityPattern {
            name: "broken".to_string(),
            pattern: "(".to_string(),
            vulnerability_type: VulnerabilityType::BufferOverflow,
            severity: VulnerabilitySeverity::Medium,
            description: "never compiles".to_string(),
        },
    ];
    let mut scanner = VulnerabilityScanner::with_patterns(catalogue);
    scanner.scan_file(&file("f", "ab\nc\nb"), 0);
    let found = scanner.get_findings();
    let got: Vec<(String, String)> =
        found.iter().map(|v| (v.title.clone(), v.affected_component.clone())).collect();
    assert_eq!(
        got,
        vec![
            ("A".to_string(), "f:1".to_string()),
            ("B".to_string(), "f:1".to_string()),
            ("B".to_string(), "f:3".to_string()),
        ]
    );
    assert_ne!(found[0].id, found[1].id);
}

#[test]
fn detector_finds_the_hardcoded_api_key() {
    let mut detector = SecretsDetector::new();
    let source = "l1\nl2\nl3\nl4\napi_key = \"sk-1234567890abcdef\"\nl6\nl7\nl8\nl9";
    detector.scan_file(&file("config.py", source));
    let found = detector.get_findings();
    assert_eq!(found.len(), 1);
    assert_eq!(found[0].secret_type, SecretType::ApiKey);
    assert!(found[0].confidence >= 800_000);
    assert_eq!(found[0].severity, SecretSeverity::High);
    assert_eq!(found[0].file_path, "config.py");
    assert_eq!(found[0].line_number, 5);
    assert_eq!(found[0].matched_text, "api_key = \"sk-1234567890abcdef\"");
    assert_eq!(found[0].context, "l2\nl3\nl4\napi_key = \"sk-1234567890abcdef\"\nl6\nl7\nl8");
    let before = calculate_security_score(&Vec::new(), &Vec::new(), &Vec::new());
    let after = calculate_security_score(&Vec::new(), &Vec::new(), &found);
    assert_eq!(before - after, 12 * found[0].confidence);
}

#[test]
fn context_window_is_cut_at_the_file_ends() {
    let mut detector = SecretsDetector::with_patterns(vec![SecretPattern {
        name: "pw".to_string(),
        pattern: "hunter2".to_string(),
        secret_type: SecretType::Password,
        confidence: 500_000,
    }]);
    detector.scan_file(&file("a", "hunter2\nb\nc\nd\ne"));
    detector.scan_file(&file("b", "x\nhunter2"));
    let found = detector.get_findings();
    assert_eq!(found.len(), 2);
    assert_eq!(found[0].context, "hunter2\nb\nc\nd");
    assert_eq!(found[0].line_number, 1);
    assert_eq!(found[1].context, "x\nhunter2");
    assert_eq!(found[1].line_number, 2);
    assert_eq!(found[1].file_path, "b");
}

#[test]
fn secret_severity_follows_the_kind() {
    assert_eq!(severity_of_secret(SecretType::PrivateKey), SecretSeverity::Critical);
    assert_eq!(severity_of_secret(SecretType::CloudCredential), SecretSeverity::Critical);
    assert_eq!(severity_of_secret(SecretType::ApiKey), SecretSeverity::High);
    assert_eq!(severity_of_secret(SecretType::Password), SecretSeverity::High);
    assert_eq!(severity_of_secret(SecretType::SessionToken), SecretSeverity::Medium);
    assert_eq!(severity_of_secret(SecretType::Other), SecretSeverity::Low);
}

#[test]
fn recommendations_follow_the_findings() {
    let none: Vec<BehavioralAnomaly> = Vec::new();
    assert!(generate_security_recommendations(&Vec::new(), &Vec::new(), &Vec::new(), &none)
        .is_empty());
    let violations = vec![violation(ViolationType::UnauthorizedSyscall, ViolationSeverity::High)];
    let vulnerabilities =
        vec![vulnerability(VulnerabilitySeverity::Low), vulnerability(VulnerabilitySeverity::Low)];
    let secrets = vec![secret(SecretSeverity::Low, 1)];
    let all = generate_security_recommendations(&violations, &vulnerabilities, &secrets, &none);
    assert_eq!(all.len(), 3);
    assert_eq!(all[0].recommendation_type, SecurityRecommendationType::VulnerabilityFix);
    assert_eq!(all[0].priority, SecurityPriority::Critical);
    assert_eq!(all[0].description, "2 vulnerabilities require immediate attention");
    assert_eq!(all[0].remediation_steps.len(), 3);
    assert_eq!(all[1].recommendation_type, SecurityRecommendationType::SecretRemoval);
    assert_eq!(all[1].description, "1 secrets detected in code");
    assert_eq!(all[2].recommendation_type, SecurityRecommendationType::AccessControl);
    let network_only = vec![violation(ViolationType::NetworkAccess, ViolationSeverity::High)];
    assert!(generate_security_recommendations(&network_only, &Vec::new(), &Vec::new(), &none)
        .is_empty());
}

#[test]
fn compliance_checks_are_the_two_standards() {
    let checks = run_compliance_checks();
    assert_eq!(checks.len(), 2);
    assert_eq!(checks[0].standard, "OWASP Top 10");
    assert_eq!(checks[0].status, ComplianceStatus::Pass);
    assert_eq!(checks[0].requirements, vec!["Input validation", "Parameterized queries"]);
    assert!(checks[0].findings.is_empty());
    assert_eq!(checks[1].standard, "CIS Controls");
    assert_eq!(checks[1].status, ComplianceStatus::Warning);
    assert_eq!(checks[1].findings, vec!["Default credentials detected"]);
}

#[test]
fn analyzer_reports_what_is_outside_the_baseline() {
    let analyzer = BehaviorAnalyzer::new();
    assert_eq!(analyzer.anomaly_threshold, 700_000);
    let quiet = ObservedBehavior {
        syscalls: vec!["read".to_string(), "write".to_string()],
        network_destinations: vec!["localhost".to_string()],
        file_paths: vec!["/tmp/a".to_string()],
    };
    assert!(analyzer.analyze(&quiet).is_empty());
    let loud = ObservedBehavior {
        syscalls: vec!["read".to_string(), "ptrace".to_string()],
        network_destinations: vec!["8.8.8.8".to_string()],
        file_paths: vec!["/home/user/.ssh/id_rsa".to_string(), "/var/tmp/x".to_string()],
    };
    let found = analyzer.analyze(&loud);
    assert_eq!(found.len(), 3);
    assert_eq!(found[0].anomaly_type, AnomalyType::UnusualFileAccess);
    assert_eq!(found[0].indicators, vec!["/home/user/.ssh/id_rsa"]);
    assert_eq!(found[0].confidence, 750_000);
    assert_eq!(found[1].anomaly_type, AnomalyType::SuspiciousNetworkActivity);
    assert_eq!(found[1].indicators, vec!["8.8.8.8"]);
    assert_eq!(found[2].anomaly_type, AnomalyType::UnexpectedSystemCalls);
    assert_eq!(found[2].indicators, vec!["ptrace"]);
}

#[test]
fn monitor_compiles_the_result() {
    let mut monitor = SecurityMonitor::new(security_config());
    let codebase = Codebase {
        id: "cb".to_string(),
        name: "demo".to_string(),
        files: vec![
            file("main.py", "print(\"hi\")"),
            file("settings.py", "api_key = \"sk-1234567890abcdef\""),
        ],
        metadata: Vec::new(),
    };
    monitor.start_monitoring(&codebase, 10);
    let observed = ObservedBehavior {
        syscalls: vec!["ptrace".to_string()],
        network_destinations: vec!["example.org".to_string()],
        file_paths: vec!["/etc/passwd".to_string()],
    };
    let result = monitor.collect_results(&observed, 20);
    assert_eq!(result.violations.len(), 3);
    assert_eq!(result.violations[0].violation_type, ViolationType::UnauthorizedSyscall);
    assert_eq!(result.violations[1].violation_type, ViolationType::NetworkAccess);
    assert_eq!(result.violations[2].violation_type, ViolationType::FileSystemAccess);
    assert!(result.vulnerabilities.is_empty());
    assert_eq!(result.secrets.len(), 1);
    assert_eq!(result.secrets[0].file_path, "settings.py");
    assert_eq!(result.security_score, 100_000_000 - 15_000_000 - 8_000_000 - 15_000_000 - 9_600_000);
    assert_eq!(result.risk_level, RiskLevel::Medium);
    assert_eq!(result.compliance_checks.len(), 2);
    assert_eq!(result.behavioral_anomalies.len(), 3);
    assert_eq!(result.recommendations.len(), 2);
}

#[test]
fn monitoring_switches_gate_network_and_files() {
    let mut config = security_config();
    config.enable_network_monitoring = false;
    config.enable_file_monitoring = false;
    let monitor = SecurityMonitor::new(config);
    let observed = ObservedBehavior {
        syscalls: Vec::new(),
        network_destinations: vec!["example.org".to_string()],
        file_paths: vec!["/etc/passwd".to_string()],
    };
    let result = monitor.collect_results(&observed, 0);
    assert!(result.violations.is_empty());
    assert_eq!(result.security_score, 100_000_000);
    assert_eq!(result.risk_level, RiskLevel::Minimal);
}

#[test]
fn default_result_is_empty_and_critical() {
    let result = SecurityResult::default();
    assert_eq!(result.security_score, 0);
    assert_eq!(result.risk_level, RiskLevel::Critical);
    assert!(result.violations.is_empty());
    assert!(result.recommendations.is_empty());
}

#[test]
fn events_name_what_the_program_did() {
    let event = |kind: &str, subject: &str| kwality_runtime_validator::container::SecurityEvent {
        event_type: kind.to_string(),
        timestamp: 0,
        description: subject.to_string(),
        risk_level: "low".to_string(),
        details: Vec::new(),
    };
    let events = vec![
        event("file", "/etc/passwd"),
        event("syscall", "ptrace"),
        event("other", "ignored"),
        event("network", "10.0.0.1"),
        event("syscall", "read"),
    ];
    let observed = ObservedBehavior::from_events(&events);
    assert_eq!(observed.syscalls, vec!["ptrace", "read"]);
    assert_eq!(observed.network_destinations, vec!["10.0.0.1"]);
    assert_eq!(observed.file_paths, vec!["/etc/passwd"]);
    let nothing = ObservedBehavior::from_events(&Vec::new());
    assert!(nothing.syscalls.is_empty());
}
