//! The security observer: static scans of source text against pattern
//! catalogues, runtime policy violations, and the security score with its
//! risk level.

use vstd::prelude::*;

use crate::{DataEntry, DataEntryModel, SecurityConfig, SecurityConfigModel};

verus! {

/// The categorical summary of a security score.
#[derive(Debug, Clone, Copy, PartialEq, Eq, Structural)]
pub enum RiskLevel {
    Critical,
    High,
    Medium,
    Low,
    Minimal,
}

impl DeepView for RiskLevel {
    type V = RiskLevel;

    open spec fn deep_view(&self) -> RiskLevel {
        *self
    }
}

/// The policy that a run broke.
#[derive(Debug, Clone, Copy, PartialEq, Eq, Structural)]
pub enum ViolationType {
    UnauthorizedSyscall,
    NetworkAccess,
    FileSystemAccess,
    PrivilegeEscalation,
    ResourceExhaustion,
    CryptographicWeakness,
    InputValidation,
    MemoryCorruption,
    CodeInjection,
    InformationDisclosure,
}

impl DeepView for ViolationType {
    type V = ViolationType;

    open spec fn deep_view(&self) -> ViolationType {
        *self
    }
}

/// How grave a policy violation is.
#[derive(Debug, Clone, Copy, PartialEq, Eq, Structural)]
pub enum ViolationSeverity {
    Critical,
    High,
    Medium,
    Low,
    Info,
}

impl DeepView for ViolationSeverity {
    type V = ViolationSeverity;

    open spec fn deep_view(&self) -> ViolationSeverity {
        *self
    }
}

/// The class of a vulnerability.
#[derive(Debug, Clone, Copy, PartialEq, Eq, Structural)]
pub enum VulnerabilityType {
    BufferOverflow,
    SqlInjection,
    CrossSiteScripting,
    PathTraversal,
    CommandInjection,
    DeserializationVulnerability,
    CryptographicWeakness,
    AuthenticationBypass,
    AuthorizationFlaws,
    InformationLeakage,
    DependencyVulnerability,
    ConfigurationError,
}

impl DeepView for VulnerabilityType {
    type V = VulnerabilityType;

    open spec fn deep_view(&self) -> VulnerabilityType {
        *self
    }
}

/// How grave a vulnerability is.
#[derive(Debug, Clone, Copy, PartialEq, Eq, Structural)]
pub enum VulnerabilitySeverity {
    Critical,
    High,
    Medium,
    Low,
}

impl DeepView for VulnerabilitySeverity {
    type V = VulnerabilitySeverity;

    open spec fn deep_view(&self) -> VulnerabilitySeverity {
        *self
    }
}

/// The kind of credential found in source text.
#[derive(Debug, Clone, Copy, PartialEq, Eq, Structural)]
pub enum SecretType {
    ApiKey,
    Password,
    Token,
    Certificate,
    PrivateKey,
    DatabaseCredential,
    CloudCredential,
    CryptographicKey,
    SessionToken,
    Other,
}

impl DeepView for SecretType {
    type V = SecretType;

    open spec fn deep_view(&self) -> SecretType {
        *self
    }
}

/// How grave a leaked secret is.
#[derive(Debug, Clone, Copy, PartialEq, Eq, Structural)]
pub enum SecretSeverity {
    Critical,
    High,
    Medium,
    Low,
}

impl DeepView for SecretSeverity {
    type V = SecretSeverity;

    open spec fn deep_view(&self) -> SecretSeverity {
        *self
    }
}

/// The kind of unusual behaviour.
#[derive(Debug, Clone, Copy, PartialEq, Eq, Structural)]
pub enum AnomalyType {
    UnusualFileAccess,
    SuspiciousNetworkActivity,
    AbnormalResourceUsage,
    UnexpectedSystemCalls,
    CryptographicOperations,
    DataExfiltration,
    PrivilegeEscalation,
    ProcessSpawning,
}

impl DeepView for AnomalyType {
    type V = AnomalyType;

    open spec fn deep_view(&self) -> AnomalyType {
        *self
    }
}

/// How grave an anomaly is.
#[derive(Debug, Clone, Copy, PartialEq, Eq, Structural)]
pub enum AnommalySeverity {
    Critical,
    High,
    Medium,
    Low,
}

impl DeepView for AnommalySeverity {
    type V = AnommalySeverity;

    open spec fn deep_view(&self) -> AnommalySeverity {
        *self
    }
}

/// The outcome of a compliance check.
#[derive(Debug, Clone, Copy, PartialEq, Eq, Structural)]
pub enum ComplianceStatus {
    Pass,
    Fail,
    Warning,
    NotApplicable,
}

impl DeepView for ComplianceStatus {
    type V = ComplianceStatus;

    open spec fn deep_view(&self) -> ComplianceStatus {
        *self
    }
}

/// What a security recommendation asks for.
#[derive(Debug, Clone, Copy, PartialEq, Eq, Structural)]
pub enum SecurityRecommendationType {
    VulnerabilityFix,
    SecretRemoval,
    AccessControl,
    InputValidation,
    Encryption,
    DependencyUpdate,
    ConfigurationHardening,
    MonitoringImprovement,
}

impl DeepView for SecurityRecommendationType {
    type V = SecurityRecommendationType;

    open spec fn deep_view(&self) -> SecurityRecommendationType {
        *self
    }
}

/// How urgent a security recommendation is.
#[derive(Debug, Clone, Copy, PartialEq, Eq, Structural)]
pub enum SecurityPriority {
    Critical,
    High,
    Medium,
    Low,
}

impl DeepView for SecurityPriority {
    type V = SecurityPriority;

    open spec fn deep_view(&self) -> SecurityPriority {
        *self
    }
}

/// How much a security recommendation is expected to change.
#[derive(Debug, Clone, Copy, PartialEq, Eq, Structural)]
pub enum SecurityImpact {
    Critical,
    High,
    Medium,
    Low,
}

impl DeepView for SecurityImpact {
    type V = SecurityImpact;

    open spec fn deep_view(&self) -> SecurityImpact {
        *self
    }
}

/// How much work a security recommendation asks for.
#[derive(Debug, Clone, Copy, PartialEq, Eq, Structural)]
pub enum SecurityEffort {
    Low,
    Medium,
    High,
    VeryHigh,
}

impl DeepView for SecurityEffort {
    type V = SecurityEffort;

    open spec fn deep_view(&self) -> SecurityEffort {
        *self
    }
}

/// A breach of the runtime policy.
#[derive(Debug, PartialEq, Eq)]
pub struct SecurityViolation {
    pub violation_type: ViolationType,
    pub severity: ViolationSeverity,
    pub title: String,
    pub description: String,
    /// Milliseconds since the Unix epoch.
    pub timestamp: i64,
    pub location: Option<String>,
    pub evidence: Vec<DataEntry>,
    /// One of `critical`, `high`, `medium`, `low`.
    pub risk_level: String,
    pub mitigation: String,
}

/// The mathematical value of a [`SecurityViolation`].
pub ghost struct SecurityViolationModel {
    pub violation_type: ViolationType,
    pub severity: ViolationSeverity,
    pub title: Seq<char>,
    pub description: Seq<char>,
    pub timestamp: i64,
    pub location: Option<Seq<char>>,
    pub evidence: Seq<DataEntryModel>,
    pub risk_level: Seq<char>,
    pub mitigation: Seq<char>,
}

impl DeepView for SecurityViolation {
    type V = SecurityViolationModel;

    open spec fn deep_view(&self) -> SecurityViolationModel {
        SecurityViolationModel {
            violation_type: self.violation_type.deep_view(),
            severity: self.severity.deep_view(),
            title: self.title.deep_view(),
            description: self.description.deep_view(),
            timestamp: self.timestamp.deep_view(),
            location: self.location.deep_view(),
            evidence: self.evidence.deep_view(),
            risk_level: self.risk_level.deep_view(),
            mitigation: self.mitigation.deep_view(),
        }
    }
}

impl Clone for SecurityViolation {
    fn clone(&self) -> (r: Self)
        ensures
            r.deep_view() == self.deep_view(),
    {
        let r = SecurityViolation {
            violation_type: self.violation_type,
            severity: self.severity,
            title: self.title.clone(),
            description: self.description.clone(),
            timestamp: self.timestamp,
            location: self.location.clone(),
            evidence: self.evidence.clone(),
            risk_level: self.risk_level.clone(),
            mitigation: self.mitigation.clone(),
        };
        assert(r.evidence.deep_view() =~= self.evidence.deep_view());
        r
    }
}

/// A vulnerability pattern found in a source file.
#[derive(Debug, PartialEq, Eq)]
pub struct Vulnerability {
    pub id: String,
    pub vulnerability_type: VulnerabilityType,
    pub severity: VulnerabilitySeverity,
    pub title: String,
    pub description: String,
    /// The file and the one-based line, as `path:line`.
    pub affected_component: String,
    pub cve_id: Option<String>,
    /// In millionths.
    pub cvss_score: Option<u64>,
    /// Milliseconds since the Unix epoch.
    pub discovered_at: i64,
    pub remediation: String,
    pub references: Vec<String>,
}

/// The mathematical value of a [`Vulnerability`].
pub ghost struct VulnerabilityModel {
    pub id: Seq<char>,
    pub vulnerability_type: VulnerabilityType,
    pub severity: VulnerabilitySeverity,
    pub title: Seq<char>,
    pub description: Seq<char>,
    pub affected_component: Seq<char>,
    pub cve_id: Option<Seq<char>>,
    pub cvss_score: Option<u64>,
    pub discovered_at: i64,
    pub remediation: Seq<char>,
    pub references: Seq<Seq<char>>,
}

impl DeepView for Vulnerability {
    type V = VulnerabilityModel;

    open spec fn deep_view(&self) -> VulnerabilityModel {
        VulnerabilityModel {
            id: self.id.deep_view(),
            vulnerability_type: self.vulnerability_type.deep_view(),
            severity: self.severity.deep_view(),
            title: self.title.deep_view(),
            description: self.description.deep_view(),
            affected_component: self.affected_component.deep_view(),
            cve_id: self.cve_id.deep_view(),
            cvss_score: self.cvss_score.deep_view(),
            discovered_at: self.discovered_at.deep_view(),
            remediation: self.remediation.deep_view(),
            references: self.references.deep_view(),
        }
    }
}

impl Clone for Vulnerability {
    fn clone(&self) -> (r: Self)
        ensures
            r.deep_view() == self.deep_view(),
    {
        let r = Vulnerability {
            id: self.id.clone(),
            vulnerability_type: self.vulnerability_type,
            severity: self.severity,
            title: self.title.clone(),
            description: self.description.clone(),
            affected_component: self.affected_component.clone(),
            cve_id: self.cve_id.clone(),
            cvss_score: self.cvss_score,
            discovered_at: self.discovered_at,
            remediation: self.remediation.clone(),
            references: self.references.clone(),
        };
        assert(r.references.deep_view() =~= self.references.deep_view());
        r
    }
}

/// A credential found in a source file.
#[derive(Debug, PartialEq, Eq)]
pub struct SecretFindings {
    pub secret_type: SecretType,
    /// In millionths, between 0 and 1 000 000.
    pub confidence: u64,
    pub file_path: String,
    /// One-based.
    pub line_number: u32,
    pub matched_text: String,
    /// The lines around the match, three on each side.
    pub context: String,
    pub severity: SecretSeverity,
}

/// The mathematical value of a [`SecretFindings`].
pub ghost struct SecretFindingsModel {
    pub secret_type: SecretType,
    pub confidence: u64,
    pub file_path: Seq<char>,
    pub line_number: u32,
    pub matched_text: Seq<char>,
    pub context: Seq<char>,
    pub severity: SecretSeverity,
}

impl DeepView for SecretFindings {
    type V = SecretFindingsModel;

    open spec fn deep_view(&self) -> SecretFindingsModel {
        SecretFindingsModel {
            secret_type: self.secret_type.deep_view(),
            confidence: self.confidence.deep_view(),
            file_path: self.file_path.deep_view(),
            line_number: self.line_number.deep_view(),
            matched_text: self.matched_text.deep_view(),
            context: self.context.deep_view(),
            severity: self.severity.deep_view(),
        }
    }
}

impl Clone for SecretFindings {
    fn clone(&self) -> (r: Self)
        ensures
            r.deep_view() == self.deep_view(),
    {
        let r = SecretFindings {
            secret_type: self.secret_type,
            confidence: self.confidence,
            file_path: self.file_path.clone(),
            line_number: self.line_number,
            matched_text: self.matched_text.clone(),
            context: self.context.clone(),
            severity: self.severity,
        };
        r
    }
}

/// Behaviour outside the expected baseline.
#[derive(Debug, PartialEq, Eq)]
pub struct BehavioralAnomaly {
    pub anomaly_type: AnomalyType,
    pub severity: AnommalySeverity,
    pub description: String,
    pub indicators: Vec<String>,
    /// In millionths.
    pub confidence: u64,
    pub risk_assessment: String,
}

/// The mathematical value of a [`BehavioralAnomaly`].
pub ghost struct BehavioralAnomalyModel {
    pub anomaly_type: AnomalyType,
    pub severity: AnommalySeverity,
    pub description: Seq<char>,
    pub indicators: Seq<Seq<char>>,
    pub confidence: u64,
    pub risk_assessment: Seq<char>,
}

impl DeepView for BehavioralAnomaly {
    type V = BehavioralAnomalyModel;

    open spec fn deep_view(&self) -> BehavioralAnomalyModel {
        BehavioralAnomalyModel {
            anomaly_type: self.anomaly_type.deep_view(),
            severity: self.severity.deep_view(),
            description: self.description.deep_view(),
            indicators: self.indicators.deep_view(),
            confidence: self.confidence.deep_view(),
            risk_assessment: self.risk_assessment.deep_view(),
        }
    }
}

impl Clone for BehavioralAnomaly {
    fn clone(&self) -> (r: Self)
        ensures
            r.deep_view() == self.deep_view(),
    {
        let r = BehavioralAnomaly {
            anomaly_type: self.anomaly_type,
            severity: self.severity,
            description: self.description.clone(),
            indicators: self.indicators.clone(),
            confidence: self.confidence,
            risk_assessment: self.risk_assessment.clone(),
        };
        assert(r.indicators.deep_view() =~= self.indicators.deep_view());
        r
    }
}

/// The result of one compliance check.
#[derive(Debug, PartialEq, Eq)]
pub struct ComplianceCheck {
    pub standard: String,
    pub check_name: String,
    pub status: ComplianceStatus,
    pub description: String,
    pub requirements: Vec<String>,
    pub findings: Vec<String>,
}

/// The mathematical value of a [`ComplianceCheck`].
pub ghost struct ComplianceCheckModel {
    pub standard: Seq<char>,
    pub check_name: Seq<char>,
    pub status: ComplianceStatus,
    pub description: Seq<char>,
    pub requirements: Seq<Seq<char>>,
    pub findings: Seq<Seq<char>>,
}

impl DeepView for ComplianceCheck {
    type V = ComplianceCheckModel;

    open spec fn deep_view(&self) -> ComplianceCheckModel {
        ComplianceCheckModel {
            standard: self.standard.deep_view(),
            check_name: self.check_name.deep_view(),
            status: self.status.deep_view(),
            description: self.description.deep_view(),
            requirements: self.requirements.deep_view(),
            findings: self.findings.deep_view(),
        }
    }
}

impl Clone for ComplianceCheck {
    fn clone(&self) -> (r: Self)
        ensures
            r.deep_view() == self.deep_view(),
    {
        let r = ComplianceCheck {
            standard: self.standard.clone(),
            check_name: self.check_name.clone(),
            status: self.status,
            description: self.description.clone(),
            requirements: self.requirements.clone(),
            findings: self.findings.clone(),
        };
        assert(r.requirements.deep_view() =~= self.requirements.deep_view());
        assert(r.findings.deep_view() =~= self.findings.deep_view());
        r
    }
}

/// A way to improve the security of the codebase.
#[derive(Debug, PartialEq, Eq)]
pub struct SecurityRecommendation {
    pub recommendation_type: SecurityRecommendationType,
    pub priority: SecurityPriority,
    pub title: String,
    pub description: String,
    pub remediation_steps: Vec<String>,
    pub impact: SecurityImpact,
    pub effort: SecurityEffort,
}

/// The mathematical value of a [`SecurityRecommendation`].
pub ghost struct SecurityRecommendationModel {
    pub recommendation_type: SecurityRecommendationType,
    pub priority: SecurityPriority,
    pub title: Seq<char>,
    pub description: Seq<char>,
    pub remediation_steps: Seq<Seq<char>>,
    pub impact: SecurityImpact,
    pub effort: SecurityEffort,
}

impl DeepView for SecurityRecommendation {
    type V = SecurityRecommendationModel;

    open spec fn deep_view(&self) -> SecurityRecommendationModel {
        SecurityRecommendationModel {
            recommendation_type: self.recommendation_type.deep_view(),
            priority: self.priority.deep_view(),
            title: self.title.deep_view(),
            description: self.description.deep_view(),
            remediation_steps: self.remediation_steps.deep_view(),
            impact: self.impact.deep_view(),
            effort: self.effort.deep_view(),
        }
    }
}

impl Clone for SecurityRecommendation {
    fn clone(&self) -> (r: Self)
        ensures
            r.deep_view() == self.deep_view(),
    {
        let r = SecurityRecommendation {
            recommendation_type: self.recommendation_type,
            priority: self.priority,
            title: self.title.clone(),
            description: self.description.clone(),
            remediation_steps: self.remediation_steps.clone(),
            impact: self.impact,
            effort: self.effort,
        };
        assert(r.remediation_steps.deep_view() =~= self.remediation_steps.deep_view());
        r
    }
}

/// Everything the security observer found, with its score.
#[derive(Debug, PartialEq, Eq)]
pub struct SecurityResult {
    /// In millionths of a point, between 0 and one hundred points.
    pub security_score: u64,
    pub risk_level: RiskLevel,
    pub violations: Vec<SecurityViolation>,
    pub vulnerabilities: Vec<Vulnerability>,
    pub secrets: Vec<SecretFindings>,
    pub behavioral_anomalies: Vec<BehavioralAnomaly>,
    pub compliance_checks: Vec<ComplianceCheck>,
    pub recommendations: Vec<SecurityRecommendation>,
}

/// The mathematical value of a [`SecurityResult`].
pub ghost struct SecurityResultModel {
    pub security_score: u64,
    pub risk_level: RiskLevel,
    pub violations: Seq<SecurityViolationModel>,
    pub vulnerabilities: Seq<VulnerabilityModel>,
    pub secrets: Seq<SecretFindingsModel>,
    pub behavioral_anomalies: Seq<BehavioralAnomalyModel>,
    pub compliance_checks: Seq<ComplianceCheckModel>,
    pub recommendations: Seq<SecurityRecommendationModel>,
}

impl DeepView for SecurityResult {
    type V = SecurityResultModel;

    open spec fn deep_view(&self) -> SecurityResultModel {
        SecurityResultModel {
            security_score: self.security_score.deep_view(),
            risk_level: self.risk_level.deep_view(),
            violations: self.violations.deep_view(),
            vulnerabilities: self.vulnerabilities.deep_view(),
            secrets: self.secrets.deep_view(),
            behavioral_anomalies: self.behavioral_anomalies.deep_view(),
            compliance_checks: self.compliance_checks.deep_view(),
            recommendations: self.recommendations.deep_view(),
        }
    }
}

impl Clone for SecurityResult {
    fn clone(&self) -> (r: Self)
        ensures
            r.deep_view() == self.deep_view(),
    {
        let r = SecurityResult {
            security_score: self.security_score,
            risk_level: self.risk_level,
            violations: self.violations.clone(),
            vulnerabilities: self.vulnerabilities.clone(),
            secrets: self.secrets.clone(),
            behavioral_anomalies: self.behavioral_anomalies.clone(),
            compliance_checks: self.compliance_checks.clone(),
            recommendations: self.recommendations.clone(),
        };
        assert(r.violations.deep_view() =~= self.violations.deep_view());
        assert(r.vulnerabilities.deep_view() =~= self.vulnerabilities.deep_view());
        assert(r.secrets.deep_view() =~= self.secrets.deep_view());
        assert(r.behavioral_anomalies.deep_view() =~= self.behavioral_anomalies.deep_view());
        assert(r.compliance_checks.deep_view() =~= self.compliance_checks.deep_view());
        assert(r.recommendations.deep_view() =~= self.recommendations.deep_view());
        r
    }
}

/// Knows which system calls are blocked and which are watched.
#[derive(Debug, PartialEq, Eq)]
pub struct SyscallMonitor {
    pub blocked_syscalls: Vec<String>,
    pub monitored_syscalls: Vec<String>,
}

/// The mathematical value of a [`SyscallMonitor`].
pub ghost struct SyscallMonitorModel {
    pub blocked_syscalls: Seq<Seq<char>>,
    pub monitored_syscalls: Seq<Seq<char>>,
}

impl DeepView for SyscallMonitor {
    type V = SyscallMonitorModel;

    open spec fn deep_view(&self) -> SyscallMonitorModel {
        SyscallMonitorModel {
            blocked_syscalls: self.blocked_syscalls.deep_view(),
            monitored_syscalls: self.monitored_syscalls.deep_view(),
        }
    }
}

impl Clone for SyscallMonitor {
    fn clone(&self) -> (r: Self)
        ensures
            r.deep_view() == self.deep_view(),
    {
        let r = SyscallMonitor {
            blocked_syscalls: self.blocked_syscalls.clone(),
            monitored_syscalls: self.monitored_syscalls.clone(),
        };
        assert(r.blocked_syscalls.deep_view() =~= self.blocked_syscalls.deep_view());
        assert(r.monitored_syscalls.deep_view() =~= self.monitored_syscalls.deep_view());
        r
    }
}

/// One entry of the vulnerability catalogue.
#[derive(Debug, PartialEq, Eq)]
pub struct VulnerabilityPattern {
    pub name: String,
    /// A regular expression.
    pub pattern: String,
    pub vulnerability_type: VulnerabilityType,
    pub severity: VulnerabilitySeverity,
    pub description: String,
}

/// The mathematical value of a [`VulnerabilityPattern`].
pub ghost struct VulnerabilityPatternModel {
    pub name: Seq<char>,
    pub pattern: Seq<char>,
    pub vulnerability_type: VulnerabilityType,
    pub severity: VulnerabilitySeverity,
    pub description: Seq<char>,
}

impl DeepView for VulnerabilityPattern {
    type V = VulnerabilityPatternModel;

    open spec fn deep_view(&self) -> VulnerabilityPatternModel {
        VulnerabilityPatternModel {
            name: self.name.deep_view(),
            pattern: self.pattern.deep_view(),
            vulnerability_type: self.vulnerability_type.deep_view(),
            severity: self.severity.deep_view(),
            description: self.description.deep_view(),
        }
    }
}

impl Clone for VulnerabilityPattern {
    fn clone(&self) -> (r: Self)
        ensures
            r.deep_view() == self.deep_view(),
    {
        let r = VulnerabilityPattern {
            name: self.name.clone(),
            pattern: self.pattern.clone(),
            vulnerability_type: self.vulnerability_type,
            severity: self.severity,
            description: self.description.clone(),
        };
        r
    }
}

/// Scans source text against the vulnerability catalogue.
#[derive(Debug, PartialEq, Eq)]
pub struct VulnerabilityScanner {
    /// The catalogue, in the order its entries are tried.
    pub vulnerability_db: Vec<VulnerabilityPattern>,
    /// What the scans so far have found, oldest first.
    pub findings: Vec<Vulnerability>,
}

/// The mathematical value of a [`VulnerabilityScanner`].
pub ghost struct VulnerabilityScannerModel {
    pub vulnerability_db: Seq<VulnerabilityPatternModel>,
    pub findings: Seq<VulnerabilityModel>,
}

impl DeepView for VulnerabilityScanner {
    type V = VulnerabilityScannerModel;

    open spec fn deep_view(&self) -> VulnerabilityScannerModel {
        VulnerabilityScannerModel {
            vulnerability_db: self.vulnerability_db.deep_view(),
            findings: self.findings.deep_view(),
        }
    }
}

impl Clone for VulnerabilityScanner {
    fn clone(&self) -> (r: Self)
        ensures
            r.deep_view() == self.deep_view(),
    {
        let r = VulnerabilityScanner {
            vulnerability_db: self.vulnerability_db.clone(),
            findings: self.findings.clone(),
        };
        assert(r.vulnerability_db.deep_view() =~= self.vulnerability_db.deep_view());
        assert(r.findings.deep_view() =~= self.findings.deep_view());
        r
    }
}

/// One entry of the secret catalogue.
#[derive(Debug, PartialEq, Eq)]
pub struct SecretPattern {
    pub name: String,
    /// A regular expression.
    pub pattern: String,
    pub secret_type: SecretType,
    /// Prior confidence in millionths, between 0 and 1 000 000.
    pub confidence: u64,
}

/// The mathematical value of a [`SecretPattern`].
pub ghost struct SecretPatternModel {
    pub name: Seq<char>,
    pub pattern: Seq<char>,
    pub secret_type: SecretType,
    pub confidence: u64,
}

impl DeepView for SecretPattern {
    type V = SecretPatternModel;

    open spec fn deep_view(&self) -> SecretPatternModel {
        SecretPatternModel {
            name: self.name.deep_view(),
            pattern: self.pattern.deep_view(),
            secret_type: self.secret_type.deep_view(),
            confidence: self.confidence.deep_view(),
        }
    }
}

impl Clone for SecretPattern {
    fn clone(&self) -> (r: Self)
        ensures
            r.deep_view() == self.deep_view(),
    {
        let r = SecretPattern {
            name: self.name.clone(),
            pattern: self.pattern.clone(),
            secret_type: self.secret_type,
            confidence: self.confidence,
        };
        r
    }
}

/// Scans source text against the secret catalogue.
#[derive(Debug, PartialEq, Eq)]
pub struct SecretsDetector {
    /// The catalogue, in the order its entries are tried.
    pub secret_patterns: Vec<SecretPattern>,
    /// What the scans so far have found, oldest first.
    pub findings: Vec<SecretFindings>,
}

/// The mathematical value of a [`SecretsDetector`].
pub ghost struct SecretsDetectorModel {
    pub secret_patterns: Seq<SecretPatternModel>,
    pub findings: Seq<SecretFindingsModel>,
}

impl DeepView for SecretsDetector {
    type V = SecretsDetectorModel;

    open spec fn deep_view(&self) -> SecretsDetectorModel {
        SecretsDetectorModel {
            secret_patterns: self.secret_patterns.deep_view(),
            findings: self.findings.deep_view(),
        }
    }
}

impl Clone for SecretsDetector {
    fn clone(&self) -> (r: Self)
        ensures
            r.deep_view() == self.deep_view(),
    {
        let r = SecretsDetector {
            secret_patterns: self.secret_patterns.clone(),
            findings: self.findings.clone(),
        };
        assert(r.secret_patterns.deep_view() =~= self.secret_patterns.deep_view());
        assert(r.findings.deep_view() =~= self.findings.deep_view());
        r
    }
}

/// What a well-behaved program is expected to do.
#[derive(Debug, PartialEq, Eq)]
pub struct BaselineBehavior {
    pub normal_syscalls: Vec<String>,
    pub normal_file_access: Vec<String>,
    pub normal_network_patterns: Vec<String>,
}

/// The mathematical value of a [`BaselineBehavior`].
pub ghost struct BaselineBehaviorModel {
    pub normal_syscalls: Seq<Seq<char>>,
    pub normal_file_access: Seq<Seq<char>>,
    pub normal_network_patterns: Seq<Seq<char>>,
}

impl DeepView for BaselineBehavior {
    type V = BaselineBehaviorModel;

    open spec fn deep_view(&self) -> BaselineBehaviorModel {
        BaselineBehaviorModel {
            normal_syscalls: self.normal_syscalls.deep_view(),
            normal_file_access: self.normal_file_access.deep_view(),
            normal_network_patterns: self.normal_network_patterns.deep_view(),
        }
    }
}

impl Clone for BaselineBehavior {
    fn clone(&self) -> (r: Self)
        ensures
            r.deep_view() == self.deep_view(),
    {
        let r = BaselineBehavior {
            normal_syscalls: self.normal_syscalls.clone(),
            normal_file_access: self.normal_file_access.clone(),
            normal_network_patterns: self.normal_network_patterns.clone(),
        };
        assert(r.normal_syscalls.deep_view() =~= self.normal_syscalls.deep_view());
        assert(r.normal_file_access.deep_view() =~= self.normal_file_access.deep_view());
        assert(r.normal_network_patterns.deep_view() =~= self.normal_network_patterns.deep_view());
        r
    }
}

/// Compares observed behaviour with a baseline.
#[derive(Debug, PartialEq, Eq)]
pub struct BehaviorAnalyzer {
    pub baseline_behavior: BaselineBehavior,
    pub anomaly_threshold: u64,
}

/// The mathematical value of a [`BehaviorAnalyzer`].
pub ghost struct BehaviorAnalyzerModel {
    pub baseline_behavior: BaselineBehaviorModel,
    pub anomaly_threshold: u64,
}

impl DeepView for BehaviorAnalyzer {
    type V = BehaviorAnalyzerModel;

    open spec fn deep_view(&self) -> BehaviorAnalyzerModel {
        BehaviorAnalyzerModel {
            baseline_behavior: self.baseline_behavior.deep_view(),
            anomaly_threshold: self.anomaly_threshold.deep_view(),
        }
    }
}

impl Clone for BehaviorAnalyzer {
    fn clone(&self) -> (r: Self)
        ensures
            r.deep_view() == self.deep_view(),
    {
        let r = BehaviorAnalyzer {
            baseline_behavior: self.baseline_behavior.clone(),
            anomaly_threshold: self.anomaly_threshold,
        };
        r
    }
}

/// The security observer.
#[derive(Debug, PartialEq, Eq)]
pub struct SecurityMonitor {
    pub config: SecurityConfig,
    pub syscall_monitor: SyscallMonitor,
    pub vulnerability_scanner: VulnerabilityScanner,
    pub secrets_detector: SecretsDetector,
    pub behavior_analyzer: BehaviorAnalyzer,
}

/// The mathematical value of a [`SecurityMonitor`].
pub ghost struct SecurityMonitorModel {
    pub config: SecurityConfigModel,
    pub syscall_monitor: SyscallMonitorModel,
    pub vulnerability_scanner: VulnerabilityScannerModel,
    pub secrets_detector: SecretsDetectorModel,
    pub behavior_analyzer: BehaviorAnalyzerModel,
}

impl DeepView for SecurityMonitor {
    type V = SecurityMonitorModel;

    open spec fn deep_view(&self) -> SecurityMonitorModel {
        SecurityMonitorModel {
            config: self.config.deep_view(),
            syscall_monitor: self.syscall_monitor.deep_view(),
            vulnerability_scanner: self.vulnerability_scanner.deep_view(),
            secrets_detector: self.secrets_detector.deep_view(),
            behavior_analyzer: self.behavior_analyzer.deep_view(),
        }
    }
}

impl Clone for SecurityMonitor {
    fn clone(&self) -> (r: Self)
        ensures
            r.deep_view() == self.deep_view(),
    {
        let r = SecurityMonitor {
            config: self.config.clone(),
            syscall_monitor: self.syscall_monitor.clone(),
            vulnerability_scanner: self.vulnerability_scanner.clone(),
            secrets_detector: self.secrets_detector.clone(),
            behavior_analyzer: self.behavior_analyzer.clone(),
        };
        r
    }
}

/// What the sandbox saw a program do while it ran.
#[derive(Debug, PartialEq, Eq)]
pub struct ObservedBehavior {
    /// The system calls the program attempted.
    pub syscalls: Vec<String>,
    /// The network destinations the program tried to reach.
    pub network_destinations: Vec<String>,
    /// The paths the program tried to open.
    pub file_paths: Vec<String>,
}

/// The mathematical value of an [`ObservedBehavior`].
pub ghost struct ObservedBehaviorModel {
    pub syscalls: Seq<Seq<char>>,
    pub network_destinations: Seq<Seq<char>>,
    pub file_paths: Seq<Seq<char>>,
}

impl DeepView for ObservedBehavior {
    type V = ObservedBehaviorModel;

    open spec fn deep_view(&self) -> ObservedBehaviorModel {
        ObservedBehaviorModel {
            syscalls: self.syscalls.deep_view(),
            network_destinations: self.network_destinations.deep_view(),
            file_paths: self.file_paths.deep_view(),
        }
    }
}

/// The points a violation of the given severity costs.
pub open spec fn violation_points(severity: ViolationSeverity) -> int {
    match severity {
        ViolationSeverity::Critical => 25,
        ViolationSeverity::High => 15,
        ViolationSeverity::Medium => 8,
        ViolationSeverity::Low => 3,
        ViolationSeverity::Info => 1,
    }
}

/// The points a vulnerability of the given severity costs.
pub open spec fn vulnerability_points(severity: VulnerabilitySeverity) -> int {
    match severity {
        VulnerabilitySeverity::Critical => 30,
        VulnerabilitySeverity::High => 20,
        VulnerabilitySeverity::Medium => 10,
        VulnerabilitySeverity::Low => 5,
    }
}

/// The points a secret of the given severity costs at full confidence.
pub open spec fn secret_points(severity: SecretSeverity) -> int {
    match severity {
        SecretSeverity::Critical => 20,
        SecretSeverity::High => 12,
        SecretSeverity::Medium => 6,
        SecretSeverity::Low => 2,
    }
}

/// What all violations cost together, in millionths of a point.
pub open spec fn violation_deductions(violations: Seq<SecurityViolationModel>) -> int
    decreases violations.len(),
{
    if violations.len() == 0 {
        0
    } else {
        violation_deductions(violations.drop_last()) + violation_points(violations.last().severity)
            * 1_000_000
    }
}

/// What all vulnerabilities cost together, in millionths of a point.
pub open spec fn vulnerability_deductions(vulnerabilities: Seq<VulnerabilityModel>) -> int
    decreases vulnerabilities.len(),
{
    if vulnerabilities.len() == 0 {
        0
    } else {
        vulnerability_deductions(vulnerabilities.drop_last()) + vulnerability_points(
            vulnerabilities.last().severity,
        ) * 1_000_000
    }
}

/// What all secrets cost together, in millionths of a point: each costs its
/// points times its confidence.
pub open spec fn secret_deductions(secrets: Seq<SecretFindingsModel>) -> int
    decreases secrets.len(),
{
    if secrets.len() == 0 {
        0
    } else {
        secret_deductions(secrets.drop_last()) + secret_points(secrets.last().severity)
            * secrets.last().confidence
    }
}

/// The security score: one hundred points less every deduction, and never
/// below zero.
pub open spec fn security_score(
    violations: Seq<SecurityViolationModel>,
    vulnerabilities: Seq<VulnerabilityModel>,
    secrets: Seq<SecretFindingsModel>,
) -> int {
    let lost = violation_deductions(violations) + vulnerability_deductions(vulnerabilities)
        + secret_deductions(secrets);
    if lost >= 100_000_000 {
        0
    } else {
        100_000_000 - lost
    }
}

/// Whether one of the violations is critical.
pub open spec fn has_critical_violation(violations: Seq<SecurityViolationModel>) -> bool {
    exists|i: int|
        0 <= i < violations.len() && (#[trigger] violations[i]).severity
            == ViolationSeverity::Critical
}

/// The risk level for a clamped security score, given whether a critical
/// violation was seen.
pub open spec fn risk_level_of(score: int, critical_violation: bool) -> RiskLevel {
    if critical_violation || score < 30_000_000 {
        RiskLevel::Critical
    } else if score < 50_000_000 {
        RiskLevel::High
    } else if score < 70_000_000 {
        RiskLevel::Medium
    } else if score < 90_000_000 {
        RiskLevel::Low
    } else {
        RiskLevel::Minimal
    }
}

/// A sum held at one hundred points once it reaches them.
pub open spec fn capped(total: int) -> int {
    if total >= 100_000_000 {
        100_000_000
    } else {
        total
    }
}

fn add_capped(acc: u64, cost: u128, Ghost(before): Ghost<int>) -> (r: u64)
    requires
        acc == capped(before),
        before >= 0,
    ensures
        r == capped(before + cost),
{
    if cost >= 100_000_000 {
        100_000_000
    } else {
        let sum: u64 = acc + cost as u64;
        if sum >= 100_000_000 {
            100_000_000
        } else {
            sum
        }
    }
}

fn violation_cost(severity: ViolationSeverity) -> (r: u128)
    ensures
        r == violation_points(severity) * 1_000_000,
{
    match severity {
        ViolationSeverity::Critical => 25_000_000,
        ViolationSeverity::High => 15_000_000,
        ViolationSeverity::Medium => 8_000_000,
        ViolationSeverity::Low => 3_000_000,
        ViolationSeverity::Info => 1_000_000,
    }
}

fn vulnerability_cost(severity: VulnerabilitySeverity) -> (r: u128)
    ensures
        r == vulnerability_points(severity) * 1_000_000,
{
    match severity {
        VulnerabilitySeverity::Critical => 30_000_000,
        VulnerabilitySeverity::High => 20_000_000,
        VulnerabilitySeverity::Medium => 10_000_000,
        VulnerabilitySeverity::Low => 5_000_000,
    }
}

fn secret_cost(severity: SecretSeverity, confidence: u64) -> (r: u128)
    ensures
        r == secret_points(severity) * confidence,
{
    let points: u128 = match severity {
        SecretSeverity::Critical => 20,
        SecretSeverity::High => 12,
        SecretSeverity::Medium => 6,
        SecretSeverity::Low => 2,
    };
    assert(points * confidence <= 20 * 0xffff_ffff_ffff_ffff) by (nonlinear_arith)
        requires
            points <= 20,
            confidence <= 0xffff_ffff_ffff_ffff,
    ;
    points * (confidence as u128)
}

/// The security score of what was found, in millionths of a point.
pub fn calculate_security_score(
    violations: &Vec<SecurityViolation>,
    vulnerabilities: &Vec<Vulnerability>,
    secrets: &Vec<SecretFindings>,
) -> (score: u64)
    ensures
        score == security_score(
            violations.deep_view(),
            vulnerabilities.deep_view(),
            secrets.deep_view(),
        ),
        score <= 100_000_000,
{
    let mut lost: u64 = 0;
    let ghost v = violations.deep_view();
    let ghost u = vulnerabilities.deep_view();
    let ghost s = secrets.deep_view();
    let mut i: usize = 0;
    while i < violations.len()
        invariant
            i <= violations.len(),
            v == violations.deep_view(),
            lost == capped(violation_deductions(v.take(i as int))),
        decreases violations.len() - i,
    {
        assert(v.take(i + 1).drop_last() == v.take(i as int));
        lost = add_capped(
            lost,
            violation_cost(violations[i].severity),
            Ghost(violation_deductions(v.take(i as int))),
        );
        i += 1;
    }
    assert(v.take(violations.len() as int) == v);
    let mut j: usize = 0;
    while j < vulnerabilities.len()
        invariant
            j <= vulnerabilities.len(),
            u == vulnerabilities.deep_view(),
            lost == capped(violation_deductions(v) + vulnerability_deductions(u.take(j as int))),
        decreases vulnerabilities.len() - j,
    {
        assert(u.take(j + 1).drop_last() == u.take(j as int));
        lost = add_capped(
            lost,
            vulnerability_cost(vulnerabilities[j].severity),
            Ghost(violation_deductions(v) + vulnerability_deductions(u.take(j as int))),
        );
        j += 1;
    }
    assert(u.take(vulnerabilities.len() as int) == u);
    let mut k: usize = 0;
    while k < secrets.len()
        invariant
            k <= secrets.len(),
            s == secrets.deep_view(),
            lost == capped(
                violation_deductions(v) + vulnerability_deductions(u) + secret_deductions(
                    s.take(k as int),
                ),
            ),
        decreases secrets.len() - k,
    {
        assert(s.take(k + 1).drop_last() == s.take(k as int));
        lost = add_capped(
            lost,
            secret_cost(secrets[k].severity, secrets[k].confidence),
            Ghost(
                violation_deductions(v) + vulnerability_deductions(u) + secret_deductions(
                    s.take(k as int),
                ),
            ),
        );
        k += 1;
    }
    assert(s.take(secrets.len() as int) == s);
    100_000_000 - lost
}

/// The risk level for a security score and the violations that were seen.
pub fn determine_risk_level(score: u64, violations: &Vec<SecurityViolation>) -> (level: RiskLevel)
    ensures
        level == risk_level_of(score as int, has_critical_violation(violations.deep_view())),
{
    let mut critical = false;
    let mut i: usize = 0;
    while i < violations.len()
        invariant
            i <= violations.len(),
            critical == has_critical_violation(violations.deep_view().take(i as int)),
        decreases violations.len() - i,
    {
        let ghost seen = violations.deep_view().take(i as int);
        let ghost next = violations.deep_view().take(i + 1);
        if violations[i].severity == ViolationSeverity::Critical {
            assert(next[i as int].severity == ViolationSeverity::Critical);
            critical = true;
        } else {
            proof {
                if has_critical_violation(seen) {
                    let w = choose|w: int|
                        0 <= w < seen.len() && (#[trigger] seen[w]).severity
                            == ViolationSeverity::Critical;
                    assert(next[w].severity == ViolationSeverity::Critical);
                }
                if has_critical_violation(next) {
                    let w = choose|w: int|
                        0 <= w < next.len() && (#[trigger] next[w]).severity
                            == ViolationSeverity::Critical;
                    assert(seen[w].severity == ViolationSeverity::Critical);
                }
            }
        }
        i += 1;
    }
    assert(violations.deep_view().take(violations.len() as int) == violations.deep_view());
    if critical || score < 30_000_000 {
        RiskLevel::Critical
    } else if score < 50_000_000 {
        RiskLevel::High
    } else if score < 70_000_000 {
        RiskLevel::Medium
    } else if score < 90_000_000 {
        RiskLevel::Low
    } else {
        RiskLevel::Minimal
    }
}

/// The three classes of runtime policy.
#[derive(Debug, Clone, Copy, PartialEq, Eq, Structural)]
pub enum PolicyClass {
    /// A system call is refused when the blocklist names it.
    Syscall,
    /// A network destination is refused unless the allow-list names it.
    Network,
    /// A path is refused when an entry of the sensitive-path list is a prefix of it.
    FileSystem,
}

/// Whether one of the entries is a prefix of `path`.
pub open spec fn under_any(entries: Seq<Seq<char>>, path: Seq<char>) -> bool {
    exists|k: int| 0 <= k < entries.len() && crate::text::has_prefix(path, #[trigger] entries[k])
}

/// Whether `subject` breaks the policy of the given class that `entries`
/// configures.
pub open spec fn breaks_policy(class: PolicyClass, entries: Seq<Seq<char>>, subject: Seq<char>) -> bool {
    match class {
        PolicyClass::Syscall => entries.contains(subject),
        PolicyClass::Network => !entries.contains(subject),
        PolicyClass::FileSystem => under_any(entries, subject),
    }
}

/// The violation recorded when `subject` breaks the policy of the given class
/// at the instant `now`.
pub open spec fn policy_violation(class: PolicyClass, subject: Seq<char>, now: i64) -> SecurityViolationModel {
    match class {
        PolicyClass::Syscall => SecurityViolationModel {
            violation_type: ViolationType::UnauthorizedSyscall,
            severity: ViolationSeverity::High,
            title: "Blocked syscall attempted"@,
            description: "Code attempted to use blocked syscall: "@ + subject,
            timestamp: now,
            location: None,
            evidence: seq![DataEntryModel { key: "syscall"@, value: crate::DataValueModel::Text(subject) }],
            risk_level: "high"@,
            mitigation: "Remove or replace the syscall usage"@,
        },
        PolicyClass::Network => SecurityViolationModel {
            violation_type: ViolationType::NetworkAccess,
            severity: ViolationSeverity::Medium,
            title: "Unauthorized network access"@,
            description: "Code attempted to access external network: "@ + subject,
            timestamp: now,
            location: Some(subject),
            evidence: seq![
                DataEntryModel { key: "destination"@, value: crate::DataValueModel::Text(subject) },
            ],
            risk_level: "medium"@,
            mitigation: "Restrict network access or use allowed endpoints"@,
        },
        PolicyClass::FileSystem => SecurityViolationModel {
            violation_type: ViolationType::FileSystemAccess,
            severity: ViolationSeverity::High,
            title: "Sensitive file access"@,
            description: "Code attempted to access sensitive file: "@ + subject,
            timestamp: now,
            location: Some(subject),
            evidence: seq![DataEntryModel { key: "path"@, value: crate::DataValueModel::Text(subject) }],
            risk_level: "high"@,
            mitigation: "Restrict file system access permissions"@,
        },
    }
}

/// The violations of one policy class among what was observed, in the order
/// of observation.
pub open spec fn policy_violations(
    class: PolicyClass,
    entries: Seq<Seq<char>>,
    observed: Seq<Seq<char>>,
    now: i64,
) -> Seq<SecurityViolationModel>
    decreases observed.len(),
{
    if observed.len() == 0 {
        Seq::empty()
    } else {
        let earlier = policy_violations(class, entries, observed.drop_last(), now);
        if breaks_policy(class, entries, observed.last()) {
            earlier.push(policy_violation(class, observed.last(), now))
        } else {
            earlier
        }
    }
}

fn is_under_any(entries: &Vec<String>, path: &str) -> (r: bool)
    ensures
        r == under_any(entries.deep_view(), path@),
{
    let mut k: usize = 0;
    while k < entries.len()
        invariant
            k <= entries.len(),
            forall|j: int| 0 <= j < k ==> !crate::text::has_prefix(path@, #[trigger] entries.deep_view()[j]),
        decreases entries.len() - k,
    {
        if crate::text::starts_with(path, entries[k].as_str()) {
            assert(crate::text::has_prefix(path@, entries.deep_view()[k as int]));
            return true;
        }
        k += 1;
    }
    false
}

fn violates(class: PolicyClass, entries: &Vec<String>, subject: &str) -> (r: bool)
    ensures
        r == breaks_policy(class, entries.deep_view(), subject@),
{
    match class {
        PolicyClass::Syscall => crate::text::contains_text(entries, subject),
        PolicyClass::Network => !crate::text::contains_text(entries, subject),
        PolicyClass::FileSystem => is_under_any(entries, subject),
    }
}

fn one_entry(entry: DataEntry) -> (r: Vec<DataEntry>)
    ensures
        r.deep_view() == seq![entry.deep_view()],
{
    let mut out: Vec<DataEntry> = Vec::new();
    out.push(entry);
    assert(out.deep_view() =~= seq![entry.deep_view()]);
    out
}

fn record_violation(class: PolicyClass, subject: &str, now: i64) -> (r: SecurityViolation)
    ensures
        r.deep_view() == policy_violation(class, subject@, now),
{
    let r = match class {
        PolicyClass::Syscall => SecurityViolation {
            violation_type: ViolationType::UnauthorizedSyscall,
            severity: ViolationSeverity::High,
            title: String::from_str("Blocked syscall attempted"),
            description: crate::text::join2("Code attempted to use blocked syscall: ", subject),
            timestamp: now,
            location: None,
            evidence: one_entry(crate::text_entry("syscall", subject)),
            risk_level: String::from_str("high"),
            mitigation: String::from_str("Remove or replace the syscall usage"),
        },
        PolicyClass::Network => SecurityViolation {
            violation_type: ViolationType::NetworkAccess,
            severity: ViolationSeverity::Medium,
            title: String::from_str("Unauthorized network access"),
            description: crate::text::join2("Code attempted to access external network: ", subject),
            timestamp: now,
            location: Some(String::from_str(subject)),
            evidence: one_entry(crate::text_entry("destination", subject)),
            risk_level: String::from_str("medium"),
            mitigation: String::from_str("Restrict network access or use allowed endpoints"),
        },
        PolicyClass::FileSystem => SecurityViolation {
            violation_type: ViolationType::FileSystemAccess,
            severity: ViolationSeverity::High,
            title: String::from_str("Sensitive file access"),
            description: crate::text::join2("Code attempted to access sensitive file: ", subject),
            timestamp: now,
            location: Some(String::from_str(subject)),
            evidence: one_entry(crate::text_entry("path", subject)),
            risk_level: String::from_str("high"),
            mitigation: String::from_str("Restrict file system access permissions"),
        },
    };
    r
}

/// Checks what was observed against one policy class and records each
/// breach.
pub fn check_policy(class: PolicyClass, entries: &Vec<String>, observed: &Vec<String>, now: i64) -> (r: Vec<
    SecurityViolation,
>)
    ensures
        r.deep_view() == policy_violations(class, entries.deep_view(), observed.deep_view(), now),
{
    let mut out: Vec<SecurityViolation> = Vec::new();
    let ghost seen = observed.deep_view();
    let mut i: usize = 0;
    assert(out.deep_view() =~= Seq::empty());
    while i < observed.len()
        invariant
            i <= observed.len(),
            seen == observed.deep_view(),
            out.deep_view() == policy_violations(class, entries.deep_view(), seen.take(i as int), now),
        decreases observed.len() - i,
    {
        assert(seen.take(i + 1).drop_last() == seen.take(i as int));
        assert(seen.take(i + 1).last() == observed[i as int]@);
        if violates(class, entries, observed[i].as_str()) {
            let ghost before = out.deep_view();
            let v = record_violation(class, observed[i].as_str(), now);
            out.push(v);
            assert(out.deep_view() =~= before.push(v.deep_view()));
        }
        i += 1;
    }
    assert(seen.take(observed.len() as int) == seen);
    out
}

/// The texts of `list` without repetitions, each at the place of its first
/// occurrence.
pub open spec fn distinct(list: Seq<Seq<char>>) -> Seq<Seq<char>>
    decreases list.len(),
{
    if list.len() == 0 {
        Seq::empty()
    } else {
        let earlier = distinct(list.drop_last());
        if earlier.contains(list.last()) {
            earlier
        } else {
            earlier.push(list.last())
        }
    }
}

/// The system calls that are watched but not refused.
pub open spec fn monitored_syscall_names() -> Seq<Seq<char>> {
    seq!["open"@, "read"@, "write"@, "connect"@, "bind"@, "execve"@, "fork"@, "clone"@]
}

impl SyscallMonitor {
    /// A monitor that refuses the configured system calls, each named once.
    pub fn new(config: &SecurityConfig) -> (r: Self)
        ensures
            r.blocked_syscalls.deep_view() == distinct(config.blocked_syscalls.deep_view()),
            r.monitored_syscalls.deep_view() == monitored_syscall_names(),
    {
        let mut blocked: Vec<String> = Vec::new();
        let ghost all = config.blocked_syscalls.deep_view();
        let mut i: usize = 0;
        assert(blocked.deep_view() =~= Seq::empty());
        while i < config.blocked_syscalls.len()
            invariant
                i <= config.blocked_syscalls.len(),
                all == config.blocked_syscalls.deep_view(),
                blocked.deep_view() == distinct(all.take(i as int)),
            decreases config.blocked_syscalls.len() - i,
        {
            assert(all.take(i + 1).drop_last() == all.take(i as int));
            assert(all.take(i + 1).last() == config.blocked_syscalls[i as int]@);
            if !crate::text::contains_text(&blocked, config.blocked_syscalls[i].as_str()) {
                let ghost before = blocked.deep_view();
                let name = config.blocked_syscalls[i].clone();
                blocked.push(name);
                assert(blocked.deep_view() =~= before.push(name@));
            }
            i += 1;
        }
        assert(all.take(config.blocked_syscalls.len() as int) == all);
        let mut monitored: Vec<String> = Vec::new();
        monitored.push(String::from_str("open"));
        monitored.push(String::from_str("read"));
        monitored.push(String::from_str("write"));
        monitored.push(String::from_str("connect"));
        monitored.push(String::from_str("bind"));
        monitored.push(String::from_str("execve"));
        monitored.push(String::from_str("fork"));
        monitored.push(String::from_str("clone"));
        assert(monitored.deep_view() =~= monitored_syscall_names());
        SyscallMonitor { blocked_syscalls: blocked, monitored_syscalls: monitored }
    }

    /// The violations among the system calls a program attempted: one for
    /// each attempt that the blocklist names.
    pub fn check_violations(&self, attempted: &Vec<String>, now: i64) -> (r: Vec<SecurityViolation>)
        ensures
            r.deep_view() == policy_violations(
                PolicyClass::Syscall,
                self.blocked_syscalls.deep_view(),
                attempted.deep_view(),
                now,
            ),
    {
        check_policy(PolicyClass::Syscall, &self.blocked_syscalls, attempted, now)
    }
}

impl VulnerabilityModel {
    /// The vulnerability with its identifier blanked.
    pub open spec fn anonymous(self) -> VulnerabilityModel {
        VulnerabilityModel { id: Seq::empty(), ..self }
    }
}

/// The vulnerabilities with their identifiers blanked.
pub open spec fn anonymous_vulnerabilities(list: Seq<VulnerabilityModel>) -> Seq<VulnerabilityModel> {
    list.map_values(|v: VulnerabilityModel| v.anonymous())
}

/// Whether the regular expression `pattern` compiles and matches somewhere
/// in `line`.
pub open spec fn pattern_found(pattern: Seq<char>, line: Seq<char>) -> bool {
    crate::outside::regex_find(pattern, line) matches Some(Some(_))
}

/// How a vulnerability of the given class is remedied.
pub open spec fn remediation_text(class: VulnerabilityType) -> Seq<char> {
    match class {
        VulnerabilityType::BufferOverflow => "Check every length before copying into a buffer"@,
        VulnerabilityType::SqlInjection => "Use parameterized queries or prepared statements"@,
        VulnerabilityType::CrossSiteScripting => "Escape untrusted data before writing it into a page"@,
        VulnerabilityType::PathTraversal => "Resolve paths and refuse those that leave the allowed directory"@,
        VulnerabilityType::CommandInjection => "Pass arguments as a list and never build shell commands from input"@,
        VulnerabilityType::DeserializationVulnerability => "Deserialize only data from trusted sources"@,
        VulnerabilityType::CryptographicWeakness => "Use a current, reviewed cryptographic primitive"@,
        VulnerabilityType::AuthenticationBypass => "Require authentication on every entry point"@,
        VulnerabilityType::AuthorizationFlaws => "Check permissions on every access"@,
        VulnerabilityType::InformationLeakage => "Remove sensitive data from outputs and logs"@,
        VulnerabilityType::DependencyVulnerability => "Update the dependency to a fixed version"@,
        VulnerabilityType::ConfigurationError => "Review the configuration against a hardened baseline"@,
    }
}

fn remediation_for(class: VulnerabilityType) -> (r: String)
    ensures
        r@ == remediation_text(class),
{
    match class {
        VulnerabilityType::BufferOverflow => String::from_str("Check every length before copying into a buffer"),
        VulnerabilityType::SqlInjection => String::from_str("Use parameterized queries or prepared statements"),
        VulnerabilityType::CrossSiteScripting => String::from_str("Escape untrusted data before writing it into a page"),
        VulnerabilityType::PathTraversal => String::from_str("Resolve paths and refuse those that leave the allowed directory"),
        VulnerabilityType::CommandInjection => String::from_str("Pass arguments as a list and never build shell commands from input"),
        VulnerabilityType::DeserializationVulnerability => String::from_str("Deserialize only data from trusted sources"),
        VulnerabilityType::CryptographicWeakness => String::from_str("Use a current, reviewed cryptographic primitive"),
        VulnerabilityType::AuthenticationBypass => String::from_str("Require authentication on every entry point"),
        VulnerabilityType::AuthorizationFlaws => String::from_str("Check permissions on every access"),
        VulnerabilityType::InformationLeakage => String::from_str("Remove sensitive data from outputs and logs"),
        VulnerabilityType::DependencyVulnerability => String::from_str("Update the dependency to a fixed version"),
        VulnerabilityType::ConfigurationError => String::from_str("Review the configuration against a hardened baseline"),
    }
}

/// The vulnerability recorded when a catalogue entry matches the line at
/// position `index` of the file at `path`, with the identifier `id`.
pub open spec fn vulnerability_found(
    entry: VulnerabilityPatternModel,
    path: Seq<char>,
    index: nat,
    now: i64,
    id: Seq<char>,
) -> VulnerabilityModel {
    VulnerabilityModel {
        id: id,
        vulnerability_type: entry.vulnerability_type,
        severity: entry.severity,
        title: entry.name,
        description: entry.description,
        affected_component: path + ":"@ + crate::text::decimal_digits(
            crate::line_number_at(index) as nat,
        ),
        cve_id: None,
        cvss_score: None,
        discovered_at: now,
        remediation: remediation_text(entry.vulnerability_type),
        references: Seq::empty(),
    }
}

/// What the first `entries` of the catalogue find in one line, identifiers
/// blanked.
pub open spec fn line_vulnerabilities(
    entries: Seq<VulnerabilityPatternModel>,
    path: Seq<char>,
    index: nat,
    line: Seq<char>,
    now: i64,
) -> Seq<VulnerabilityModel>
    decreases entries.len(),
{
    if entries.len() == 0 {
        Seq::empty()
    } else {
        let earlier = line_vulnerabilities(entries.drop_last(), path, index, line, now);
        if pattern_found(entries.last().pattern, line) {
            earlier.push(vulnerability_found(entries.last(), path, index, now, Seq::empty()))
        } else {
            earlier
        }
    }
}

/// What the catalogue finds in the given lines of a file, line by line and
/// within a line entry by entry, identifiers blanked.
pub open spec fn file_vulnerabilities(
    entries: Seq<VulnerabilityPatternModel>,
    path: Seq<char>,
    lines: Seq<Seq<char>>,
    now: i64,
) -> Seq<VulnerabilityModel>
    decreases lines.len(),
{
    if lines.len() == 0 {
        Seq::empty()
    } else {
        file_vulnerabilities(entries, path, lines.drop_last(), now) + line_vulnerabilities(
            entries,
            path,
            (lines.len() - 1) as nat,
            lines.last(),
            now,
        )
    }
}

/// The catalogue a scanner starts with.
pub open spec fn default_vulnerability_catalogue() -> Seq<VulnerabilityPatternModel> {
    seq![
        VulnerabilityPatternModel {
            name: "SQL Injection"@,
            pattern: "(?i)(select|insert|update|delete).*(\\+|concat).*input"@,
            vulnerability_type: VulnerabilityType::SqlInjection,
            severity: VulnerabilitySeverity::High,
            description: "Potential SQL injection vulnerability"@,
        },
        VulnerabilityPatternModel {
            name: "Command Injection"@,
            pattern: "(?i)(system|exec|eval|cmd).*input"@,
            vulnerability_type: VulnerabilityType::CommandInjection,
            severity: VulnerabilitySeverity::Critical,
            description: "Potential command injection vulnerability"@,
        },
    ]
}

fn vulnerability_record(entry: &VulnerabilityPattern, path: &str, index: usize, now: i64, id: String) -> (r:
    Vulnerability)
    ensures
        r.deep_view() == vulnerability_found(entry.deep_view(), path@, index as nat, now, id@),
{
    let number = crate::text::decimal(crate::line_number(index) as u64);
    let r = Vulnerability {
        id: id,
        vulnerability_type: entry.vulnerability_type,
        severity: entry.severity,
        title: entry.name.clone(),
        description: entry.description.clone(),
        affected_component: crate::text::join3(path, ":", number.as_str()),
        cve_id: None,
        cvss_score: None,
        discovered_at: now,
        remediation: remediation_for(entry.vulnerability_type),
        references: Vec::new(),
    };
    assert(r.references.deep_view() =~= Seq::empty());
    r
}

impl VulnerabilityScanner {
    /// A scanner with the default catalogue and nothing found yet.
    pub fn new() -> (r: Self)
        ensures
            r.vulnerability_db.deep_view() == default_vulnerability_catalogue(),
            r.findings.deep_view() == Seq::<VulnerabilityModel>::empty(),
    {
        let mut db: Vec<VulnerabilityPattern> = Vec::new();
        db.push(
            VulnerabilityPattern {
                name: String::from_str("SQL Injection"),
                pattern: String::from_str("(?i)(select|insert|update|delete).*(\\+|concat).*input"),
                vulnerability_type: VulnerabilityType::SqlInjection,
                severity: VulnerabilitySeverity::High,
                description: String::from_str("Potential SQL injection vulnerability"),
            },
        );
        db.push(
            VulnerabilityPattern {
                name: String::from_str("Command Injection"),
                pattern: String::from_str("(?i)(system|exec|eval|cmd).*input"),
                vulnerability_type: VulnerabilityType::CommandInjection,
                severity: VulnerabilitySeverity::Critical,
                description: String::from_str("Potential command injection vulnerability"),
            },
        );
        assert(db.deep_view() =~= default_vulnerability_catalogue());
        let r = VulnerabilityScanner { vulnerability_db: db, findings: Vec::new() };
        assert(r.findings.deep_view() =~= Seq::empty());
        r
    }

    /// A scanner with the given catalogue and nothing found yet.
    pub fn with_patterns(catalogue: Vec<VulnerabilityPattern>) -> (r: Self)
        ensures
            r.vulnerability_db == catalogue,
            r.findings.deep_view() == Seq::<VulnerabilityModel>::empty(),
    {
        let r = VulnerabilityScanner { vulnerability_db: catalogue, findings: Vec::new() };
        assert(r.findings.deep_view() =~= Seq::empty());
        r
    }

    /// Scans one file line by line and appends what the catalogue finds to
    /// the findings. An entry whose pattern does not compile finds nothing.
    pub fn scan_file(&mut self, file: &crate::CodeFile, now: i64)
        ensures
            final(self).vulnerability_db == old(self).vulnerability_db,
            final(self).findings.deep_view().len() >= old(self).findings.deep_view().len(),
            final(self).findings.deep_view().take(old(self).findings.deep_view().len() as int) == old(
                self,
            ).findings.deep_view(),
            anonymous_vulnerabilities(
                final(self).findings.deep_view().skip(old(self).findings.deep_view().len() as int),
            ) == file_vulnerabilities(
                old(self).vulnerability_db.deep_view(),
                file.path@,
                crate::text::split(file.content@, '\n'),
                now,
            ),
    {
        let content = crate::text::to_chars(file.content.as_str());
        let lines = crate::text::split_on(&content, '\n');
        let ghost all = lines.deep_view();
        let ghost entries = self.vulnerability_db.deep_view();
        let ghost before = self.findings.deep_view();
        let ghost n0 = before.len() as int;
        let mut i: usize = 0;
        assert(self.findings.deep_view().skip(n0) =~= Seq::empty());
        assert(self.findings.deep_view().take(n0) =~= before);
        while i < lines.len()
            invariant
                i <= lines.len(),
                all == lines.deep_view(),
                self.vulnerability_db == old(self).vulnerability_db,
                entries == self.vulnerability_db.deep_view(),
                before == old(self).findings.deep_view(),
                n0 == before.len(),
                self.findings.deep_view().len() >= n0,
                self.findings.deep_view().take(n0) == before,
                anonymous_vulnerabilities(self.findings.deep_view().skip(n0)) == file_vulnerabilities(
                    entries,
                    file.path@,
                    all.take(i as int),
                    now,
                ),
            decreases lines.len() - i,
        {
            let line = crate::text::from_chars(&lines[i]);
            proof {
                crate::text::lemma_chars_deep_view(lines[i as int]);
                assert(all.take(i + 1).drop_last() == all.take(i as int));
                assert(all.take(i + 1).last() == line@);
            }
            let ghost done = file_vulnerabilities(entries, file.path@, all.take(i as int), now);
            let mut j: usize = 0;
            while j < self.vulnerability_db.len()
                invariant
                    j <= self.vulnerability_db.len(),
                    i < lines.len(),
                    self.vulnerability_db == old(self).vulnerability_db,
                    entries == self.vulnerability_db.deep_view(),
                    n0 == before.len(),
                    self.findings.deep_view().len() >= n0,
                    self.findings.deep_view().take(n0) == before,
                    anonymous_vulnerabilities(self.findings.deep_view().skip(n0)) == done
                        + line_vulnerabilities(entries.take(j as int), file.path@, i as nat, line@, now),
                decreases self.vulnerability_db.len() - j,
            {
                assert(entries.take(j + 1).drop_last() == entries.take(j as int));
                assert(entries.take(j + 1).last() == self.vulnerability_db[j as int].deep_view());
                let hit = crate::outside::find_pattern(self.vulnerability_db[j].pattern.as_str(), line.as_str());
                let is_hit = match hit {
                    Some(Some(_)) => true,
                    _ => false,
                };
                if is_hit {
                    let ghost had = self.findings.deep_view();
                    let id = crate::outside::new_id();
                    let v = vulnerability_record(&self.vulnerability_db[j], file.path.as_str(), i, now, id);
                    self.findings.push(v);
                    proof {
                        let has = self.findings.deep_view();
                        assert(has =~= had.push(v.deep_view()));
                        assert(has.take(n0) =~= had.take(n0));
                        assert(has.skip(n0) =~= had.skip(n0).push(v.deep_view()));
                        assert(anonymous_vulnerabilities(has.skip(n0)) =~= anonymous_vulnerabilities(
                            had.skip(n0),
                        ).push(v.deep_view().anonymous()));
                    }
                }
                j += 1;
            }
            assert(entries.take(self.vulnerability_db.len() as int) == entries);
            i += 1;
        }
        assert(all.take(lines.len() as int) == all);
    }

    /// What the scans so far have found, oldest first.
    pub fn get_findings(&self) -> (r: Vec<Vulnerability>)
        ensures
            r.deep_view() == self.findings.deep_view(),
    {
        let r = self.findings.clone();
        assert(r.deep_view() =~= self.findings.deep_view());
        r
    }
}

/// The severity of a leaked secret, by its kind.
pub open spec fn secret_severity(kind: SecretType) -> SecretSeverity {
    match kind {
        SecretType::PrivateKey => SecretSeverity::Critical,
        SecretType::Certificate => SecretSeverity::Critical,
        SecretType::DatabaseCredential => SecretSeverity::Critical,
        SecretType::CloudCredential => SecretSeverity::Critical,
        SecretType::CryptographicKey => SecretSeverity::Critical,
        SecretType::ApiKey => SecretSeverity::High,
        SecretType::Password => SecretSeverity::High,
        SecretType::Token => SecretSeverity::High,
        SecretType::SessionToken => SecretSeverity::Medium,
        SecretType::Other => SecretSeverity::Low,
    }
}

/// The severity of a leaked secret of the given kind.
pub fn severity_of_secret(kind: SecretType) -> (r: SecretSeverity)
    ensures
        r == secret_severity(kind),
{
    match kind {
        SecretType::PrivateKey => SecretSeverity::Critical,
        SecretType::Certificate => SecretSeverity::Critical,
        SecretType::DatabaseCredential => SecretSeverity::Critical,
        SecretType::CloudCredential => SecretSeverity::Critical,
        SecretType::CryptographicKey => SecretSeverity::Critical,
        SecretType::ApiKey => SecretSeverity::High,
        SecretType::Password => SecretSeverity::High,
        SecretType::Token => SecretSeverity::High,
        SecretType::SessionToken => SecretSeverity::Medium,
        SecretType::Other => SecretSeverity::Low,
    }
}

/// Where the context window of the line at `index` begins.
pub open spec fn window_start(index: int) -> int {
    if index < 3 {
        0
    } else {
        index - 3
    }
}

/// Where the context window of the line at `index` ends, among `count` lines.
pub open spec fn window_end(index: int, count: int) -> int {
    if index + 4 > count {
        count
    } else {
        index + 4
    }
}

/// The line at `index` with up to three lines on each side, one per line.
pub open spec fn context_window(lines: Seq<Seq<char>>, index: int) -> Seq<char> {
    crate::text::joined(lines, window_start(index), window_end(index, lines.len() as int), seq!['\n'])
}

/// The finding recorded when a catalogue entry matches `matched` in the line
/// at position `index`.
pub open spec fn secret_found(
    entry: SecretPatternModel,
    path: Seq<char>,
    lines: Seq<Seq<char>>,
    index: nat,
    matched: Seq<char>,
) -> SecretFindingsModel {
    SecretFindingsModel {
        secret_type: entry.secret_type,
        confidence: entry.confidence,
        file_path: path,
        line_number: crate::line_number_at(index),
        matched_text: matched,
        context: context_window(lines, index as int),
        severity: secret_severity(entry.secret_type),
    }
}

/// What the given catalogue entries find in the line at position `index`.
pub open spec fn line_secrets(
    entries: Seq<SecretPatternModel>,
    path: Seq<char>,
    lines: Seq<Seq<char>>,
    index: nat,
) -> Seq<SecretFindingsModel>
    decreases entries.len(),
{
    if entries.len() == 0 {
        Seq::empty()
    } else {
        let earlier = line_secrets(entries.drop_last(), path, lines, index);
        match crate::outside::regex_find(entries.last().pattern, lines[index as int]) {
            Some(Some(matched)) => earlier.push(
                secret_found(entries.last(), path, lines, index, matched),
            ),
            _ => earlier,
        }
    }
}

/// What the catalogue finds in the first `count` lines of a file, line by
/// line and within a line entry by entry.
pub open spec fn file_secrets(
    entries: Seq<SecretPatternModel>,
    path: Seq<char>,
    lines: Seq<Seq<char>>,
    count: nat,
) -> Seq<SecretFindingsModel>
    decreases count,
{
    if count == 0 {
        Seq::empty()
    } else {
        file_secrets(entries, path, lines, (count - 1) as nat) + line_secrets(
            entries,
            path,
            lines,
            (count - 1) as nat,
        )
    }
}

/// The catalogue a detector starts with.
pub open spec fn default_secret_catalogue() -> Seq<SecretPatternModel> {
    seq![
        SecretPatternModel {
            name: "API Key"@,
            pattern: "(?i)(api[_-]?key|apikey)\\s*[:=]\\s*['\\x22]?([a-zA-Z0-9_-]{16,})['\\x22]?"@,
            secret_type: SecretType::ApiKey,
            confidence: 800_000,
        },
        SecretPatternModel {
            name: "Password"@,
            pattern: "(?i)(password|passwd|pwd)\\s*[:=]\\s*['\\x22]?([^'\\x22\\s]{8,})['\\x22]?"@,
            secret_type: SecretType::Password,
            confidence: 700_000,
        },
        SecretPatternModel {
            name: "Private Key"@,
            pattern: "-----BEGIN\\s+(RSA\\s+)?PRIVATE\\s+KEY-----"@,
            secret_type: SecretType::PrivateKey,
            confidence: 950_000,
        },
    ]
}

fn context_of(lines: &Vec<Vec<char>>, index: usize) -> (r: String)
    requires
        index < lines.len(),
    ensures
        r@ == context_window(lines.deep_view(), index as int),
{
    let from: usize = if index < 3 {
        0
    } else {
        index - 3
    };
    let to: usize = if lines.len() - index < 4 {
        lines.len()
    } else {
        index + 4
    };
    let mut newline: Vec<char> = Vec::new();
    newline.push('\n');
    assert(newline@ =~= seq!['\n']);
    let window = crate::text::join_range(lines, from, to, &newline);
    crate::text::from_chars(&window)
}

impl SecretsDetector {
    /// A detector with the default catalogue and nothing found yet.
    pub fn new() -> (r: Self)
        ensures
            r.secret_patterns.deep_view() == default_secret_catalogue(),
            r.findings.deep_view() == Seq::<SecretFindingsModel>::empty(),
    {
        let mut patterns: Vec<SecretPattern> = Vec::new();
        patterns.push(
            SecretPattern {
                name: String::from_str("API Key"),
                pattern: String::from_str(
                    "(?i)(api[_-]?key|apikey)\\s*[:=]\\s*['\\x22]?([a-zA-Z0-9_-]{16,})['\\x22]?",
                ),
                secret_type: SecretType::ApiKey,
                confidence: 800_000,
            },
        );
        patterns.push(
            SecretPattern {
                name: String::from_str("Password"),
                pattern: String::from_str(
                    "(?i)(password|passwd|pwd)\\s*[:=]\\s*['\\x22]?([^'\\x22\\s]{8,})['\\x22]?",
                ),
                secret_type: SecretType::Password,
                confidence: 700_000,
            },
        );
        patterns.push(
            SecretPattern {
                name: String::from_str("Private Key"),
                pattern: String::from_str("-----BEGIN\\s+(RSA\\s+)?PRIVATE\\s+KEY-----"),
                secret_type: SecretType::PrivateKey,
                confidence: 950_000,
            },
        );
        assert(patterns.deep_view() =~= default_secret_catalogue());
        let r = SecretsDetector { secret_patterns: patterns, findings: Vec::new() };
        assert(r.findings.deep_view() =~= Seq::empty());
        r
    }

    /// A detector with the given catalogue and nothing found yet.
    pub fn with_patterns(catalogue: Vec<SecretPattern>) -> (r: Self)
        ensures
            r.secret_patterns == catalogue,
            r.findings.deep_view() == Seq::<SecretFindingsModel>::empty(),
    {
        let r = SecretsDetector { secret_patterns: catalogue, findings: Vec::new() };
        assert(r.findings.deep_view() =~= Seq::empty());
        r
    }

    /// Scans one file line by line and appends what the catalogue finds to
    /// the findings. An entry whose pattern does not compile finds nothing.
    pub fn scan_file(&mut self, file: &crate::CodeFile)
        ensures
            final(self).secret_patterns == old(self).secret_patterns,
            final(self).findings.deep_view() == old(self).findings.deep_view() + file_secrets(
                old(self).secret_patterns.deep_view(),
                file.path@,
                crate::text::split(file.content@, '\n'),
                crate::text::split(file.content@, '\n').len(),
            ),
    {
        let content = crate::text::to_chars(file.content.as_str());
        let lines = crate::text::split_on(&content, '\n');
        let ghost all = lines.deep_view();
        let ghost entries = self.secret_patterns.deep_view();
        let ghost before = self.findings.deep_view();
        let mut i: usize = 0;
        assert(self.findings.deep_view() =~= before + Seq::empty());
        while i < lines.len()
            invariant
                i <= lines.len(),
                all == lines.deep_view(),
                self.secret_patterns == old(self).secret_patterns,
                entries == self.secret_patterns.deep_view(),
                before == old(self).findings.deep_view(),
                self.findings.deep_view() == before + file_secrets(entries, file.path@, all, i as nat),
            decreases lines.len() - i,
        {
            let line = crate::text::from_chars(&lines[i]);
            proof {
                crate::text::lemma_chars_deep_view(lines[i as int]);
                assert(all[i as int] == line@);
            }
            let ghost done = before + file_secrets(entries, file.path@, all, i as nat);
            let mut j: usize = 0;
            assert(self.findings.deep_view() =~= done + Seq::empty());
            while j < self.secret_patterns.len()
                invariant
                    j <= self.secret_patterns.len(),
                    i < lines.len(),
                    all == lines.deep_view(),
                    all[i as int] == line@,
                    self.secret_patterns == old(self).secret_patterns,
                    entries == self.secret_patterns.deep_view(),
                    self.findings.deep_view() == done + line_secrets(
                        entries.take(j as int),
                        file.path@,
                        all,
                        i as nat,
                    ),
                decreases self.secret_patterns.len() - j,
            {
                assert(entries.take(j + 1).drop_last() == entries.take(j as int));
                assert(entries.take(j + 1).last() == self.secret_patterns[j as int].deep_view());
                let hit = crate::outside::find_pattern(self.secret_patterns[j].pattern.as_str(), line.as_str());
                match hit {
                    Some(Some(matched)) => {
                        let ghost had = self.findings.deep_view();
                        let entry = &self.secret_patterns[j];
                        let found = SecretFindings {
                            secret_type: entry.secret_type,
                            confidence: entry.confidence,
                            file_path: file.path.clone(),
                            line_number: crate::line_number(i),
                            matched_text: matched,
                            context: context_of(&lines, i),
                            severity: severity_of_secret(entry.secret_type),
                        };
                        self.findings.push(found);
                        assert(self.findings.deep_view() =~= had.push(found.deep_view()));
                        assert(self.findings.deep_view() =~= done + line_secrets(
                            entries.take(j as int),
                            file.path@,
                            all,
                            i as nat,
                        ).push(found.deep_view()));
                    },
                    _ => {},
                }
                j += 1;
            }
            assert(entries.take(self.secret_patterns.len() as int) == entries);
            assert(self.findings.deep_view() =~= before + (file_secrets(entries, file.path@, all, i as nat)
                + line_secrets(entries, file.path@, all, i as nat)));
            i += 1;
        }
    }

    /// What the scans so far have found, oldest first.
    pub fn get_findings(&self) -> (r: Vec<SecretFindings>)
        ensures
            r.deep_view() == self.findings.deep_view(),
    {
        let r = self.findings.clone();
        assert(r.deep_view() =~= self.findings.deep_view());
        r
    }
}

/// Whether one of the violations is an unauthorized system call.
pub open spec fn has_unauthorized_syscall(violations: Seq<SecurityViolationModel>) -> bool {
    exists|i: int|
        0 <= i < violations.len() && (#[trigger] violations[i]).violation_type
            == ViolationType::UnauthorizedSyscall
}

/// The recommendation to fix `count` vulnerabilities.
pub open spec fn vulnerability_fix(count: nat) -> SecurityRecommendationModel {
    SecurityRecommendationModel {
        recommendation_type: SecurityRecommendationType::VulnerabilityFix,
        priority: SecurityPriority::Critical,
        title: "Fix identified vulnerabilities"@,
        description: crate::text::decimal_digits(count) + " vulnerabilities require immediate attention"@,
        remediation_steps: seq![
            "Review and patch all critical vulnerabilities"@,
            "Update dependencies to secure versions"@,
            "Implement additional security controls"@,
        ],
        impact: SecurityImpact::Critical,
        effort: SecurityEffort::High,
    }
}

/// The recommendation to remove `count` secrets.
pub open spec fn secret_removal(count: nat) -> SecurityRecommendationModel {
    SecurityRecommendationModel {
        recommendation_type: SecurityRecommendationType::SecretRemoval,
        priority: SecurityPriority::High,
        title: "Remove hardcoded secrets"@,
        description: crate::text::decimal_digits(count) + " secrets detected in code"@,
        remediation_steps: seq![
            "Move secrets to environment variables or secret management"@,
            "Rotate compromised credentials"@,
            "Implement secret scanning in CI/CD"@,
        ],
        impact: SecurityImpact::High,
        effort: SecurityEffort::Medium,
    }
}

/// The recommendation to tighten access control.
pub open spec fn access_control() -> SecurityRecommendationModel {
    SecurityRecommendationModel {
        recommendation_type: SecurityRecommendationType::AccessControl,
        priority: SecurityPriority::High,
        title: "Implement proper access controls"@,
        description: "Unauthorized access attempts detected"@,
        remediation_steps: seq![
            "Review and restrict system call permissions"@,
            "Implement principle of least privilege"@,
            "Add runtime security monitoring"@,
        ],
        impact: SecurityImpact::High,
        effort: SecurityEffort::Medium,
    }
}

/// The recommendations that follow from what was found: one for the
/// vulnerabilities if there are any, one for the secrets if there are any,
/// one for access control if a system call was refused, in this order.
pub open spec fn security_recommendations(
    violations: Seq<SecurityViolationModel>,
    vulnerabilities: nat,
    secrets: nat,
) -> Seq<SecurityRecommendationModel> {
    (if vulnerabilities > 0 {
        seq![vulnerability_fix(vulnerabilities)]
    } else {
        Seq::empty()
    }) + (if secrets > 0 {
        seq![secret_removal(secrets)]
    } else {
        Seq::empty()
    }) + (if has_unauthorized_syscall(violations) {
        seq![access_control()]
    } else {
        Seq::empty()
    })
}

fn any_unauthorized_syscall(violations: &Vec<SecurityViolation>) -> (r: bool)
    ensures
        r == has_unauthorized_syscall(violations.deep_view()),
{
    let mut i: usize = 0;
    while i < violations.len()
        invariant
            i <= violations.len(),
            forall|k: int|
                0 <= k < i ==> (#[trigger] violations.deep_view()[k]).violation_type
                    != ViolationType::UnauthorizedSyscall,
        decreases violations.len() - i,
    {
        if violations[i].violation_type == ViolationType::UnauthorizedSyscall {
            assert(violations.deep_view()[i as int].violation_type
                == ViolationType::UnauthorizedSyscall);
            return true;
        }
        i += 1;
    }
    false
}

fn three_steps(a: &str, b: &str, c: &str) -> (r: Vec<String>)
    ensures
        r.deep_view() == seq![a@, b@, c@],
{
    let mut steps: Vec<String> = Vec::new();
    steps.push(String::from_str(a));
    steps.push(String::from_str(b));
    steps.push(String::from_str(c));
    assert(steps.deep_view() =~= seq![a@, b@, c@]);
    steps
}

/// The recommendations that follow from what was found.
pub fn generate_security_recommendations(
    violations: &Vec<SecurityViolation>,
    vulnerabilities: &Vec<Vulnerability>,
    secrets: &Vec<SecretFindings>,
    _anomalies: &Vec<BehavioralAnomaly>,
) -> (r: Vec<SecurityRecommendation>)
    ensures
        r.deep_view() == security_recommendations(
            violations.deep_view(),
            vulnerabilities.len() as nat,
            secrets.len() as nat,
        ),
{
    let mut out: Vec<SecurityRecommendation> = Vec::new();
    assert(out.deep_view() =~= Seq::empty());
    if vulnerabilities.len() > 0 {
        let count = crate::text::decimal(vulnerabilities.len() as u64);
        let item = SecurityRecommendation {
            recommendation_type: SecurityRecommendationType::VulnerabilityFix,
            priority: SecurityPriority::Critical,
            title: String::from_str("Fix identified vulnerabilities"),
            description: crate::text::join2(count.as_str(), " vulnerabilities require immediate attention"),
            remediation_steps: three_steps(
                "Review and patch all critical vulnerabilities",
                "Update dependencies to secure versions",
                "Implement additional security controls",
            ),
            impact: SecurityImpact::Critical,
            effort: SecurityEffort::High,
        };
        out.push(item);
        assert(out.deep_view() =~= seq![vulnerability_fix(vulnerabilities.len() as nat)]);
    }
    let ghost first = out.deep_view();
    if secrets.len() > 0 {
        let count = crate::text::decimal(secrets.len() as u64);
        let item = SecurityRecommendation {
            recommendation_type: SecurityRecommendationType::SecretRemoval,
            priority: SecurityPriority::High,
            title: String::from_str("Remove hardcoded secrets"),
            description: crate::text::join2(count.as_str(), " secrets detected in code"),
            remediation_steps: three_steps(
                "Move secrets to environment variables or secret management",
                "Rotate compromised credentials",
                "Implement secret scanning in CI/CD",
            ),
            impact: SecurityImpact::High,
            effort: SecurityEffort::Medium,
        };
        out.push(item);
        assert(out.deep_view() =~= first + seq![secret_removal(secrets.len() as nat)]);
    } else {
        assert(out.deep_view() =~= first + Seq::empty());
    }
    let ghost second = out.deep_view();
    if any_unauthorized_syscall(violations) {
        let item = SecurityRecommendation {
            recommendation_type: SecurityRecommendationType::AccessControl,
            priority: SecurityPriority::High,
            title: String::from_str("Implement proper access controls"),
            description: String::from_str("Unauthorized access attempts detected"),
            remediation_steps: three_steps(
                "Review and restrict system call permissions",
                "Implement principle of least privilege",
                "Add runtime security monitoring",
            ),
            impact: SecurityImpact::High,
            effort: SecurityEffort::Medium,
        };
        out.push(item);
        assert(out.deep_view() =~= second + seq![access_control()]);
    } else {
        assert(out.deep_view() =~= second + Seq::empty());
    }
    out
}

/// The compliance checks that every result carries.
pub open spec fn compliance_checks() -> Seq<ComplianceCheckModel> {
    seq![
        ComplianceCheckModel {
            standard: "OWASP Top 10"@,
            check_name: "Injection Prevention"@,
            status: ComplianceStatus::Pass,
            description: "Check for injection vulnerabilities"@,
            requirements: seq!["Input validation"@, "Parameterized queries"@],
            findings: Seq::empty(),
        },
        ComplianceCheckModel {
            standard: "CIS Controls"@,
            check_name: "Secure Configuration"@,
            status: ComplianceStatus::Warning,
            description: "Check for secure configuration practices"@,
            requirements: seq!["Hardened configurations"@],
            findings: seq!["Default credentials detected"@],
        },
    ]
}

/// Runs the compliance checks.
pub fn run_compliance_checks() -> (r: Vec<ComplianceCheck>)
    ensures
        r.deep_view() == compliance_checks(),
{
    let mut injection_requirements: Vec<String> = Vec::new();
    injection_requirements.push(String::from_str("Input validation"));
    injection_requirements.push(String::from_str("Parameterized queries"));
    assert(injection_requirements.deep_view() =~= seq!["Input validation"@, "Parameterized queries"@]);
    let mut configuration_requirements: Vec<String> = Vec::new();
    configuration_requirements.push(String::from_str("Hardened configurations"));
    assert(configuration_requirements.deep_view() =~= seq!["Hardened configurations"@]);
    let mut configuration_findings: Vec<String> = Vec::new();
    configuration_findings.push(String::from_str("Default credentials detected"));
    assert(configuration_findings.deep_view() =~= seq!["Default credentials detected"@]);
    let no_findings: Vec<String> = Vec::new();
    assert(no_findings.deep_view() =~= Seq::empty());
    let mut checks: Vec<ComplianceCheck> = Vec::new();
    checks.push(
        ComplianceCheck {
            standard: String::from_str("OWASP Top 10"),
            check_name: String::from_str("Injection Prevention"),
            status: ComplianceStatus::Pass,
            description: String::from_str("Check for injection vulnerabilities"),
            requirements: injection_requirements,
            findings: no_findings,
        },
    );
    checks.push(
        ComplianceCheck {
            standard: String::from_str("CIS Controls"),
            check_name: String::from_str("Secure Configuration"),
            status: ComplianceStatus::Warning,
            description: String::from_str("Check for secure configuration practices"),
            requirements: configuration_requirements,
            findings: configuration_findings,
        },
    );
    assert(checks.deep_view() =~= compliance_checks());
    checks
}

/// Whether the baseline expects `subject`: a system call or a network
/// destination that it names, or a path under one of its directories.
pub open spec fn within_baseline(class: PolicyClass, baseline: Seq<Seq<char>>, subject: Seq<char>) -> bool {
    match class {
        PolicyClass::Syscall => baseline.contains(subject),
        PolicyClass::Network => baseline.contains(subject),
        PolicyClass::FileSystem => under_any(baseline, subject),
    }
}

/// What was observed outside the baseline, in the order of observation.
pub open spec fn outside_baseline(class: PolicyClass, baseline: Seq<Seq<char>>, observed: Seq<Seq<char>>) -> Seq<
    Seq<char>,
>
    decreases observed.len(),
{
    if observed.len() == 0 {
        Seq::empty()
    } else {
        let earlier = outside_baseline(class, baseline, observed.drop_last());
        if within_baseline(class, baseline, observed.last()) {
            earlier
        } else {
            earlier.push(observed.last())
        }
    }
}

/// The confidence of every anomaly the analyzer reports, in millionths.
pub const ANOMALY_CONFIDENCE: u64 = 750_000;

/// The anomaly reported for behaviour of one class outside the baseline.
pub open spec fn anomaly_for(class: PolicyClass, indicators: Seq<Seq<char>>) -> BehavioralAnomalyModel {
    match class {
        PolicyClass::Syscall => BehavioralAnomalyModel {
            anomaly_type: AnomalyType::UnexpectedSystemCalls,
            severity: AnommalySeverity::Medium,
            description: "System calls outside the expected set"@,
            indicators: indicators,
            confidence: ANOMALY_CONFIDENCE,
            risk_assessment: "Medium risk - review the system calls the code makes"@,
        },
        PolicyClass::Network => BehavioralAnomalyModel {
            anomaly_type: AnomalyType::SuspiciousNetworkActivity,
            severity: AnommalySeverity::Medium,
            description: "Network destinations outside the expected set"@,
            indicators: indicators,
            confidence: ANOMALY_CONFIDENCE,
            risk_assessment: "Medium risk - monitor for data exfiltration"@,
        },
        PolicyClass::FileSystem => BehavioralAnomalyModel {
            anomaly_type: AnomalyType::UnusualFileAccess,
            severity: AnommalySeverity::Medium,
            description: "Access to unexpected file locations"@,
            indicators: indicators,
            confidence: ANOMALY_CONFIDENCE,
            risk_assessment: "Medium risk - monitor for data exfiltration"@,
        },
    }
}

/// The anomaly of one class, if anything of that class was observed outside
/// the baseline and the analyzer's threshold admits it.
pub open spec fn class_anomalies(
    class: PolicyClass,
    baseline: Seq<Seq<char>>,
    observed: Seq<Seq<char>>,
    threshold: u64,
) -> Seq<BehavioralAnomalyModel> {
    let unusual = outside_baseline(class, baseline, observed);
    if unusual.len() > 0 && ANOMALY_CONFIDENCE >= threshold {
        seq![anomaly_for(class, unusual)]
    } else {
        Seq::empty()
    }
}

/// The anomalies in what was observed: file accesses first, then network
/// destinations, then system calls.
pub open spec fn behavioral_anomalies(analyzer: BehaviorAnalyzerModel, observed: ObservedBehaviorModel) -> Seq<
    BehavioralAnomalyModel,
> {
    class_anomalies(
        PolicyClass::FileSystem,
        analyzer.baseline_behavior.normal_file_access,
        observed.file_paths,
        analyzer.anomaly_threshold,
    ) + class_anomalies(
        PolicyClass::Network,
        analyzer.baseline_behavior.normal_network_patterns,
        observed.network_destinations,
        analyzer.anomaly_threshold,
    ) + class_anomalies(
        PolicyClass::Syscall,
        analyzer.baseline_behavior.normal_syscalls,
        observed.syscalls,
        analyzer.anomaly_threshold,
    )
}

fn is_within_baseline(class: PolicyClass, baseline: &Vec<String>, subject: &str) -> (r: bool)
    ensures
        r == within_baseline(class, baseline.deep_view(), subject@),
{
    match class {
        PolicyClass::Syscall => crate::text::contains_text(baseline, subject),
        PolicyClass::Network => crate::text::contains_text(baseline, subject),
        PolicyClass::FileSystem => is_under_any(baseline, subject),
    }
}

fn collect_outside_baseline(class: PolicyClass, baseline: &Vec<String>, observed: &Vec<String>) -> (r: Vec<
    String,
>)
    ensures
        r.deep_view() == outside_baseline(class, baseline.deep_view(), observed.deep_view()),
{
    let mut out: Vec<String> = Vec::new();
    let ghost seen = observed.deep_view();
    let mut i: usize = 0;
    assert(out.deep_view() =~= Seq::empty());
    while i < observed.len()
        invariant
            i <= observed.len(),
            seen == observed.deep_view(),
            out.deep_view() == outside_baseline(class, baseline.deep_view(), seen.take(i as int)),
        decreases observed.len() - i,
    {
        assert(seen.take(i + 1).drop_last() == seen.take(i as int));
        assert(seen.take(i + 1).last() == observed[i as int]@);
        if !is_within_baseline(class, baseline, observed[i].as_str()) {
            let ghost before = out.deep_view();
            let name = observed[i].clone();
            out.push(name);
            assert(out.deep_view() =~= before.push(name@));
        }
        i += 1;
    }
    assert(seen.take(observed.len() as int) == seen);
    out
}

fn anomaly_record(class: PolicyClass, indicators: Vec<String>) -> (r: BehavioralAnomaly)
    ensures
        r.deep_view() == anomaly_for(class, indicators.deep_view()),
{
    match class {
        PolicyClass::Syscall => BehavioralAnomaly {
            anomaly_type: AnomalyType::UnexpectedSystemCalls,
            severity: AnommalySeverity::Medium,
            description: String::from_str("System calls outside the expected set"),
            indicators: indicators,
            confidence: ANOMALY_CONFIDENCE,
            risk_assessment: String::from_str("Medium risk - review the system calls the code makes"),
        },
        PolicyClass::Network => BehavioralAnomaly {
            anomaly_type: AnomalyType::SuspiciousNetworkActivity,
            severity: AnommalySeverity::Medium,
            description: String::from_str("Network destinations outside the expected set"),
            indicators: indicators,
            confidence: ANOMALY_CONFIDENCE,
            risk_assessment: String::from_str("Medium risk - monitor for data exfiltration"),
        },
        PolicyClass::FileSystem => BehavioralAnomaly {
            anomaly_type: AnomalyType::UnusualFileAccess,
            severity: AnommalySeverity::Medium,
            description: String::from_str("Access to unexpected file locations"),
            indicators: indicators,
            confidence: ANOMALY_CONFIDENCE,
            risk_assessment: String::from_str("Medium risk - monitor for data exfiltration"),
        },
    }
}

fn push_class_anomaly(
    out: &mut Vec<BehavioralAnomaly>,
    class: PolicyClass,
    baseline: &Vec<String>,
    observed: &Vec<String>,
    threshold: u64,
)
    ensures
        final(out).deep_view() == old(out).deep_view() + class_anomalies(
            class,
            baseline.deep_view(),
            observed.deep_view(),
            threshold,
        ),
{
    let ghost before = out.deep_view();
    let unusual = collect_outside_baseline(class, baseline, observed);
    if unusual.len() > 0 && ANOMALY_CONFIDENCE >= threshold {
        let item = anomaly_record(class, unusual);
        out.push(item);
        assert(out.deep_view() =~= before + seq![item.deep_view()]);
    } else {
        assert(out.deep_view() =~= before + Seq::empty());
    }
}

/// The baseline an analyzer starts with.
pub open spec fn default_baseline() -> BaselineBehaviorModel {
    BaselineBehaviorModel {
        normal_syscalls: seq!["read"@, "write"@, "open"@, "close"@],
        normal_file_access: seq!["/tmp"@, "/var/tmp"@],
        normal_network_patterns: seq!["localhost"@, "127.0.0.1"@],
    }
}

impl BehaviorAnalyzer {
    /// An analyzer with the default baseline, which reports anomalies of a
    /// confidence of 0.7 and more.
    pub fn new() -> (r: Self)
        ensures
            r.deep_view() == (BehaviorAnalyzerModel {
                baseline_behavior: default_baseline(),
                anomaly_threshold: 700_000,
            }),
    {
        let mut syscalls: Vec<String> = Vec::new();
        syscalls.push(String::from_str("read"));
        syscalls.push(String::from_str("write"));
        syscalls.push(String::from_str("open"));
        syscalls.push(String::from_str("close"));
        assert(syscalls.deep_view() =~= seq!["read"@, "write"@, "open"@, "close"@]);
        let mut files: Vec<String> = Vec::new();
        files.push(String::from_str("/tmp"));
        files.push(String::from_str("/var/tmp"));
        assert(files.deep_view() =~= seq!["/tmp"@, "/var/tmp"@]);
        let mut networks: Vec<String> = Vec::new();
        networks.push(String::from_str("localhost"));
        networks.push(String::from_str("127.0.0.1"));
        assert(networks.deep_view() =~= seq!["localhost"@, "127.0.0.1"@]);
        BehaviorAnalyzer {
            baseline_behavior: BaselineBehavior {
                normal_syscalls: syscalls,
                normal_file_access: files,
                normal_network_patterns: networks,
            },
            anomaly_threshold: 700_000,
        }
    }

    /// The anomalies in what was observed.
    pub fn analyze(&self, observed: &ObservedBehavior) -> (r: Vec<BehavioralAnomaly>)
        ensures
            r.deep_view() == behavioral_anomalies(self.deep_view(), observed.deep_view()),
    {
        let mut out: Vec<BehavioralAnomaly> = Vec::new();
        assert(out.deep_view() =~= Seq::empty());
        push_class_anomaly(
            &mut out,
            PolicyClass::FileSystem,
            &self.baseline_behavior.normal_file_access,
            &observed.file_paths,
            self.anomaly_threshold,
        );
        push_class_anomaly(
            &mut out,
            PolicyClass::Network,
            &self.baseline_behavior.normal_network_patterns,
            &observed.network_destinations,
            self.anomaly_threshold,
        );
        push_class_anomaly(
            &mut out,
            PolicyClass::Syscall,
            &self.baseline_behavior.normal_syscalls,
            &observed.syscalls,
            self.anomaly_threshold,
        );
        out
    }
}

/// What the catalogue finds in the given files, file by file, identifiers
/// blanked.
pub open spec fn codebase_vulnerabilities(
    entries: Seq<VulnerabilityPatternModel>,
    files: Seq<crate::CodeFileModel>,
    now: i64,
) -> Seq<VulnerabilityModel>
    decreases files.len(),
{
    if files.len() == 0 {
        Seq::empty()
    } else {
        codebase_vulnerabilities(entries, files.drop_last(), now) + file_vulnerabilities(
            entries,
            files.last().path,
            crate::text::split(files.last().content, '\n'),
            now,
        )
    }
}

/// What the catalogue finds in the given files, file by file.
pub open spec fn codebase_secrets(entries: Seq<SecretPatternModel>, files: Seq<crate::CodeFileModel>) -> Seq<
    SecretFindingsModel,
>
    decreases files.len(),
{
    if files.len() == 0 {
        Seq::empty()
    } else {
        codebase_secrets(entries, files.drop_last()) + file_secrets(
            entries,
            files.last().path,
            crate::text::split(files.last().content, '\n'),
            crate::text::split(files.last().content, '\n').len(),
        )
    }
}

/// The violations of the runtime policy in what was observed: refused system
/// calls, then, where network monitoring is on, refused destinations, then,
/// where file monitoring is on, refused paths.
pub open spec fn runtime_violations(
    config: SecurityConfigModel,
    blocked: Seq<Seq<char>>,
    observed: ObservedBehaviorModel,
    now: i64,
) -> Seq<SecurityViolationModel> {
    policy_violations(PolicyClass::Syscall, blocked, observed.syscalls, now) + (if config.enable_network_monitoring {
        policy_violations(PolicyClass::Network, config.allowed_networks, observed.network_destinations, now)
    } else {
        Seq::empty()
    }) + (if config.enable_file_monitoring {
        policy_violations(PolicyClass::FileSystem, config.sensitive_files, observed.file_paths, now)
    } else {
        Seq::empty()
    })
}

/// The result a monitor compiles from its scans and from what was observed.
pub open spec fn security_result(monitor: SecurityMonitorModel, observed: ObservedBehaviorModel, now: i64) -> SecurityResultModel {
    let violations = runtime_violations(
        monitor.config,
        monitor.syscall_monitor.blocked_syscalls,
        observed,
        now,
    );
    let vulnerabilities = monitor.vulnerability_scanner.findings;
    let secrets = monitor.secrets_detector.findings;
    let score = security_score(violations, vulnerabilities, secrets);
    SecurityResultModel {
        security_score: score as u64,
        risk_level: risk_level_of(score, has_critical_violation(violations)),
        violations: violations,
        vulnerabilities: vulnerabilities,
        secrets: secrets,
        behavioral_anomalies: behavioral_anomalies(monitor.behavior_analyzer, observed),
        compliance_checks: compliance_checks(),
        recommendations: security_recommendations(violations, vulnerabilities.len(), secrets.len()),
    }
}

impl SecurityMonitor {
    /// A monitor for the given configuration, with the default catalogues
    /// and baseline and nothing found yet.
    pub fn new(config: SecurityConfig) -> (r: Self)
        ensures
            r.config == config,
            r.syscall_monitor.blocked_syscalls.deep_view() == distinct(config.blocked_syscalls.deep_view()),
            r.syscall_monitor.monitored_syscalls.deep_view() == monitored_syscall_names(),
            r.vulnerability_scanner.vulnerability_db.deep_view() == default_vulnerability_catalogue(),
            r.vulnerability_scanner.findings.deep_view() == Seq::<VulnerabilityModel>::empty(),
            r.secrets_detector.secret_patterns.deep_view() == default_secret_catalogue(),
            r.secrets_detector.findings.deep_view() == Seq::<SecretFindingsModel>::empty(),
            r.behavior_analyzer.deep_view() == (BehaviorAnalyzerModel {
                baseline_behavior: default_baseline(),
                anomaly_threshold: 700_000,
            }),
    {
        let syscall_monitor = SyscallMonitor::new(&config);
        SecurityMonitor {
            config: config,
            syscall_monitor: syscall_monitor,
            vulnerability_scanner: VulnerabilityScanner::new(),
            secrets_detector: SecretsDetector::new(),
            behavior_analyzer: BehaviorAnalyzer::new(),
        }
    }

    /// Scans every file of the codebase for vulnerabilities and for secrets
    /// and keeps what is found.
    pub fn start_monitoring(&mut self, codebase: &crate::Codebase, now: i64)
        ensures
            final(self).config == old(self).config,
            final(self).syscall_monitor == old(self).syscall_monitor,
            final(self).behavior_analyzer == old(self).behavior_analyzer,
            final(self).vulnerability_scanner.vulnerability_db == old(self).vulnerability_scanner.vulnerability_db,
            final(self).secrets_detector.secret_patterns == old(self).secrets_detector.secret_patterns,
            final(self).secrets_detector.findings.deep_view() == old(self).secrets_detector.findings.deep_view()
                + codebase_secrets(
                old(self).secrets_detector.secret_patterns.deep_view(),
                codebase.files.deep_view(),
            ),
            final(self).vulnerability_scanner.findings.deep_view().len() >= old(
                self,
            ).vulnerability_scanner.findings.deep_view().len(),
            final(self).vulnerability_scanner.findings.deep_view().take(
                old(self).vulnerability_scanner.findings.deep_view().len() as int,
            ) == old(self).vulnerability_scanner.findings.deep_view(),
            anonymous_vulnerabilities(
                final(self).vulnerability_scanner.findings.deep_view().skip(
                    old(self).vulnerability_scanner.findings.deep_view().len() as int,
                ),
            ) == codebase_vulnerabilities(
                old(self).vulnerability_scanner.vulnerability_db.deep_view(),
                codebase.files.deep_view(),
                now,
            ),
    {
        let ghost files = codebase.files.deep_view();
        let ghost vulnerable = self.vulnerability_scanner.findings.deep_view();
        let ghost n0 = vulnerable.len() as int;
        let ghost secret = self.secrets_detector.findings.deep_view();
        let ghost entries = self.vulnerability_scanner.vulnerability_db.deep_view();
        let ghost patterns = self.secrets_detector.secret_patterns.deep_view();
        let mut i: usize = 0;
        assert(self.secrets_detector.findings.deep_view() =~= secret + Seq::empty());
        assert(vulnerable.take(n0) =~= vulnerable);
        assert(vulnerable.skip(n0) =~= Seq::empty());
        while i < codebase.files.len()
            invariant
                i <= codebase.files.len(),
                files == codebase.files.deep_view(),
                self.config == old(self).config,
                self.syscall_monitor == old(self).syscall_monitor,
                self.behavior_analyzer == old(self).behavior_analyzer,
                self.vulnerability_scanner.vulnerability_db == old(self).vulnerability_scanner.vulnerability_db,
                self.secrets_detector.secret_patterns == old(self).secrets_detector.secret_patterns,
                entries == self.vulnerability_scanner.vulnerability_db.deep_view(),
                patterns == self.secrets_detector.secret_patterns.deep_view(),
                vulnerable == old(self).vulnerability_scanner.findings.deep_view(),
                secret == old(self).secrets_detector.findings.deep_view(),
                n0 == vulnerable.len(),
                self.secrets_detector.findings.deep_view() == secret + codebase_secrets(
                    patterns,
                    files.take(i as int),
                ),
                self.vulnerability_scanner.findings.deep_view().len() >= n0,
                self.vulnerability_scanner.findings.deep_view().take(n0) == vulnerable,
                anonymous_vulnerabilities(self.vulnerability_scanner.findings.deep_view().skip(n0))
                    == codebase_vulnerabilities(entries, files.take(i as int), now),
            decreases codebase.files.len() - i,
        {
            let ghost had = self.vulnerability_scanner.findings.deep_view();
            let ghost had_secrets = self.secrets_detector.findings.deep_view();
            assert(files.take(i + 1).drop_last() == files.take(i as int));
            assert(files.take(i + 1).last() == codebase.files[i as int].deep_view());
            self.vulnerability_scanner.scan_file(&codebase.files[i], now);
            self.secrets_detector.scan_file(&codebase.files[i]);
            proof {
                let has = self.vulnerability_scanner.findings.deep_view();
                let n1 = had.len() as int;
                assert(has.take(n0) =~= has.take(n1).take(n0));
                assert(has.skip(n0) =~= had.skip(n0) + has.skip(n1)) by {
                    assert(has.take(n1) == had);
                    assert forall|k: int| 0 <= k < has.len() - n0 implies has.skip(n0)[k] == (had.skip(n0)
                        + has.skip(n1))[k] by {
                        if k < n1 - n0 {
                            assert(has.take(n1)[k + n0] == has[k + n0]);
                        }
                    }
                }
                assert(anonymous_vulnerabilities(has.skip(n0)) =~= anonymous_vulnerabilities(had.skip(n0))
                    + anonymous_vulnerabilities(has.skip(n1)));
                let found = file_secrets(
                    patterns,
                    files.take(i + 1).last().path,
                    crate::text::split(files.take(i + 1).last().content, '\n'),
                    crate::text::split(files.take(i + 1).last().content, '\n').len(),
                );
                assert(self.secrets_detector.findings.deep_view() =~= secret + (codebase_secrets(
                    patterns,
                    files.take(i as int),
                ) + found));
            }
            i += 1;
        }
        assert(files.take(codebase.files.len() as int) == files);
    }

    /// Compiles the security result from the scans so far and from what the
    /// sandbox observed.
    pub fn collect_results(&self, observed: &ObservedBehavior, now: i64) -> (r: SecurityResult)
        ensures
            r.deep_view() == security_result(self.deep_view(), observed.deep_view(), now),
            r.security_score <= 100_000_000,
    {
        let mut violations = self.syscall_monitor.check_violations(&observed.syscalls, now);
        let ghost first = violations.deep_view();
        if self.config.enable_network_monitoring {
            let mut more = check_policy(
                PolicyClass::Network,
                &self.config.allowed_networks,
                &observed.network_destinations,
                now,
            );
            let ghost added = more.deep_view();
            violations.append(&mut more);
            assert(violations.deep_view() =~= first + added);
        } else {
            assert(violations.deep_view() =~= first + Seq::empty());
        }
        let ghost second = violations.deep_view();
        if self.config.enable_file_monitoring {
            let mut more = check_policy(
                PolicyClass::FileSystem,
                &self.config.sensitive_files,
                &observed.file_paths,
                now,
            );
            let ghost added = more.deep_view();
            violations.append(&mut more);
            assert(violations.deep_view() =~= second + added);
        } else {
            assert(violations.deep_view() =~= second + Seq::empty());
        }
        let vulnerabilities = self.vulnerability_scanner.get_findings();
        let secrets = self.secrets_detector.get_findings();
        let behavioral_anomalies = self.behavior_analyzer.analyze(observed);
        let compliance_checks = run_compliance_checks();
        let security_score = calculate_security_score(&violations, &vulnerabilities, &secrets);
        let risk_level = determine_risk_level(security_score, &violations);
        let recommendations = generate_security_recommendations(
            &violations,
            &vulnerabilities,
            &secrets,
            &behavioral_anomalies,
        );
        SecurityResult {
            security_score,
            risk_level,
            violations,
            vulnerabilities,
            secrets,
            behavioral_anomalies,
            compliance_checks,
            recommendations,
        }
    }
}

/// The result before anything was collected: no points, critical risk,
/// nothing found.
pub open spec fn empty_security_result() -> SecurityResultModel {
    SecurityResultModel {
        security_score: 0,
        risk_level: RiskLevel::Critical,
        violations: Seq::empty(),
        vulnerabilities: Seq::empty(),
        secrets: Seq::empty(),
        behavioral_anomalies: Seq::empty(),
        compliance_checks: Seq::empty(),
        recommendations: Seq::empty(),
    }
}

impl Default for SecurityResult {
    fn default() -> (r: Self)
        ensures
            r.deep_view() == empty_security_result(),
    {
        let r = SecurityResult {
            security_score: 0,
            risk_level: RiskLevel::Critical,
            violations: Vec::new(),
            vulnerabilities: Vec::new(),
            secrets: Vec::new(),
            behavioral_anomalies: Vec::new(),
            compliance_checks: Vec::new(),
            recommendations: Vec::new(),
        };
        assert(r.violations.deep_view() =~= Seq::empty());
        assert(r.vulnerabilities.deep_view() =~= Seq::empty());
        assert(r.secrets.deep_view() =~= Seq::empty());
        assert(r.behavioral_anomalies.deep_view() =~= Seq::empty());
        assert(r.compliance_checks.deep_view() =~= Seq::empty());
        assert(r.recommendations.deep_view() =~= Seq::empty());
        r
    }
}

/// The subjects of the events of one type, in the order of the events.
pub open spec fn subjects_of(events: Seq<crate::container::SecurityEventModel>, event_type: Seq<char>) -> Seq<
    Seq<char>,
>
    decreases events.len(),
{
    if events.len() == 0 {
        Seq::empty()
    } else {
        let earlier = subjects_of(events.drop_last(), event_type);
        if events.last().event_type == event_type {
            earlier.push(events.last().description)
        } else {
            earlier
        }
    }
}

/// What the events of a run say the program did: an event of the type
/// `syscall`, `network` or `file` names in its description the system
/// call, the destination or the path.
pub open spec fn observed_in(events: Seq<crate::container::SecurityEventModel>) -> ObservedBehaviorModel {
    ObservedBehaviorModel {
        syscalls: subjects_of(events, "syscall"@),
        network_destinations: subjects_of(events, "network"@),
        file_paths: subjects_of(events, "file"@),
    }
}

fn subjects(events: &Vec<crate::container::SecurityEvent>, event_type: &str) -> (r: Vec<String>)
    ensures
        r.deep_view() == subjects_of(events.deep_view(), event_type@),
{
    let mut out: Vec<String> = Vec::new();
    let ghost all = events.deep_view();
    let mut i: usize = 0;
    assert(out.deep_view() =~= Seq::empty());
    while i < events.len()
        invariant
            i <= events.len(),
            all == events.deep_view(),
            out.deep_view() == subjects_of(all.take(i as int), event_type@),
        decreases events.len() - i,
    {
        assert(all.take(i + 1).drop_last() == all.take(i as int));
        assert(all.take(i + 1).last() == events[i as int].deep_view());
        if crate::text::same_text(events[i].event_type.as_str(), event_type) {
            let ghost before = out.deep_view();
            let subject = events[i].description.clone();
            out.push(subject);
            assert(out.deep_view() =~= before.push(subject@));
        }
        i += 1;
    }
    assert(all.take(events.len() as int) == all);
    out
}

impl ObservedBehavior {
    /// What the events of a run say the program did.
    pub fn from_events(events: &Vec<crate::container::SecurityEvent>) -> (r: ObservedBehavior)
        ensures
            r.deep_view() == observed_in(events.deep_view()),
    {
        ObservedBehavior {
            syscalls: subjects(events, "syscall"),
            network_destinations: subjects(events, "network"),
            file_paths: subjects(events, "file"),
        }
    }
}

} // verus!
