use kwality_runtime_validator::fuzzing::{
    apply_mutation, fill_template, label_of_crash, renumber, text_of_bytes, uniqueness_from,
    CoverageTracker, CrashDetector, CrashReport, CrashSeverity, CrashType, DistancePair,
    ExecutionResult, FuzzingEngine, FuzzingResult, Generator, GrammarInputGenerator,
    InputGenerator, InterestingInput, Mutation, MutationInputGenerator,
    PerformanceAnomalyType, RandomInputGenerator, StructuredInputGenerator,
};
use kwality_runtime_validator::{FuzzingConfig, FuzzingStrategy};

fn config(strategy: FuzzingStrategy, iterations: u32) -> FuzzingConfig {
    FuzzingConfig { enabled: true, duration_seconds: 10, iterations, strategy, coverage_guided: true }
}

fn run(exit_code: i32, stderr: &str, path: &str) -> ExecutionResult {
    ExecutionResult {
        exit_code,
        execution_time: 20,
        memory_usage: 4096,
        execution_path: path.to_string(),
        stdout: String::new(),
        stderr: stderr.to_string(),
    }
}

fn interesting(input: &str) -> InterestingInput {
    InterestingInput {
        input_data: input.to_string(),
        execution_path: "p".to_string(),
        coverage_increase: 1_000_000,
        execution_time: 1,
        memory_usage: 1,
        uniqueness_score: 0,
    }
}

#[test]
fn mutations_change_one_byte() {
    let mut bytes = vec![0b0000_0001u8, 2, 3];
    apply_mutation(&mut bytes, Mutation::BitFlip { index: 0, bit: 7 });
    assert_eq!(bytes, vec![0b1000_0001, 2, 3]);
    apply_mutation(&mut bytes, Mutation::BitFlip { index: 0, bit: 0 });
    assert_eq!(bytes, vec![0b1000_0000, 2, 3]);
    apply_mutation(&mut bytes, Mutation::Replace { index: 1, value: 9 });
    assert_eq!(bytes, vec![128, 9, 3]);
    apply_mutation(&mut bytes, Mutation::Insert { index: 3, value: 7 });
    assert_eq!(bytes, vec![128, 9, 3, 7]);
    apply_mutation(&mut bytes, Mutation::Insert { index: 0, value: 1 });
    assert_eq!(bytes, vec![1, 128, 9, 3, 7]);
    apply_mutation(&mut bytes, Mutation::Delete { index: 2 });
    assert_eq!(bytes, vec![1, 128, 3, 7]);
}

#[test]
fn bytes_become_code_points() {
    assert_eq!(text_of_bytes(&vec![104, 105]), "hi");
    assert_eq!(text_of_bytes(&vec![0xe9]), "\u{e9}");
    assert_eq!(text_of_bytes(&Vec::new()), "");
}

#[test]
fn random_inputs_are_within_length() {
    let generator = RandomInputGenerator::new(16);
    for _ in 0..200 {
        let input = generator.generate_input();
        let count = input.chars().count();
        assert!(count >= 1 && count <= 16);
        assert!(input.chars().all(|c| (c as u32) < 255));
    }
    let one = RandomInputGenerator::new(1);
    assert_eq!(one.generate_input().chars().count(), 1);
    assert_eq!(generator.get_generator_type(), "random");
}

#[test]
fn random_mutation_keeps_the_length_in_bytes() {
    let generator = RandomInputGenerator::new(16);
    assert_eq!(generator.mutate_input(""), "");
    for _ in 0..100 {
        let out = generator.mutate_input("abcdef");
        let differing = out.bytes().zip("abcdef".bytes()).filter(|(a, b)| a != b).count();
        assert!(differing <= 1 || out.contains('\u{fffd}'));
    }
}

#[test]
fn templates_are_filled_with_the_number() {
    assert_eq!(fill_template("{{\"number\": {}}}", 42), "{{\"number\": 42}}");
    assert_eq!(fill_template("{{\"key\": \"value\"}}", 7), "{{\"key\": \"value\"}}");
    assert_eq!(fill_template("{}{}", 5), "55");
    let generator = StructuredInputGenerator::new();
    assert_eq!(generator.templates.len(), 4);
    for _ in 0..100 {
        let input = generator.generate_input();
        assert!(input.starts_with("{{"));
        assert!(!input.contains("{}"));
    }
    assert_eq!(generator.get_generator_type(), "structured");
}

#[test]
fn digits_are_renumbered() {
    assert_eq!(renumber("a1b22c", 5), "a5b5c");
    assert_eq!(renumber("no digits", 5), "no digits");
    assert_eq!(renumber("[1, 2, 3]", 10), "[10, 10, 10]");
    let generator = StructuredInputGenerator::new();
    for _ in 0..50 {
        let out = generator.mutate_input("x=123456;");
        assert!(out.starts_with("x=") && out.ends_with(';'));
        let number: u32 = out[2..out.len() - 1].parse().unwrap();
        assert!(number >= 1 && number < 1000);
    }
}

#[test]
fn grammar_derives_arithmetic() {
    let generator = GrammarInputGenerator::new();
    for _ in 0..200 {
        let input = generator.generate_input();
        assert!(!input.is_empty());
        assert!(input.chars().all(|c| "123+-()expr".contains(c)));
        assert!(!input.contains(' '));
        assert_eq!(
            input.chars().filter(|c| *c == '(').count(),
            input.chars().filter(|c| *c == ')').count()
        );
        assert_eq!(input.matches("(expr)").count(), input.matches('(').count());
    }
    assert_eq!(generator.expand_symbol("num", 11), "1");
    assert_eq!(generator.expand_symbol("unknown", 0), "unknown");
    assert!(["1", "2", "3"].contains(&generator.expand_symbol("num", 10).as_str()));
    assert_eq!(generator.get_generator_type(), "grammar");
    assert!(!generator.mutate_input("anything").is_empty());
}

#[test]
fn mutation_generator_stays_one_step_from_its_input() {
    let generator = MutationInputGenerator::new();
    assert_eq!(generator.seed_inputs.len(), 4);
    assert_eq!(generator.mutate_input(""), "");
    for _ in 0..200 {
        let out = generator.mutate_input("hello world");
        let plain = out.replace('\u{fffd}', "?");
        let length = plain.chars().count() as i64;
        assert!((length - 11).abs() <= 1);
    }
    assert!(generator.generate_input().chars().count() <= 31);
    assert_eq!(generator.get_generator_type(), "mutation");
}

#[test]
fn engine_takes_the_generator_of_the_strategy() {
    let random = FuzzingEngine::new(config(FuzzingStrategy::Random, 10));
    assert_eq!(random.input_generators.len(), 1);
    assert!(matches!(&random.input_generators[0], Generator::Random(g) if g.max_length == 1024));
    assert_eq!(random.input_generators[0].get_generator_type(), "random");
    let grammar = FuzzingEngine::new(config(FuzzingStrategy::Grammar, 10));
    assert_eq!(grammar.input_generators[0].get_generator_type(), "grammar");
    let structured = FuzzingEngine::new(config(FuzzingStrategy::Structured, 10));
    assert_eq!(structured.input_generators[0].get_generator_type(), "structured");
    let mutation = FuzzingEngine::new(config(FuzzingStrategy::Mutation, 10));
    assert_eq!(mutation.input_generators[0].get_generator_type(), "mutation");
    let input = grammar.generate_test_input();
    assert!(input.chars().all(|c| "123+-()expr".contains(c)));
    let mut bare = FuzzingEngine::new(config(FuzzingStrategy::Random, 10));
    bare.input_generators.clear();
    assert_eq!(bare.generate_test_input(), "");
}

#[test]
fn coverage_counts_paths() {
    let mut tracker = CoverageTracker::new();
    assert_eq!(tracker.get_coverage_percentage(), 0);
    assert_eq!(tracker.update_coverage(&run(0, "", "path-1")), 1_000_000);
    assert_eq!(tracker.update_coverage(&run(0, "", "path-2")), 1_000_000);
    assert_eq!(tracker.update_coverage(&run(0, "", "path-1")), 0);
    assert_eq!(tracker.total_coverage, 2_000_000);
    assert_eq!(tracker.get_coverage_percentage(), 2_000_000);
    let info = tracker.get_coverage_info();
    assert_eq!(info.lines_covered, 2);
    assert_eq!(info.total_lines, 100);
    assert_eq!(info.functions_covered, 0);
    assert_eq!(info.branches_covered, 1);
    assert_eq!(info.coverage_map.len(), 2);
    assert_eq!(info.coverage_map[0].path, "path-1");
    assert_eq!(info.coverage_map[0].count, 2);
    assert_eq!(info.coverage_map[1].count, 1);
    for i in 0..150 {
        tracker.update_coverage(&run(0, "", &format!("p{}", i)));
    }
    assert_eq!(tracker.get_coverage_percentage(), 100_000_000);
}

#[test]
fn crashes_are_classified_by_the_first_matching_pattern() {
    let mut detector = CrashDetector::new();
    assert!(detector.analyze_execution(&run(0, "segmentation fault", "p"), 1).is_none());
    let segv = detector.analyze_execution(&run(-11, "segmentation fault (core dumped)", "p"), 5).unwrap();
    assert_eq!(segv.crash_type, CrashType::SegmentationFault);
    assert_eq!(segv.severity, CrashSeverity::Critical);
    assert_eq!(segv.error_message, "segmentation fault (core dumped)");
    assert_eq!(segv.stack_trace, "segmentation fault (core dumped)");
    assert_eq!(segv.timestamp, 5);
    assert_eq!(segv.crash_location, None);
    let both = detector.analyze_execution(&run(1, "panic: stack overflow", "p"), 5).unwrap();
    assert_eq!(both.crash_type, CrashType::StackOverflow);
    assert_eq!(both.severity, CrashSeverity::High);
    let oom = detector.analyze_execution(&run(1, "killed: out of memory", "p"), 5).unwrap();
    assert_eq!(oom.crash_type, CrashType::OutOfMemory);
    let assertion = detector.analyze_execution(&run(1, "assertion failed: x", "p"), 5).unwrap();
    assert_eq!(assertion.crash_type, CrashType::AssertionFailure);
    assert_eq!(assertion.severity, CrashSeverity::Medium);
    assert_eq!(detector.crash_history.len(), 4);
    let other = detector.analyze_execution(&run(3, "crash", "p"), 5).unwrap();
    assert_eq!(other.crash_type, CrashType::Other("Exit code 3".to_string()));
    assert_eq!(other.severity, CrashSeverity::Medium);
    assert_eq!(other.error_message, "Process exited with code 3");
    assert_eq!(detector.crash_history.len(), 4);
    let negative = detector.analyze_execution(&run(-1, "", "p"), 5).unwrap();
    assert_eq!(negative.crash_type, CrashType::Other("Exit code -1".to_string()));
}

#[test]
fn crash_history_keeps_the_most_recent_thousand() {
    let mut detector = CrashDetector::new();
    for i in 0..1005 {
        detector.analyze_execution(&run(1, "segfault", "p"), i);
    }
    assert_eq!(detector.crash_history.len(), 1000);
    assert_eq!(detector.crash_history.front().unwrap().timestamp, 5);
    assert_eq!(detector.crash_history.back().unwrap().timestamp, 1004);
}

#[test]
fn crash_labels() {
    assert_eq!(label_of_crash(&CrashType::SegmentationFault), "SegmentationFault");
    assert_eq!(label_of_crash(&CrashType::OutOfMemory), "OutOfMemory");
    assert_eq!(label_of_crash(&CrashType::Other("x".to_string())), "Other(\"x\")");
}

#[test]
fn crashes_are_one_by_kind_and_location() {
    let engine = FuzzingEngine::new(config(FuzzingStrategy::Random, 10));
    let crash = |kind: CrashType, location: Option<&str>| CrashReport {
        id: "c".to_string(),
        crash_type: kind,
        severity: CrashSeverity::Low,
        reproducer_input: String::new(),
        stack_trace: String::new(),
        error_message: String::new(),
        timestamp: 0,
        crash_location: location.map(|l| l.to_string()),
    };
    let seen = vec![
        crash(CrashType::SegmentationFault, None),
        crash(CrashType::Other("Exit code 1".to_string()), Some("a.py")),
    ];
    assert!(!engine.is_unique_crash(&crash(CrashType::SegmentationFault, None), &seen));
    assert!(engine.is_unique_crash(&crash(CrashType::SegmentationFault, Some("a.py")), &seen));
    assert!(!engine
        .is_unique_crash(&crash(CrashType::Other("Exit code 2".to_string()), Some("a.py")), &seen));
    assert!(engine.is_unique_crash(&crash(CrashType::Panic, None), &seen));
    assert!(engine.is_unique_crash(&crash(CrashType::SegmentationFault, None), &Vec::new()));
}

#[test]
fn distance_is_the_edit_distance_over_the_longer_length() {
    let engine = FuzzingEngine::new(config(FuzzingStrategy::Random, 10));
    assert_eq!(
        engine.calculate_input_distance("kitten", "sitting"),
        DistancePair { distance: 3, length: 7 }
    );
    assert_eq!(engine.calculate_input_distance("", ""), DistancePair { distance: 0, length: 0 });
    assert_eq!(engine.calculate_input_distance("abc", "abc"), DistancePair { distance: 0, length: 3 });
    assert_eq!(engine.calculate_input_distance("é", "e"), DistancePair { distance: 1, length: 2 });
}

#[test]
fn uniqueness_is_m_over_m_plus_one() {
    assert_eq!(uniqueness_from(&Vec::new()), 1_000_000);
    assert_eq!(uniqueness_from(&vec![DistancePair { distance: 3, length: 7 }]), 300_000);
    assert_eq!(uniqueness_from(&vec![DistancePair { distance: 5, length: 5 }]), 500_000);
    assert_eq!(uniqueness_from(&vec![DistancePair { distance: 0, length: 0 }]), 0);
    assert_eq!(
        uniqueness_from(&vec![
            DistancePair { distance: 9, length: 10 },
            DistancePair { distance: 1, length: 3 },
            DistancePair { distance: 2, length: 4 },
        ]),
        250_000
    );
    assert_eq!(
        uniqueness_from(&vec![DistancePair { distance: usize::MAX, length: usize::MAX }]),
        500_000
    );
    let engine = FuzzingEngine::new(config(FuzzingStrategy::Random, 10));
    assert_eq!(engine.calculate_uniqueness_score("abc", &Vec::new()), 1_000_000);
    let others = vec![interesting("kitten"), interesting("sitting!")];
    assert_eq!(engine.calculate_uniqueness_score("sitting", &others), 111_111);
    assert_eq!(engine.calculate_uniqueness_score("kitten", &others), 0);
}

#[test]
fn slow_and_large_runs_are_anomalies() {
    let engine = FuzzingEngine::new(config(FuzzingStrategy::Random, 10));
    assert!(engine.detect_performance_anomaly("in", &run(0, "", "p")).is_none());
    let mut slow = run(0, "", "p");
    slow.execution_time = 1_000;
    assert!(engine.detect_performance_anomaly("in", &slow).is_none());
    slow.execution_time = 1_001;
    slow.memory_usage = 1 << 30;
    let anomaly = engine.detect_performance_anomaly("in", &slow).unwrap();
    assert_eq!(anomaly.anomaly_type, PerformanceAnomalyType::ExcessiveExecutionTime);
    assert_eq!(anomaly.input_trigger, "in");
    assert_eq!(anomaly.baseline_performance, 50);
    assert_eq!(anomaly.anomaly_performance, 1_001);
    assert_eq!(anomaly.severity, 1_000_000);
    let mut large = run(0, "", "p");
    large.memory_usage = 50 * 1024 * 1024;
    assert!(engine.detect_performance_anomaly("in", &large).is_none());
    large.memory_usage += 1;
    let anomaly = engine.detect_performance_anomaly("in", &large).unwrap();
    assert_eq!(anomaly.anomaly_type, PerformanceAnomalyType::MemoryLeak);
    assert_eq!(anomaly.baseline_performance, 1_048_576);
    assert_eq!(anomaly.anomaly_performance, 50 * 1024 * 1024 + 1);
}

#[test]
fn campaign_without_iterations_runs_nothing() {
    let engine = FuzzingEngine::new(config(FuzzingStrategy::Random, 0));
    let mut result = engine.begin_campaign();
    assert!(!engine.should_continue(&result, 0));
    engine.finish_campaign(&mut result, 3);
    assert_eq!(result.total_executions, 0);
    assert_eq!(result.crashes_found, 0);
    assert_eq!(result.unique_crashes, 0);
    assert_eq!(result.coverage_percentage, 0);
    assert_eq!(result.execution_time, 3);
    assert!(result.crashes.is_empty());
    assert_eq!(result.coverage_info.total_lines, 100);
}

#[test]
fn campaign_stops_at_its_limits() {
    let engine = FuzzingEngine::new(config(FuzzingStrategy::Random, 2));
    let mut result = FuzzingResult::default();
    assert!(engine.should_continue(&result, 10_000));
    assert!(!engine.should_continue(&result, 10_001));
    result.total_executions = 2;
    assert!(!engine.should_continue(&result, 0));
}

#[test]
fn campaign_counts_runs_crashes_and_paths() {
    let mut engine = FuzzingEngine::new(config(FuzzingStrategy::Random, 200));
    let mut result = engine.begin_campaign();
    let runs = [
        ("a", run(0, "", "path-1")),
        ("b", run(1, "segmentation fault", "path-2")),
        ("c", run(1, "segfault again", "path-2")),
        ("d", run(1, "assertion failed", "path-1")),
        ("e", run(2, "mystery", "path-3")),
        ("f", run(3, "another mystery", "path-3")),
    ];
    let mut now = 0;
    for (input, execution) in runs.iter() {
        assert!(engine.should_continue(&result, now));
        engine.record_execution(&mut result, input, execution, now as i64);
        now += 1;
    }
    engine.finish_campaign(&mut result, now);
    assert_eq!(result.total_executions, 6);
    assert!(result.total_executions >= 1 && result.total_executions <= 200);
    assert_eq!(result.crashes_found, 5);
    assert_eq!(result.unique_crashes, 3);
    assert_eq!(result.crashes.len(), 3);
    assert_eq!(result.crashes[0].crash_type, CrashType::SegmentationFault);
    assert_eq!(result.crashes[1].crash_type, CrashType::AssertionFailure);
    assert_eq!(result.crashes[2].crash_type, CrashType::Other("Exit code 2".to_string()));
    assert_eq!(result.coverage_percentage, 3_000_000);
    assert!(result.coverage_percentage > 0);
    assert_eq!(result.coverage_info.lines_covered, 3);
    assert_eq!(result.interesting_inputs.len(), 3);
    assert_eq!(result.interesting_inputs[0].input_data, "a");
    assert_eq!(result.interesting_inputs[0].uniqueness_score, 1_000_000);
    assert_eq!(result.interesting_inputs[1].input_data, "b");
    assert_eq!(result.interesting_inputs[1].uniqueness_score, 500_000);
    assert_eq!(result.interesting_inputs[2].input_data, "e");
    assert_eq!(result.interesting_inputs[2].execution_path, "path-3");
    assert!(result.performance_anomalies.is_empty());
    assert_eq!(result.execution_time, 6);
    assert_eq!(engine.crash_detector.crash_history.len(), 3);
}

#[test]
fn unguided_campaign_tracks_no_coverage() {
    let mut settings = config(FuzzingStrategy::Random, 5);
    settings.coverage_guided = false;
    let mut engine = FuzzingEngine::new(settings);
    let mut result = engine.begin_campaign();
    let mut slow = run(0, "", "path-1");
    slow.execution_time = 5_000;
    engine.record_execution(&mut result, "x", &slow, 0);
    engine.finish_campaign(&mut result, 1);
    assert_eq!(result.total_executions, 1);
    assert!(result.interesting_inputs.is_empty());
    assert_eq!(result.coverage_percentage, 0);
    assert_eq!(result.performance_anomalies.len(), 1);
}

#[test]
fn fitness_checks() {
    let mut engine = FuzzingEngine::new(config(FuzzingStrategy::Random, 2));
    assert!(engine.is_usable());
    let mut campaign = engine.begin_campaign();
    assert!(engine.can_record(&campaign));
    campaign.unique_crashes = 1;
    assert!(!engine.can_record(&campaign));
    campaign.unique_crashes = 0;
    campaign.total_executions = 2;
    assert!(!engine.can_record(&campaign));
    engine.input_generators.push(Generator::Random(RandomInputGenerator::new(0)));
    assert!(!engine.is_usable());
    assert!(!RandomInputGenerator::new(0).is_usable());
    assert!(StructuredInputGenerator::new().is_usable());
    assert!(MutationInputGenerator::new().is_usable());
    let mut grammar = GrammarInputGenerator::new();
    assert!(grammar.is_usable());
    grammar.grammar_rules[1].productions.clear();
    assert!(!grammar.is_usable());
}

#[test]
fn a_run_is_recorded_with_its_coverage_key() {
    let record = ExecutionResult::observed(3, "hello".to_string(), "oops".to_string(), 12, 4096);
    assert_eq!(record.exit_code, 3);
    assert_eq!(record.execution_path, "exit-3-out-5");
    assert_eq!(record.stdout, "hello");
    assert_eq!(record.stderr, "oops");
    assert_eq!(record.execution_time, 12);
    assert_eq!(record.memory_usage, 4096);
    let wide = ExecutionResult::observed(i64::MIN, String::new(), String::new(), 0, 0);
    assert_eq!(wide.exit_code, -1);
    assert_eq!(wide.execution_path, "exit--9223372036854775808-out-0");
    let negative = ExecutionResult::observed(-11, "é".to_string(), String::new(), 0, 0);
    assert_eq!(negative.exit_code, -11);
    assert_eq!(negative.execution_path, "exit--11-out-2");
}
