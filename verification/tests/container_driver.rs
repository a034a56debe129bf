use kwality_runtime_validator::container::{
    CleanupAction, CommandOutcome, ContainerManager, NetworkCounters, PathProblem,
    PathProblemKind, ResourceUsage, SandboxStep, StatsSample,
};
use kwality_runtime_validator::{
    CodeFile, Codebase, DataValue, FileType, RuntimeConfig, TextEntry,
};

fn file(path: &str, content: &str) -> CodeFile {
    CodeFile {
        path: path.to_string(),
        content: content.to_string(),
        language: None,
        file_type: FileType::Source,
        size: content.len() as u64,
    }
}

fn codebase(paths: &[&str]) -> Codebase {
    Codebase {
        id: "cb-1".to_string(),
        name: "demo".to_string(),
        files: paths.iter().map(|p| file(p, "x")).collect(),
        metadata: Vec::new(),
    }
}

fn manager() -> ContainerManager {
    ContainerManager::new(RuntimeConfig::default().container)
}

fn command(paths: &[&str]) -> Vec<String> {
    manager().detect_execution_command(&codebase(paths))
}

fn sample() -> StatsSample {
    StatsSample {
        memory_usage: Some(600 * 1024 * 1024),
        memory_limit: Some(1024 * 1024 * 1024),
        cpu_total_usage: 300,
        precpu_total_usage: 100,
        system_cpu_usage: Some(2_000),
        presystem_cpu_usage: Some(1_000),
        online_cpus: Some(4),
        first_network: Some(NetworkCounters { rx_bytes: 10, tx_bytes: 5 }),
    }
}

#[test]
fn go_comes_first() {
    assert_eq!(command(&["b.py", "main.go", "lib.rs"]), vec!["go", "run", "main.go"]);
    assert_eq!(command(&["cmd/tool.go", "a.py"]), vec!["go", "run", "."]);
}

#[test]
fn rust_with_and_without_cargo_file() {
    assert_eq!(command(&["src/main.rs", "Cargo.toml"]), vec!["cargo", "run"]);
    assert_eq!(command(&["Cargo.toml"]), vec!["cargo", "run"]);
    assert_eq!(command(&["a.py", "hello.rs", "other.rs"]), vec!["rustc", "hello.rs", "&&", "./hello"]);
}

#[test]
fn python_prefers_main() {
    assert_eq!(command(&["util.py", "main.py"]), vec!["python3", "main.py"]);
    assert_eq!(command(&["util.py", "__main__.py", "main.py"]), vec!["python3", "__main__.py"]);
    assert_eq!(command(&["README.md", "b.py", "a.py"]), vec!["python3", "b.py"]);
}

#[test]
fn javascript_and_typescript() {
    assert_eq!(command(&["index.js", "package.json"]), vec!["npm", "start"]);
    assert_eq!(command(&["lib.ts", "app.js"]), vec!["node", "app.js"]);
    assert_eq!(command(&["lib.ts"]), vec!["node", "index.js"]);
}

#[test]
fn java_compiles_then_runs_the_class() {
    assert_eq!(
        command(&["doc.txt", "Hello.java"]),
        vec!["javac", "Hello.java", "&&", "java", "Hello"]
    );
}

#[test]
fn nothing_runnable_falls_back_to_a_failing_shell_command() {
    let fallback = vec!["sh", "-c", "echo 'no runnable code detected'; exit 1"];
    assert_eq!(command(&[]), fallback);
    assert_eq!(command(&["README.md", "data.csv"]), fallback);
    assert!(!manager().has_runnable_code(&codebase(&[])));
    assert!(!manager().has_runnable_code(&codebase(&["README.md"])));
    assert!(manager().has_runnable_code(&codebase(&["README.md", "x.ts"])));
    assert!(manager().has_runnable_code(&codebase(&["package.json"])));
}

#[test]
fn container_is_asked_for_with_the_configured_limits() {
    let mut config = RuntimeConfig::default().container;
    config.environment = vec![
        TextEntry { key: "LANG".to_string(), value: "C".to_string() },
        TextEntry { key: "MODE".to_string(), value: "test=1".to_string() },
    ];
    config.cpu_limit_cores = 1_500_000;
    let manager = ContainerManager::new(config);
    let env = manager.create_execution_environment(&codebase(&["main.py"]), "/tmp/kw").unwrap();
    let spec = manager.create_container(&env);
    assert_eq!(spec.name, format!("kwality-exec-{}", env.id));
    assert_eq!(spec.image, "kwality/runner:latest");
    assert_eq!(spec.working_dir, "/workspace");
    assert_eq!(spec.env, vec!["LANG=C", "MODE=test=1"]);
    assert_eq!(spec.memory_bytes, 512 * 1024 * 1024);
    assert_eq!(spec.nano_cpus, 1_500_000_000);
    assert_eq!(spec.network_mode, "none");
    assert_eq!(spec.mount_source, "/tmp/kw/workspace");
    assert_eq!(spec.mount_target, "/workspace");
    assert!(!spec.mount_read_only);
    assert!(!spec.read_only_root_fs);
    assert_eq!(spec.security_opt, vec!["no-new-privileges"]);
    assert_eq!(spec.tmpfs_target, "/tmp");
    assert_eq!(spec.tmpfs_options, "size=100m");
    assert!(spec.attach_stdout && spec.attach_stderr);
}

#[test]
fn read_only_and_bridged_containers() {
    let mut config = RuntimeConfig::default().container;
    config.network_isolation = false;
    config.readonly_filesystem = true;
    config.memory_limit_mb = u64::MAX;
    let manager = ContainerManager::new(config);
    let env = manager.create_execution_environment(&codebase(&["main.py"]), "/t").unwrap();
    let spec = manager.create_container(&env);
    assert_eq!(spec.network_mode, "bridge");
    assert!(spec.mount_read_only);
    assert!(spec.read_only_root_fs);
    assert_eq!(spec.memory_bytes, i64::MAX as u64);
}

#[test]
fn cpu_share_from_two_samples() {
    let usage = manager().collect_resource_usage(Some(sample()));
    assert_eq!(usage.cpu_usage_percent, 80_000_000);
    assert_eq!(usage.memory_usage_mb, 600);
    assert_eq!(usage.max_memory_mb, 1024);
    assert_eq!(usage.network_io_bytes, 15);
    assert_eq!(usage.max_cpu_percent, 100_000_000);
    assert_eq!(usage.disk_usage_mb, 0);
}

#[test]
fn idle_run_uses_no_cpu() {
    let mut idle = sample();
    idle.cpu_total_usage = idle.precpu_total_usage;
    assert_eq!(manager().collect_resource_usage(Some(idle)).cpu_usage_percent, 0);
    let mut stalled = sample();
    stalled.system_cpu_usage = stalled.presystem_cpu_usage;
    assert_eq!(manager().collect_resource_usage(Some(stalled)).cpu_usage_percent, 0);
    let mut backwards = sample();
    backwards.cpu_total_usage = 50;
    assert_eq!(manager().collect_resource_usage(Some(backwards)).cpu_usage_percent, 0);
    let mut unknown = sample();
    unknown.system_cpu_usage = None;
    assert_eq!(manager().collect_resource_usage(Some(unknown)).cpu_usage_percent, 0);
}

#[test]
fn missing_figures_count_as_zero_and_one_processor() {
    let bare = StatsSample {
        memory_usage: None,
        memory_limit: None,
        cpu_total_usage: 30,
        precpu_total_usage: 10,
        system_cpu_usage: Some(100),
        presystem_cpu_usage: None,
        online_cpus: None,
        first_network: None,
    };
    let usage = manager().collect_resource_usage(Some(bare));
    assert_eq!(usage.cpu_usage_percent, 20_000_000);
    assert_eq!(usage.memory_usage_mb, 0);
    assert_eq!(usage.network_io_bytes, 0);
    assert_eq!(manager().collect_resource_usage(None), ResourceUsage::default());
}

#[test]
fn execution_result_of_a_run_and_of_a_failure() {
    let ran = manager().execution_result(
        "e1".to_string(),
        CommandOutcome::Ran { exit_code: 0, stdout: "hi\n".to_string(), stderr: String::new() },
        Some(sample()),
        42,
    );
    assert_eq!(ran.execution_id, "e1");
    assert_eq!(ran.exit_code, 0);
    assert!(ran.stdout.contains("hi"));
    assert_eq!(ran.duration, 42);
    assert_eq!(ran.resource_usage.memory_usage_mb, 600);
    let failed = manager().execution_result(
        "e2".to_string(),
        CommandOutcome::NotRun { reason: "no such image".to_string() },
        None,
        7,
    );
    assert_eq!(failed.exit_code, -1);
    assert_eq!(failed.stdout, "");
    assert_eq!(failed.stderr, "Execution failed: no such image");
    assert_eq!(failed.resource_usage, ResourceUsage::default());
    assert!(failed.could_not_run());
    let instant = manager().execution_result(
        "e3".to_string(),
        CommandOutcome::Ran { exit_code: 0, stdout: String::new(), stderr: String::new() },
        None,
        0,
    );
    assert_eq!(instant.duration, 1);
    assert_eq!(instant.resource_usage.cpu_usage_percent, 0);
    assert!(!ran.could_not_run());
    assert_eq!(kwality_runtime_validator::container::STOP_GRACE_SECONDS, 10);
}

#[test]
fn a_container_that_exists_is_always_removed() {
    for outcomes in [[true, true, true, true, true], [false, true, true, true, true],
        [true, false, false, false, false]]
    {
        let mut step = SandboxStep::StartContainer;
        let mut removed = false;
        let mut taken = 0;
        while step != SandboxStep::Finished {
            if step == SandboxStep::RemoveContainer {
                removed = true;
            }
            step = step.next(outcomes[taken.min(4)]);
            taken += 1;
            assert!(taken <= 6);
        }
        assert!(removed);
    }
    assert_eq!(SandboxStep::CreateContainer.next(false), SandboxStep::Finished);
    assert_eq!(SandboxStep::CreateContainer.next(true), SandboxStep::StartContainer);
    assert_eq!(SandboxStep::StartContainer.next(false), SandboxStep::RemoveContainer);
    assert_eq!(SandboxStep::RunCommand.next(false), SandboxStep::SampleUsage);
    assert_eq!(SandboxStep::StopContainer.next(false), SandboxStep::RemoveContainer);
    assert_eq!(SandboxStep::Finished.next(true), SandboxStep::Finished);
}

#[test]
fn paths_must_be_relative_unique_and_stay_below() {
    assert_eq!(codebase(&["a.py", "src/b.py", "src/..b"]).check_paths(), Ok(()));
    assert_eq!(
        codebase(&["a.py", "/etc/passwd"]).check_paths(),
        Err(PathProblem { index: 1, kind: PathProblemKind::NotRelative })
    );
    assert_eq!(
        codebase(&[""]).check_paths(),
        Err(PathProblem { index: 0, kind: PathProblemKind::NotRelative })
    );
    assert_eq!(
        codebase(&["a.py", "b.py", "src/../../x"]).check_paths(),
        Err(PathProblem { index: 2, kind: PathProblemKind::TraversesUpward })
    );
    assert_eq!(
        codebase(&["a.py", "b.py", "a.py", "/x"]).check_paths(),
        Err(PathProblem { index: 2, kind: PathProblemKind::Duplicate })
    );
    assert!(manager().create_execution_environment(&codebase(&["../x"]), "/t").is_err());
}

#[test]
fn workspace_is_laid_out_below_the_temporary_directory() {
    let env = manager()
        .create_execution_environment(&codebase(&["main.py", "pkg/util.py"]), "/tmp/abc")
        .unwrap();
    assert_eq!(env.working_dir, "/tmp/abc/workspace");
    assert_eq!(env.temp_dir, Some("/tmp/abc".to_string()));
    assert_eq!(env.container_id, None);
    assert_eq!(env.codebase.id, "cb-1");
    let writes = manager().workspace_files(&env);
    assert_eq!(writes.len(), 2);
    assert_eq!(writes[0].key, "/tmp/abc/workspace/main.py");
    assert_eq!(writes[0].value, "x");
    assert_eq!(writes[1].key, "/tmp/abc/workspace/pkg/util.py");
    let again = manager().workspace_files(&env);
    assert_eq!(writes, again);
}

#[test]
fn cleanup_twice_finds_nothing_the_second_time() {
    let mut env = manager().create_execution_environment(&codebase(&["main.py"]), "/tmp/abc").unwrap();
    env.container_id = Some("c0ffee".to_string());
    let first = manager().cleanup_environment(&mut env);
    assert_eq!(
        first,
        vec![
            CleanupAction::RemoveContainer("c0ffee".to_string()),
            CleanupAction::RemoveDirectory("/tmp/abc".to_string()),
        ]
    );
    assert_eq!(env.container_id, None);
    assert_eq!(env.temp_dir, None);
    let second = manager().cleanup_environment(&mut env);
    assert!(second.is_empty());
    assert_eq!(env.container_id, None);
    assert_eq!(env.temp_dir, None);
}

#[test]
fn health_report_of_the_driver() {
    let healthy = manager().health_check(None, true, Some(3), Some(12));
    assert_eq!(healthy.len(), 4);
    assert_eq!(healthy[0].key, "docker_daemon");
    assert_eq!(healthy[0].value, DataValue::Text("healthy".to_string()));
    assert_eq!(healthy[1].value, DataValue::Text("available".to_string()));
    assert_eq!(healthy[2].key, "containers_running");
    assert_eq!(healthy[2].value, DataValue::Integer(3));
    assert_eq!(healthy[3].value, DataValue::Integer(12));
    let down = manager().health_check(Some("refused".to_string()), false, None, None);
    assert_eq!(down[0].value, DataValue::Text("unhealthy: refused".to_string()));
    assert_eq!(down[1].value, DataValue::Text("missing".to_string()));
    assert_eq!(down[2].value, DataValue::Null);
}
