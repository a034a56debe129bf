//! The sandbox driver's decisions: which command runs a codebase, what the
//! container runtime is asked for, what a statistics sample means, and what
//! is left to release.

use vstd::prelude::*;

use crate::text::{
    decimal, decimal_digits, ends_with, from_chars, has_suffix, join2, join3, replace_all,
    replaced, same_text, to_chars,
};
use crate::{
    CodeFile, CodeFileModel, Codebase, CodebaseModel, ContainerConfig, ContainerConfigModel,
    DataEntry, DataEntryModel, TextEntry, TextEntryModel,
};

verus! {

/// Plans the containers that validations run in.
#[derive(Debug, PartialEq, Eq)]
pub struct ContainerManager {
    pub config: ContainerConfig,
}

/// The mathematical value of a [`ContainerManager`].
pub ghost struct ContainerManagerModel {
    pub config: ContainerConfigModel,
}

impl DeepView for ContainerManager {
    type V = ContainerManagerModel;

    open spec fn deep_view(&self) -> ContainerManagerModel {
        ContainerManagerModel {
            config: self.config.deep_view(),
        }
    }
}

impl Clone for ContainerManager {
    fn clone(&self) -> (r: Self)
        ensures
            r.deep_view() == self.deep_view(),
    {
        let r = ContainerManager {
            config: self.config.clone(),
        };
        r
    }
}

/// The host-side resources of one validation attempt.
#[derive(Debug, PartialEq, Eq)]
pub struct ExecutionEnvironment {
    pub id: String,
    /// The running container, once one was created.
    pub container_id: Option<String>,
    /// The workspace directory that holds the codebase's files.
    pub working_dir: String,
    /// The temporary directory around the workspace, until it is removed.
    pub temp_dir: Option<String>,
    pub codebase: Codebase,
    pub metadata: Vec<TextEntry>,
}

/// The mathematical value of a [`ExecutionEnvironment`].
pub ghost struct ExecutionEnvironmentModel {
    pub id: Seq<char>,
    pub container_id: Option<Seq<char>>,
    pub working_dir: Seq<char>,
    pub temp_dir: Option<Seq<char>>,
    pub codebase: CodebaseModel,
    pub metadata: Seq<TextEntryModel>,
}

impl DeepView for ExecutionEnvironment {
    type V = ExecutionEnvironmentModel;

    open spec fn deep_view(&self) -> ExecutionEnvironmentModel {
        ExecutionEnvironmentModel {
            id: self.id.deep_view(),
            container_id: self.container_id.deep_view(),
            working_dir: self.working_dir.deep_view(),
            temp_dir: self.temp_dir.deep_view(),
            codebase: self.codebase.deep_view(),
            metadata: self.metadata.deep_view(),
        }
    }
}

impl Clone for ExecutionEnvironment {
    fn clone(&self) -> (r: Self)
        ensures
            r.deep_view() == self.deep_view(),
    {
        let r = ExecutionEnvironment {
            id: self.id.clone(),
            container_id: self.container_id.clone(),
            working_dir: self.working_dir.clone(),
            temp_dir: self.temp_dir.clone(),
            codebase: self.codebase.clone(),
            metadata: self.metadata.clone(),
        };
        assert(r.metadata.deep_view() =~= self.metadata.deep_view());
        r
    }
}

/// What a run consumed.
#[derive(Debug, Clone, Copy, PartialEq, Eq, Structural)]
pub struct ResourceUsage {
    /// In millionths of a percent.
    pub cpu_usage_percent: u64,
    pub memory_usage_mb: u64,
    pub disk_usage_mb: u64,
    pub network_io_bytes: u64,
    pub file_descriptors: u32,
    pub max_memory_mb: u64,
    /// In millionths of a percent.
    pub max_cpu_percent: u64,
}

impl DeepView for ResourceUsage {
    type V = ResourceUsage;

    open spec fn deep_view(&self) -> ResourceUsage {
        *self
    }
}

/// Something security-relevant that the sandbox reported during a run.
#[derive(Debug, PartialEq, Eq)]
pub struct SecurityEvent {
    pub event_type: String,
    /// Milliseconds since the Unix epoch.
    pub timestamp: i64,
    pub description: String,
    pub risk_level: String,
    pub details: Vec<DataEntry>,
}

/// The mathematical value of a [`SecurityEvent`].
pub ghost struct SecurityEventModel {
    pub event_type: Seq<char>,
    pub timestamp: i64,
    pub description: Seq<char>,
    pub risk_level: Seq<char>,
    pub details: Seq<DataEntryModel>,
}

impl DeepView for SecurityEvent {
    type V = SecurityEventModel;

    open spec fn deep_view(&self) -> SecurityEventModel {
        SecurityEventModel {
            event_type: self.event_type.deep_view(),
            timestamp: self.timestamp.deep_view(),
            description: self.description.deep_view(),
            risk_level: self.risk_level.deep_view(),
            details: self.details.deep_view(),
        }
    }
}

impl Clone for SecurityEvent {
    fn clone(&self) -> (r: Self)
        ensures
            r.deep_view() == self.deep_view(),
    {
        let r = SecurityEvent {
            event_type: self.event_type.clone(),
            timestamp: self.timestamp,
            description: self.description.clone(),
            risk_level: self.risk_level.clone(),
            details: self.details.clone(),
        };
        assert(r.details.deep_view() =~= self.details.deep_view());
        r
    }
}

/// The outcome of running a codebase's entrypoint.
#[derive(Debug, PartialEq, Eq)]
pub struct ExecutionResult {
    pub execution_id: String,
    pub exit_code: i64,
    pub stdout: String,
    pub stderr: String,
    /// In milliseconds.
    pub duration: u64,
    pub resource_usage: ResourceUsage,
    pub security_events: Vec<SecurityEvent>,
}

/// The mathematical value of a [`ExecutionResult`].
pub ghost struct ExecutionResultModel {
    pub execution_id: Seq<char>,
    pub exit_code: i64,
    pub stdout: Seq<char>,
    pub stderr: Seq<char>,
    pub duration: u64,
    pub resource_usage: ResourceUsage,
    pub security_events: Seq<SecurityEventModel>,
}

impl DeepView for ExecutionResult {
    type V = ExecutionResultModel;

    open spec fn deep_view(&self) -> ExecutionResultModel {
        ExecutionResultModel {
            execution_id: self.execution_id.deep_view(),
            exit_code: self.exit_code.deep_view(),
            stdout: self.stdout.deep_view(),
            stderr: self.stderr.deep_view(),
            duration: self.duration.deep_view(),
            resource_usage: self.resource_usage.deep_view(),
            security_events: self.security_events.deep_view(),
        }
    }
}

impl Clone for ExecutionResult {
    fn clone(&self) -> (r: Self)
        ensures
            r.deep_view() == self.deep_view(),
    {
        let r = ExecutionResult {
            execution_id: self.execution_id.clone(),
            exit_code: self.exit_code,
            stdout: self.stdout.clone(),
            stderr: self.stderr.clone(),
            duration: self.duration,
            resource_usage: self.resource_usage,
            security_events: self.security_events.clone(),
        };
        assert(r.security_events.deep_view() =~= self.security_events.deep_view());
        r
    }
}

/// Everything the container runtime is asked for when a container is created.
#[derive(Debug, PartialEq, Eq)]
pub struct ContainerSpec {
    pub name: String,
    pub image: String,
    pub working_dir: String,
    /// One `NAME=value` text for each environment variable.
    pub env: Vec<String>,
    pub memory_bytes: u64,
    /// CPU quota in billionths of a core.
    pub nano_cpus: u64,
    pub network_mode: String,
    pub mount_source: String,
    pub mount_target: String,
    pub mount_read_only: bool,
    pub read_only_root_fs: bool,
    pub security_opt: Vec<String>,
    pub tmpfs_target: String,
    pub tmpfs_options: String,
    pub attach_stdout: bool,
    pub attach_stderr: bool,
}

/// The mathematical value of a [`ContainerSpec`].
pub ghost struct ContainerSpecModel {
    pub name: Seq<char>,
    pub image: Seq<char>,
    pub working_dir: Seq<char>,
    pub env: Seq<Seq<char>>,
    pub memory_bytes: u64,
    pub nano_cpus: u64,
    pub network_mode: Seq<char>,
    pub mount_source: Seq<char>,
    pub mount_target: Seq<char>,
    pub mount_read_only: bool,
    pub read_only_root_fs: bool,
    pub security_opt: Seq<Seq<char>>,
    pub tmpfs_target: Seq<char>,
    pub tmpfs_options: Seq<char>,
    pub attach_stdout: bool,
    pub attach_stderr: bool,
}

impl DeepView for ContainerSpec {
    type V = ContainerSpecModel;

    open spec fn deep_view(&self) -> ContainerSpecModel {
        ContainerSpecModel {
            name: self.name.deep_view(),
            image: self.image.deep_view(),
            working_dir: self.working_dir.deep_view(),
            env: self.env.deep_view(),
            memory_bytes: self.memory_bytes.deep_view(),
            nano_cpus: self.nano_cpus.deep_view(),
            network_mode: self.network_mode.deep_view(),
            mount_source: self.mount_source.deep_view(),
            mount_target: self.mount_target.deep_view(),
            mount_read_only: self.mount_read_only.deep_view(),
            read_only_root_fs: self.read_only_root_fs.deep_view(),
            security_opt: self.security_opt.deep_view(),
            tmpfs_target: self.tmpfs_target.deep_view(),
            tmpfs_options: self.tmpfs_options.deep_view(),
            attach_stdout: self.attach_stdout.deep_view(),
            attach_stderr: self.attach_stderr.deep_view(),
        }
    }
}

impl Clone for ContainerSpec {
    fn clone(&self) -> (r: Self)
        ensures
            r.deep_view() == self.deep_view(),
    {
        let r = ContainerSpec {
            name: self.name.clone(),
            image: self.image.clone(),
            working_dir: self.working_dir.clone(),
            env: self.env.clone(),
            memory_bytes: self.memory_bytes,
            nano_cpus: self.nano_cpus,
            network_mode: self.network_mode.clone(),
            mount_source: self.mount_source.clone(),
            mount_target: self.mount_target.clone(),
            mount_read_only: self.mount_read_only,
            read_only_root_fs: self.read_only_root_fs,
            security_opt: self.security_opt.clone(),
            tmpfs_target: self.tmpfs_target.clone(),
            tmpfs_options: self.tmpfs_options.clone(),
            attach_stdout: self.attach_stdout,
            attach_stderr: self.attach_stderr,
        };
        assert(r.env.deep_view() =~= self.env.deep_view());
        assert(r.security_opt.deep_view() =~= self.security_opt.deep_view());
        r
    }
}

/// Bytes received and sent over one network interface.
#[derive(Debug, Clone, Copy, PartialEq, Eq, Structural)]
pub struct NetworkCounters {
    pub rx_bytes: u64,
    pub tx_bytes: u64,
}

impl DeepView for NetworkCounters {
    type V = NetworkCounters;

    open spec fn deep_view(&self) -> NetworkCounters {
        *self
    }
}

/// One statistics sample of a container, with the counters of the sample before it.
#[derive(Debug, Clone, Copy, PartialEq, Eq, Structural)]
pub struct StatsSample {
    /// In bytes.
    pub memory_usage: Option<u64>,
    /// In bytes.
    pub memory_limit: Option<u64>,
    pub cpu_total_usage: u64,
    pub precpu_total_usage: u64,
    pub system_cpu_usage: Option<u64>,
    pub presystem_cpu_usage: Option<u64>,
    pub online_cpus: Option<u32>,
    pub first_network: Option<NetworkCounters>,
}

impl DeepView for StatsSample {
    type V = StatsSample;

    open spec fn deep_view(&self) -> StatsSample {
        *self
    }
}

/// The paths of the files, in their order.
pub open spec fn paths_of(files: Seq<CodeFileModel>) -> Seq<Seq<char>> {
    files.map_values(|f: CodeFileModel| f.path)
}

/// The position of the first path that ends with `suffix`, or the number of
/// paths when none does.
pub open spec fn first_ending(paths: Seq<Seq<char>>, suffix: Seq<char>) -> int
    decreases paths.len(),
{
    if paths.len() == 0 {
        0
    } else if has_suffix(paths[0], suffix) {
        0
    } else {
        1 + first_ending(paths.subrange(1, paths.len() as int), suffix)
    }
}

/// The position of the first path that is `a` or `b`, or the number of
/// paths when none is.
pub open spec fn first_named(paths: Seq<Seq<char>>, a: Seq<char>, b: Seq<char>) -> int
    decreases paths.len(),
{
    if paths.len() == 0 {
        0
    } else if paths[0] == a || paths[0] == b {
        0
    } else {
        1 + first_named(paths.subrange(1, paths.len() as int), a, b)
    }
}

/// Whether one of the paths ends with `suffix`.
pub open spec fn any_ending(paths: Seq<Seq<char>>, suffix: Seq<char>) -> bool {
    first_ending(paths, suffix) < paths.len()
}

/// The path at `at`, or `fallback` when `at` is past the last path.
pub open spec fn path_or(paths: Seq<Seq<char>>, at: int, fallback: Seq<char>) -> Seq<char> {
    if 0 <= at < paths.len() {
        paths[at]
    } else {
        fallback
    }
}

/// Whether the codebase holds something an entrypoint can be chosen from:
/// a Go, Rust, Python, JavaScript, TypeScript or Java file, a `Cargo.toml`
/// or a `package.json`.
pub open spec fn runnable(paths: Seq<Seq<char>>) -> bool {
    any_ending(paths, ".go"@) || any_ending(paths, ".rs"@) || paths.contains("Cargo.toml"@) || any_ending(
        paths,
        ".py"@,
    ) || any_ending(paths, ".js"@) || any_ending(paths, ".ts"@) || paths.contains("package.json"@)
        || any_ending(paths, ".java"@)
}

/// The command that runs a codebase with the given paths. The first
/// language that has a file decides, in the order Go, Rust, Python,
/// JavaScript and TypeScript, Java; within a language the first file in the
/// codebase's order is taken.
pub open spec fn execution_command(paths: Seq<Seq<char>>) -> Seq<Seq<char>> {
    if any_ending(paths, ".go"@) {
        if paths.contains("main.go"@) {
            seq!["go"@, "run"@, "main.go"@]
        } else {
            seq!["go"@, "run"@, "."@]
        }
    } else if any_ending(paths, ".rs"@) || paths.contains("Cargo.toml"@) {
        if paths.contains("Cargo.toml"@) {
            seq!["cargo"@, "run"@]
        } else {
            let file = path_or(paths, first_ending(paths, ".rs"@), "main.rs"@);
            seq!["rustc"@, file, "&&"@, "./"@ + replaced(file, ".rs"@, Seq::empty())]
        }
    } else if any_ending(paths, ".py"@) {
        let main = first_named(paths, "main.py"@, "__main__.py"@);
        if main < paths.len() {
            seq!["python3"@, paths[main]]
        } else {
            seq!["python3"@, path_or(paths, first_ending(paths, ".py"@), "main.py"@)]
        }
    } else if any_ending(paths, ".js"@) || any_ending(paths, ".ts"@) || paths.contains("package.json"@) {
        if paths.contains("package.json"@) {
            seq!["npm"@, "start"@]
        } else {
            seq!["node"@, path_or(paths, first_ending(paths, ".js"@), "index.js"@)]
        }
    } else if any_ending(paths, ".java"@) {
        let file = path_or(paths, first_ending(paths, ".java"@), "Main.java"@);
        seq!["javac"@, file, "&&"@, "java"@, replaced(file, ".java"@, Seq::empty())]
    } else {
        seq!["sh"@, "-c"@, "echo 'no runnable code detected'; exit 1"@]
    }
}

fn index_ending(files: &Vec<CodeFile>, suffix: &str) -> (r: usize)
    ensures
        r == first_ending(paths_of(files.deep_view()), suffix@),
        r <= files.len(),
{
    let ghost paths = paths_of(files.deep_view());
    let mut i: usize = 0;
    assert(paths.subrange(0, paths.len() as int) == paths);
    while i < files.len()
        invariant
            i <= files.len(),
            paths == paths_of(files.deep_view()),
            first_ending(paths, suffix@) == i + first_ending(paths.subrange(i as int, paths.len() as int), suffix@),
        decreases files.len() - i,
    {
        let ghost rest = paths.subrange(i as int, paths.len() as int);
        assert(rest[0] == files[i as int].path@);
        if ends_with(files[i].path.as_str(), suffix) {
            return i;
        }
        assert(rest.subrange(1, rest.len() as int) == paths.subrange(i + 1, paths.len() as int));
        i += 1;
    }
    i
}

fn index_named(files: &Vec<CodeFile>, a: &str, b: &str) -> (r: usize)
    ensures
        r == first_named(paths_of(files.deep_view()), a@, b@),
        r <= files.len(),
{
    let ghost paths = paths_of(files.deep_view());
    let mut i: usize = 0;
    assert(paths.subrange(0, paths.len() as int) == paths);
    while i < files.len()
        invariant
            i <= files.len(),
            paths == paths_of(files.deep_view()),
            first_named(paths, a@, b@) == i + first_named(paths.subrange(i as int, paths.len() as int), a@, b@),
        decreases files.len() - i,
    {
        let ghost rest = paths.subrange(i as int, paths.len() as int);
        assert(rest[0] == files[i as int].path@);
        if same_text(files[i].path.as_str(), a) || same_text(files[i].path.as_str(), b) {
            return i;
        }
        assert(rest.subrange(1, rest.len() as int) == paths.subrange(i + 1, paths.len() as int));
        i += 1;
    }
    i
}

fn has_path(files: &Vec<CodeFile>, name: &str) -> (r: bool)
    ensures
        r == paths_of(files.deep_view()).contains(name@),
{
    let ghost paths = paths_of(files.deep_view());
    let mut i: usize = 0;
    while i < files.len()
        invariant
            i <= files.len(),
            paths == paths_of(files.deep_view()),
            forall|k: int| 0 <= k < i ==> paths[k] != name@,
        decreases files.len() - i,
    {
        if same_text(files[i].path.as_str(), name) {
            assert(paths[i as int] == name@);
            return true;
        }
        i += 1;
    }
    false
}

fn path_at(files: &Vec<CodeFile>, at: usize, fallback: &str) -> (r: String)
    ensures
        r@ == path_or(paths_of(files.deep_view()), at as int, fallback@),
{
    if at < files.len() {
        files[at].path.clone()
    } else {
        String::from_str(fallback)
    }
}

fn without(file: &str, extension: &str) -> (r: String)
    ensures
        r@ == replaced(file@, extension@, Seq::empty()),
{
    let text = to_chars(file);
    let pattern = to_chars(extension);
    let nothing: Vec<char> = Vec::new();
    let out = replace_all(&text, &pattern, &nothing);
    from_chars(&out)
}

fn words2(a: String, b: String) -> (r: Vec<String>)
    ensures
        r.deep_view() == seq![a@, b@],
{
    let mut out: Vec<String> = Vec::new();
    out.push(a);
    out.push(b);
    assert(out.deep_view() =~= seq![a@, b@]);
    out
}

fn words3(a: String, b: String, c: String) -> (r: Vec<String>)
    ensures
        r.deep_view() == seq![a@, b@, c@],
{
    let mut out: Vec<String> = Vec::new();
    out.push(a);
    out.push(b);
    out.push(c);
    assert(out.deep_view() =~= seq![a@, b@, c@]);
    out
}

impl ContainerManager {
    /// A manager that plans containers with the given configuration.
    pub fn new(config: ContainerConfig) -> (r: Self)
        ensures
            r.config == config,
    {
        ContainerManager { config: config }
    }

    /// Whether the codebase holds something an entrypoint can be chosen
    /// from.
    pub fn has_runnable_code(&self, codebase: &Codebase) -> (r: bool)
        ensures
            r == runnable(paths_of(codebase.files.deep_view())),
    {
        let files = &codebase.files;
        let n = files.len();
        index_ending(files, ".go") < n || index_ending(files, ".rs") < n || has_path(files, "Cargo.toml")
            || index_ending(files, ".py") < n || index_ending(files, ".js") < n || index_ending(
            files,
            ".ts",
        ) < n || has_path(files, "package.json") || index_ending(files, ".java") < n
    }

    /// The command that runs the codebase inside the container.
    pub fn detect_execution_command(&self, codebase: &Codebase) -> (r: Vec<String>)
        ensures
            r.deep_view() == execution_command(paths_of(codebase.files.deep_view())),
    {
        let files = &codebase.files;
        let n = files.len();
        if index_ending(files, ".go") < n {
            if has_path(files, "main.go") {
                words3(String::from_str("go"), String::from_str("run"), String::from_str("main.go"))
            } else {
                words3(String::from_str("go"), String::from_str("run"), String::from_str("."))
            }
        } else if index_ending(files, ".rs") < n || has_path(files, "Cargo.toml") {
            if has_path(files, "Cargo.toml") {
                words2(String::from_str("cargo"), String::from_str("run"))
            } else {
                let file = path_at(files, index_ending(files, ".rs"), "main.rs");
                let binary = without(file.as_str(), ".rs");
                let mut out: Vec<String> = Vec::new();
                let program = join2("./", binary.as_str());
                out.push(String::from_str("rustc"));
                out.push(file);
                out.push(String::from_str("&&"));
                out.push(program);
                assert(out.deep_view() =~= seq!["rustc"@, file@, "&&"@, program@]);
                out
            }
        } else if index_ending(files, ".py") < n {
            let main = index_named(files, "main.py", "__main__.py");
            if main < n {
                assert(paths_of(files.deep_view())[main as int] == files[main as int].path@);
                words2(String::from_str("python3"), files[main].path.clone())
            } else {
                words2(String::from_str("python3"), path_at(files, index_ending(files, ".py"), "main.py"))
            }
        } else if index_ending(files, ".js") < n || index_ending(files, ".ts") < n || has_path(
            files,
            "package.json",
        ) {
            if has_path(files, "package.json") {
                words2(String::from_str("npm"), String::from_str("start"))
            } else {
                words2(String::from_str("node"), path_at(files, index_ending(files, ".js"), "index.js"))
            }
        } else if index_ending(files, ".java") < n {
            let file = path_at(files, index_ending(files, ".java"), "Main.java");
            let class = without(file.as_str(), ".java");
            let mut out: Vec<String> = Vec::new();
            out.push(String::from_str("javac"));
            out.push(file);
            out.push(String::from_str("&&"));
            out.push(String::from_str("java"));
            out.push(class);
            assert(out.deep_view() =~= seq!["javac"@, file@, "&&"@, "java"@, class@]);
            out
        } else {
            words3(
                String::from_str("sh"),
                String::from_str("-c"),
                String::from_str("echo 'no runnable code detected'; exit 1"),
            )
        }
    }
}

/// `x`, held at the largest number a signed 64-bit field can take.
pub open spec fn held(x: int) -> u64 {
    if x > i64::MAX {
        i64::MAX as u64
    } else {
        x as u64
    }
}

/// The `NAME=value` texts of the environment variables, in their order.
pub open spec fn environment_texts(variables: Seq<TextEntryModel>) -> Seq<Seq<char>>
    decreases variables.len(),
{
    if variables.len() == 0 {
        Seq::empty()
    } else {
        environment_texts(variables.drop_last()).push(variables.last().key + "="@ + variables.last().value)
    }
}

/// What the container runtime is asked for when a container is created for
/// the environment `id` with the workspace at `working_dir`: the memory cap
/// in bytes and the CPU quota in billionths of a core, no network where
/// isolation is asked for, the workspace mounted at `/workspace`, read-only
/// where the configuration says so, and a temporary filesystem at `/tmp`.
pub open spec fn container_spec_for(config: ContainerConfigModel, id: Seq<char>, working_dir: Seq<char>) -> ContainerSpecModel {
    ContainerSpecModel {
        name: "kwality-exec-"@ + id,
        image: config.image,
        working_dir: "/workspace"@,
        env: environment_texts(config.environment),
        memory_bytes: held(config.memory_limit_mb * 1024 * 1024),
        nano_cpus: held(config.cpu_limit_cores * 1000),
        network_mode: if config.network_isolation {
            "none"@
        } else {
            "bridge"@
        },
        mount_source: working_dir,
        mount_target: "/workspace"@,
        mount_read_only: config.readonly_filesystem,
        read_only_root_fs: config.readonly_filesystem,
        security_opt: config.security_opts,
        tmpfs_target: "/tmp"@,
        tmpfs_options: "size="@ + decimal_digits(config.temp_dir_size_mb as nat) + "m"@,
        attach_stdout: true,
        attach_stderr: true,
    }
}

fn hold(x: u128) -> (r: u64)
    ensures
        r == held(x as int),
{
    if x > 0x7fff_ffff_ffff_ffff {
        0x7fff_ffff_ffff_ffff
    } else {
        x as u64
    }
}

impl ContainerManager {
    /// What the container runtime is asked for when a container is created
    /// for the environment.
    pub fn create_container(&self, env: &ExecutionEnvironment) -> (r: ContainerSpec)
        ensures
            r.deep_view() == container_spec_for(self.config.deep_view(), env.id@, env.working_dir@),
    {
        let mut variables: Vec<String> = Vec::new();
        let ghost all = self.config.environment.deep_view();
        let mut i: usize = 0;
        assert(variables.deep_view() =~= Seq::empty());
        while i < self.config.environment.len()
            invariant
                i <= self.config.environment.len(),
                all == self.config.environment.deep_view(),
                variables.deep_view() == environment_texts(all.take(i as int)),
            decreases self.config.environment.len() - i,
        {
            let variable = &self.config.environment[i];
            let ghost before = variables.deep_view();
            let text = join3(variable.key.as_str(), "=", variable.value.as_str());
            variables.push(text);
            proof {
                assert(variables.deep_view() =~= before.push(text@));
                assert(all.take(i + 1).drop_last() == all.take(i as int));
                assert(all.take(i + 1).last() == variable.deep_view());
            }
            i += 1;
        }
        assert(all.take(self.config.environment.len() as int) == all);
        let size = decimal(self.config.temp_dir_size_mb);
        let options = self.config.security_opts.clone();
        assert(options.deep_view() =~= self.config.security_opts.deep_view());
        ContainerSpec {
            name: join2("kwality-exec-", env.id.as_str()),
            image: self.config.image.clone(),
            working_dir: String::from_str("/workspace"),
            env: variables,
            memory_bytes: hold((self.config.memory_limit_mb as u128) * 1024 * 1024),
            nano_cpus: hold((self.config.cpu_limit_cores as u128) * 1000),
            network_mode: if self.config.network_isolation {
                String::from_str("none")
            } else {
                String::from_str("bridge")
            },
            mount_source: env.working_dir.clone(),
            mount_target: String::from_str("/workspace"),
            mount_read_only: self.config.readonly_filesystem,
            read_only_root_fs: self.config.readonly_filesystem,
            security_opt: options,
            tmpfs_target: String::from_str("/tmp"),
            tmpfs_options: join3("size=", size.as_str(), "m"),
            attach_stdout: true,
            attach_stderr: true,
        }
    }
}

/// `x`, or `fallback` when there is no `x`.
pub open spec fn or_else(x: Option<u64>, fallback: u64) -> u64 {
    match x {
        Some(v) => v,
        None => fallback,
    }
}

/// The CPU share of a container between two samples, in millionths of a
/// percent: the container's share of the system's CPU time, times the
/// number of processors (one where it is not reported), times one hundred.
/// Zero when either counter did not advance. Held at the largest number a
/// `u64` can take.
pub open spec fn cpu_share(sample: StatsSample) -> u64 {
    let cpu_delta = sample.cpu_total_usage - sample.precpu_total_usage;
    let system_delta = or_else(sample.system_cpu_usage, 0) - or_else(sample.presystem_cpu_usage, 0);
    let processors: int = match sample.online_cpus {
        Some(n) => n as int,
        None => 1,
    };
    if system_delta > 0 && cpu_delta > 0 {
        let share = cpu_delta * processors * 100_000_000 / system_delta;
        if share > u64::MAX {
            u64::MAX
        } else {
            share as u64
        }
    } else {
        0
    }
}

/// The bytes that went over the first network interface, both ways, held
/// at the largest number a `u64` can take.
pub open spec fn network_bytes(counters: Option<NetworkCounters>) -> u64 {
    match counters {
        Some(c) => if c.rx_bytes + c.tx_bytes > u64::MAX {
            u64::MAX
        } else {
            (c.rx_bytes + c.tx_bytes) as u64
        },
        None => 0,
    }
}

/// What a statistics sample says a run consumed.
pub open spec fn usage_of(sample: StatsSample) -> ResourceUsage {
    ResourceUsage {
        cpu_usage_percent: cpu_share(sample),
        memory_usage_mb: or_else(sample.memory_usage, 0) / 1_048_576,
        disk_usage_mb: 0,
        network_io_bytes: network_bytes(sample.first_network),
        file_descriptors: 0,
        max_memory_mb: or_else(sample.memory_limit, 0) / 1_048_576,
        max_cpu_percent: 100_000_000,
    }
}

/// What a run consumed when nothing is known of it.
pub open spec fn no_usage() -> ResourceUsage {
    ResourceUsage {
        cpu_usage_percent: 0,
        memory_usage_mb: 0,
        disk_usage_mb: 0,
        network_io_bytes: 0,
        file_descriptors: 0,
        max_memory_mb: 0,
        max_cpu_percent: 0,
    }
}

impl Default for ResourceUsage {
    fn default() -> (r: Self)
        ensures
            r == no_usage(),
    {
        ResourceUsage {
            cpu_usage_percent: 0,
            memory_usage_mb: 0,
            disk_usage_mb: 0,
            network_io_bytes: 0,
            file_descriptors: 0,
            max_memory_mb: 0,
            max_cpu_percent: 0,
        }
    }
}

fn value_or(x: Option<u64>, fallback: u64) -> (r: u64)
    ensures
        r == or_else(x, fallback),
{
    match x {
        Some(v) => v,
        None => fallback,
    }
}

impl ContainerManager {
    /// What a statistics sample says a run consumed; nothing when there is
    /// no sample.
    pub fn collect_resource_usage(&self, sample: Option<StatsSample>) -> (r: ResourceUsage)
        ensures
            r == (match sample {
                Some(s) => usage_of(s),
                None => no_usage(),
            }),
    {
        match sample {
            None => ResourceUsage::default(),
            Some(s) => {
                let system_now = value_or(s.system_cpu_usage, 0);
                let system_before = value_or(s.presystem_cpu_usage, 0);
                let processors: u128 = match s.online_cpus {
                    Some(n) => n as u128,
                    None => 1,
                };
                let cpu_usage_percent: u64 = if system_now > system_before && s.cpu_total_usage
                    > s.precpu_total_usage {
                    let cpu_delta: u128 = (s.cpu_total_usage - s.precpu_total_usage) as u128;
                    let system_delta: u128 = (system_now - system_before) as u128;
                    assert(cpu_delta * processors <= 0xffff_ffff_ffff_ffff * 0xffff_ffff) by (nonlinear_arith)
                        requires
                            cpu_delta <= 0xffff_ffff_ffff_ffff,
                            processors <= 0xffff_ffff,
                    ;
                    let share: u128 = cpu_delta * processors * 100_000_000 / system_delta;
                    if share > 0xffff_ffff_ffff_ffff {
                        u64::MAX
                    } else {
                        share as u64
                    }
                } else {
                    0
                };
                let network_io_bytes: u64 = match s.first_network {
                    Some(c) => if c.rx_bytes > u64::MAX - c.tx_bytes {
                        u64::MAX
                    } else {
                        c.rx_bytes + c.tx_bytes
                    },
                    None => 0,
                };
                ResourceUsage {
                    cpu_usage_percent: cpu_usage_percent,
                    memory_usage_mb: value_or(s.memory_usage, 0) / 1_048_576,
                    disk_usage_mb: 0,
                    network_io_bytes: network_io_bytes,
                    file_descriptors: 0,
                    max_memory_mb: value_or(s.memory_limit, 0) / 1_048_576,
                    max_cpu_percent: 100_000_000,
                }
            },
        }
    }
}

/// A run whose counters did not advance used no CPU.
pub proof fn lemma_idle_run_uses_no_cpu(sample: StatsSample)
    requires
        sample.cpu_total_usage <= sample.precpu_total_usage || or_else(sample.system_cpu_usage, 0)
            <= or_else(sample.presystem_cpu_usage, 0),
    ensures
        usage_of(sample).cpu_usage_percent == 0,
{
}

/// What the command came to inside the container: its exit code with what
/// it wrote, or the reason it could not be run.
#[derive(Debug, PartialEq, Eq)]
pub enum CommandOutcome {
    Ran { exit_code: i64, stdout: String, stderr: String },
    NotRun { reason: String },
}

/// The mathematical value of a [`CommandOutcome`].
pub ghost enum CommandOutcomeModel {
    Ran { exit_code: i64, stdout: Seq<char>, stderr: Seq<char> },
    NotRun { reason: Seq<char> },
}

impl DeepView for CommandOutcome {
    type V = CommandOutcomeModel;

    open spec fn deep_view(&self) -> CommandOutcomeModel {
        match self {
            CommandOutcome::Ran { exit_code, stdout, stderr } => CommandOutcomeModel::Ran {
                exit_code: *exit_code,
                stdout: stdout@,
                stderr: stderr@,
            },
            CommandOutcome::NotRun { reason } => CommandOutcomeModel::NotRun { reason: reason@ },
        }
    }
}

/// The result of an execution: what the command came to, what the run
/// consumed where a sample was had, and how long it took. A command that
/// could not be run counts as ended with code -1, with the reason as its
/// error output. Every run takes time: a duration measured as zero counts as
/// one millisecond.
pub open spec fn execution_result(
    execution_id: Seq<char>,
    outcome: CommandOutcomeModel,
    sample: Option<StatsSample>,
    duration: u64,
) -> ExecutionResultModel {
    ExecutionResultModel {
        execution_id: execution_id,
        exit_code: match outcome {
            CommandOutcomeModel::Ran { exit_code, .. } => exit_code,
            CommandOutcomeModel::NotRun { .. } => -1i64,
        },
        stdout: match outcome {
            CommandOutcomeModel::Ran { stdout, .. } => stdout,
            CommandOutcomeModel::NotRun { .. } => Seq::empty(),
        },
        stderr: match outcome {
            CommandOutcomeModel::Ran { stderr, .. } => stderr,
            CommandOutcomeModel::NotRun { reason } => "Execution failed: "@ + reason,
        },
        duration: if duration == 0 {
            1
        } else {
            duration
        },
        resource_usage: match sample {
            Some(s) => usage_of(s),
            None => no_usage(),
        },
        security_events: Seq::empty(),
    }
}

impl ContainerManager {
    /// Puts the result of an execution together.
    pub fn execution_result(
        &self,
        execution_id: String,
        outcome: CommandOutcome,
        sample: Option<StatsSample>,
        duration: u64,
    ) -> (r: ExecutionResult)
        ensures
            r.deep_view() == execution_result(execution_id@, outcome.deep_view(), sample, duration),
    {
        let resource_usage = self.collect_resource_usage(sample);
        let duration: u64 = if duration == 0 {
            1
        } else {
            duration
        };
        let security_events: Vec<SecurityEvent> = Vec::new();
        assert(security_events.deep_view() =~= Seq::empty());
        match outcome {
            CommandOutcome::Ran { exit_code, stdout, stderr } => ExecutionResult {
                execution_id: execution_id,
                exit_code: exit_code,
                stdout: stdout,
                stderr: stderr,
                duration: duration,
                resource_usage: resource_usage,
                security_events: security_events,
            },
            CommandOutcome::NotRun { reason } => ExecutionResult {
                execution_id: execution_id,
                exit_code: -1,
                stdout: String::new(),
                stderr: join2("Execution failed: ", reason.as_str()),
                duration: duration,
                resource_usage: resource_usage,
                security_events: security_events,
            },
        }
    }
}

/// The steps of one execution, in the order they are taken.
#[derive(Debug, Clone, Copy, PartialEq, Eq, Structural)]
pub enum SandboxStep {
    CreateContainer,
    StartContainer,
    RunCommand,
    SampleUsage,
    StopContainer,
    RemoveContainer,
    Finished,
}

/// The place of a step in the order of an execution.
pub open spec fn step_rank(step: SandboxStep) -> nat {
    match step {
        SandboxStep::CreateContainer => 0,
        SandboxStep::StartContainer => 1,
        SandboxStep::RunCommand => 2,
        SandboxStep::SampleUsage => 3,
        SandboxStep::StopContainer => 4,
        SandboxStep::RemoveContainer => 5,
        SandboxStep::Finished => 6,
    }
}

/// The step that follows `step`, given whether `step` succeeded. Without a
/// container there is nothing more to do. A container that did not start is
/// removed at once. After that nothing that fails stops the execution: the
/// container is stopped and then removed.
pub open spec fn step_after(step: SandboxStep, succeeded: bool) -> SandboxStep {
    match step {
        SandboxStep::CreateContainer => if succeeded {
            SandboxStep::StartContainer
        } else {
            SandboxStep::Finished
        },
        SandboxStep::StartContainer => if succeeded {
            SandboxStep::RunCommand
        } else {
            SandboxStep::RemoveContainer
        },
        SandboxStep::RunCommand => SandboxStep::SampleUsage,
        SandboxStep::SampleUsage => SandboxStep::StopContainer,
        SandboxStep::StopContainer => SandboxStep::RemoveContainer,
        SandboxStep::RemoveContainer => SandboxStep::Finished,
        SandboxStep::Finished => SandboxStep::Finished,
    }
}

impl SandboxStep {
    /// The step that follows this one.
    pub fn next(self, succeeded: bool) -> (r: SandboxStep)
        ensures
            r == step_after(self, succeeded),
            self != SandboxStep::Finished ==> step_rank(r) > step_rank(self),
    {
        match self {
            SandboxStep::CreateContainer => if succeeded {
                SandboxStep::StartContainer
            } else {
                SandboxStep::Finished
            },
            SandboxStep::StartContainer => if succeeded {
                SandboxStep::RunCommand
            } else {
                SandboxStep::RemoveContainer
            },
            SandboxStep::RunCommand => SandboxStep::SampleUsage,
            SandboxStep::SampleUsage => SandboxStep::StopContainer,
            SandboxStep::StopContainer => SandboxStep::RemoveContainer,
            SandboxStep::RemoveContainer => SandboxStep::Finished,
            SandboxStep::Finished => SandboxStep::Finished,
        }
    }
}

/// The step reached from `step` by the given outcomes, one for each step
/// taken.
pub open spec fn steps_after(step: SandboxStep, outcomes: Seq<bool>) -> SandboxStep
    decreases outcomes.len(),
{
    if outcomes.len() == 0 {
        step
    } else {
        step_after(steps_after(step, outcomes.drop_last()), outcomes.last())
    }
}

/// Whether the execution passed through the removal of the container on
/// its way from `step` by the given outcomes.
pub open spec fn removal_attempted(step: SandboxStep, outcomes: Seq<bool>) -> bool {
    exists|k: int| 0 <= k < outcomes.len() && steps_after(step, outcomes.take(k)) == SandboxStep::RemoveContainer
}

/// Once a container exists, the execution does not finish without an
/// attempt to remove it, whatever fails on the way.
pub proof fn lemma_container_is_always_removed(outcomes: Seq<bool>)
    requires
        steps_after(SandboxStep::StartContainer, outcomes) == SandboxStep::Finished,
    ensures
        removal_attempted(SandboxStep::StartContainer, outcomes),
    decreases outcomes.len(),
{
    let start = SandboxStep::StartContainer;
    if outcomes.len() > 0 {
        let before = steps_after(start, outcomes.drop_last());
        if before == SandboxStep::RemoveContainer {
            assert(outcomes.take(outcomes.len() - 1) == outcomes.drop_last());
        } else {
            assert(before == SandboxStep::Finished);
            lemma_container_is_always_removed(outcomes.drop_last());
            let k = choose|k: int|
                0 <= k < outcomes.drop_last().len() && steps_after(start, outcomes.drop_last().take(k))
                    == SandboxStep::RemoveContainer;
            assert(outcomes.drop_last().take(k) == outcomes.take(k));
        }
    }
}

/// What is wrong with a path of a codebase.
#[derive(Debug, Clone, Copy, PartialEq, Eq, Structural)]
pub enum PathProblemKind {
    /// The path is empty or starts at the root.
    NotRelative,
    /// The path has a `..` component.
    TraversesUpward,
    /// An earlier file has the same path.
    Duplicate,
}

/// A path of a codebase that cannot be written into a workspace.
#[derive(Debug, Clone, Copy, PartialEq, Eq, Structural)]
pub struct PathProblem {
    /// The position of the file in the codebase.
    pub index: usize,
    pub kind: PathProblemKind,
}

/// What is wrong with the path at position `at`, if anything.
pub open spec fn problem_at(paths: Seq<Seq<char>>, at: int) -> Option<PathProblemKind> {
    let path = paths[at];
    if path.len() == 0 || path[0] == '/' {
        Some(PathProblemKind::NotRelative)
    } else if crate::text::split(path, '/').contains(".."@) {
        Some(PathProblemKind::TraversesUpward)
    } else if paths.take(at).contains(path) {
        Some(PathProblemKind::Duplicate)
    } else {
        None
    }
}

/// Whether every path is relative, stays below the workspace and occurs
/// once.
pub open spec fn paths_valid(paths: Seq<Seq<char>>) -> bool {
    forall|i: int| 0 <= i < paths.len() ==> (#[trigger] problem_at(paths, i)) is None
}

fn problem_of(files: &Vec<CodeFile>, at: usize) -> (r: Option<PathProblemKind>)
    requires
        at < files.len(),
    ensures
        r == problem_at(paths_of(files.deep_view()), at as int),
{
    let ghost paths = paths_of(files.deep_view());
    let path = to_chars(files[at].path.as_str());
    assert(paths[at as int] == path@);
    if path.len() == 0 || path[0] == '/' {
        return Some(PathProblemKind::NotRelative);
    }
    let pieces = crate::text::split_on(&path, '/');
    let mut up: Vec<char> = Vec::new();
    up.push('.');
    up.push('.');
    proof {
        reveal_strlit("..");
        assert(up@ =~= ".."@);
    }
    let mut k: usize = 0;
    while k < pieces.len()
        invariant
            k <= pieces.len(),
            up@ == ".."@,
            at < files.len(),
            paths == paths_of(files.deep_view()),
            paths[at as int] == path@,
            path@.len() > 0,
            path@[0] != '/',
            pieces.deep_view() == crate::text::split(path@, '/'),
            forall|j: int| 0 <= j < k ==> pieces.deep_view()[j] != ".."@,
        decreases pieces.len() - k,
    {
        proof {
            crate::text::lemma_chars_deep_view(pieces[k as int]);
        }
        if crate::text::same_chars(&pieces[k], &up) {
            assert(pieces.deep_view()[k as int] == ".."@);
            return Some(PathProblemKind::TraversesUpward);
        }
        k += 1;
    }
    let mut j: usize = 0;
    while j < at
        invariant
            j <= at < files.len(),
            paths == paths_of(files.deep_view()),
            paths[at as int] == path@,
            path@.len() > 0,
            path@[0] != '/',
            !crate::text::split(path@, '/').contains(".."@),
            forall|i: int| 0 <= i < j ==> paths[i] != path@,
        decreases at - j,
    {
        if same_text(files[j].path.as_str(), files[at].path.as_str()) {
            assert(paths.take(at as int)[j as int] == path@);
            return Some(PathProblemKind::Duplicate);
        }
        j += 1;
    }
    assert forall|i: int| 0 <= i < paths.take(at as int).len() implies paths.take(at as int)[i] != path@ by {
        assert(paths.take(at as int)[i] == paths[i]);
    }
    None
}

impl Codebase {
    /// Checks that every path is relative, stays below the workspace and
    /// occurs once, and names the first file for which that fails.
    pub fn check_paths(&self) -> (r: Result<(), PathProblem>)
        ensures
            r is Ok <==> paths_valid(paths_of(self.files.deep_view())),
            r matches Err(problem) ==> problem.index < self.files.len() && problem_at(
                paths_of(self.files.deep_view()),
                problem.index as int,
            ) == Some(problem.kind) && forall|k: int|
                0 <= k < problem.index ==> (#[trigger] problem_at(paths_of(self.files.deep_view()), k)) is None,
    {
        let mut i: usize = 0;
        while i < self.files.len()
            invariant
                i <= self.files.len(),
                forall|k: int| 0 <= k < i ==> (#[trigger] problem_at(paths_of(self.files.deep_view()), k)) is None,
            decreases self.files.len() - i,
        {
            match problem_of(&self.files, i) {
                Some(kind) => {
                    return Err(PathProblem { index: i, kind: kind });
                },
                None => {},
            }
            i += 1;
        }
        Ok(())
    }
}

/// The workspace directory inside a temporary directory.
pub open spec fn workspace_dir(temp_dir: Seq<char>) -> Seq<char> {
    temp_dir + "/workspace"@
}

/// Where a file of the codebase is written on the host.
pub open spec fn target_path(working_dir: Seq<char>, path: Seq<char>) -> Seq<char> {
    working_dir + "/"@ + path
}

/// The environment made for a codebase inside the temporary directory
/// `temp_dir`, with the identifier `id`: no container yet, the workspace
/// below the temporary directory.
pub open spec fn new_environment(id: Seq<char>, temp_dir: Seq<char>, codebase: CodebaseModel) -> ExecutionEnvironmentModel {
    ExecutionEnvironmentModel {
        id: id,
        container_id: None,
        working_dir: workspace_dir(temp_dir),
        temp_dir: Some(temp_dir),
        codebase: codebase,
        metadata: Seq::empty(),
    }
}

/// The files to write for a codebase, each with its place on the host, in
/// the codebase's order.
pub open spec fn planned_writes(working_dir: Seq<char>, files: Seq<CodeFileModel>) -> Seq<TextEntryModel>
    decreases files.len(),
{
    if files.len() == 0 {
        Seq::empty()
    } else {
        planned_writes(working_dir, files.drop_last()).push(
            TextEntryModel {
                key: target_path(working_dir, files.last().path),
                value: files.last().content,
            },
        )
    }
}

/// A filesystem, as far as it matters here: the content at each path, after
/// the given writes were made one after the other.
pub open spec fn written(contents: Map<Seq<char>, Seq<char>>, writes: Seq<TextEntryModel>) -> Map<
    Seq<char>,
    Seq<char>,
>
    decreases writes.len(),
{
    if writes.len() == 0 {
        contents
    } else {
        written(contents, writes.drop_last()).insert(writes.last().key, writes.last().value)
    }
}

/// What the last write to `path` wrote, if there is a write to it.
pub open spec fn last_written(writes: Seq<TextEntryModel>, path: Seq<char>) -> Option<Seq<char>>
    decreases writes.len(),
{
    if writes.len() == 0 {
        None
    } else if writes.last().key == path {
        Some(writes.last().value)
    } else {
        last_written(writes.drop_last(), path)
    }
}

/// After the writes a path holds what was last written to it, and what it
/// held before where nothing was written to it.
pub proof fn lemma_written(contents: Map<Seq<char>, Seq<char>>, writes: Seq<TextEntryModel>, path: Seq<char>)
    ensures
        written(contents, writes).dom().contains(path) <==> contents.dom().contains(path) || last_written(
            writes,
            path,
        ) is Some,
        last_written(writes, path) matches Some(content) ==> written(contents, writes)[path] == content,
        last_written(writes, path) is None ==> written(contents, writes)[path] == contents[path],
    decreases writes.len(),
{
    if writes.len() > 0 {
        lemma_written(contents, writes.drop_last(), path);
    }
}

/// Writing the same files a second time leaves every path of the workspace
/// as the first writing left it.
pub proof fn lemma_writing_twice_changes_nothing(contents: Map<Seq<char>, Seq<char>>, writes: Seq<TextEntryModel>)
    ensures
        written(written(contents, writes), writes) == written(contents, writes),
{
    let once = written(contents, writes);
    let twice = written(once, writes);
    assert forall|path: Seq<char>| twice.dom().contains(path) == once.dom().contains(path) by {
        lemma_written(contents, writes, path);
        lemma_written(once, writes, path);
    }
    assert forall|path: Seq<char>| twice.dom().contains(path) implies twice[path] == once[path] by {
        lemma_written(contents, writes, path);
        lemma_written(once, writes, path);
    }
    assert(twice =~= once);
}

impl ContainerManager {
    /// The environment for a codebase inside the temporary directory
    /// `temp_dir`, under a fresh identifier. A codebase with a path that is
    /// not relative, traverses upward or occurs twice is refused.
    pub fn create_execution_environment(&self, codebase: &Codebase, temp_dir: &str) -> (r: Result<
        ExecutionEnvironment,
        PathProblem,
    >)
        ensures
            r is Ok <==> paths_valid(paths_of(codebase.files.deep_view())),
            r matches Ok(env) ==> env.deep_view() == new_environment(env.id@, temp_dir@, codebase.deep_view()),
            r matches Err(problem) ==> problem.index < codebase.files.len() && problem_at(
                paths_of(codebase.files.deep_view()),
                problem.index as int,
            ) == Some(problem.kind) && forall|k: int|
                0 <= k < problem.index ==> (#[trigger] problem_at(paths_of(codebase.files.deep_view()), k))
                    is None,
    {
        match codebase.check_paths() {
            Err(problem) => Err(problem),
            Ok(()) => {
                let metadata: Vec<TextEntry> = Vec::new();
                assert(metadata.deep_view() =~= Seq::empty());
                Ok(
                    ExecutionEnvironment {
                        id: crate::outside::new_id(),
                        container_id: None,
                        working_dir: join2(temp_dir, "/workspace"),
                        temp_dir: Some(String::from_str(temp_dir)),
                        codebase: codebase.clone(),
                        metadata: metadata,
                    },
                )
            },
        }
    }

    /// The files to write into the workspace of the environment, each with
    /// its place on the host, in the codebase's order.
    pub fn workspace_files(&self, env: &ExecutionEnvironment) -> (r: Vec<TextEntry>)
        ensures
            r.deep_view() == planned_writes(env.working_dir@, env.codebase.files.deep_view()),
    {
        let mut out: Vec<TextEntry> = Vec::new();
        let ghost files = env.codebase.files.deep_view();
        let mut i: usize = 0;
        assert(out.deep_view() =~= Seq::empty());
        while i < env.codebase.files.len()
            invariant
                i <= env.codebase.files.len(),
                files == env.codebase.files.deep_view(),
                out.deep_view() == planned_writes(env.working_dir@, files.take(i as int)),
            decreases env.codebase.files.len() - i,
        {
            let file = &env.codebase.files[i];
            let ghost before = out.deep_view();
            let entry = TextEntry {
                key: join3(env.working_dir.as_str(), "/", file.path.as_str()),
                value: file.content.clone(),
            };
            out.push(entry);
            proof {
                assert(out.deep_view() =~= before.push(entry.deep_view()));
                assert(files.take(i + 1).drop_last() == files.take(i as int));
                assert(files.take(i + 1).last() == file.deep_view());
            }
            i += 1;
        }
        assert(files.take(env.codebase.files.len() as int) == files);
        out
    }
}

/// Something to release on the host.
#[derive(Debug, PartialEq, Eq)]
pub enum CleanupAction {
    /// Remove the container with this identifier, by force.
    RemoveContainer(String),
    /// Delete this directory with all it holds.
    RemoveDirectory(String),
}

/// The mathematical value of a [`CleanupAction`].
pub ghost enum CleanupActionModel {
    RemoveContainer(Seq<char>),
    RemoveDirectory(Seq<char>),
}

impl DeepView for CleanupAction {
    type V = CleanupActionModel;

    open spec fn deep_view(&self) -> CleanupActionModel {
        match self {
            CleanupAction::RemoveContainer(id) => CleanupActionModel::RemoveContainer(id@),
            CleanupAction::RemoveDirectory(path) => CleanupActionModel::RemoveDirectory(path@),
        }
    }
}

/// What is left to release for an environment: its container if it has
/// one, then its temporary directory if it still exists.
pub open spec fn cleanup_actions(env: ExecutionEnvironmentModel) -> Seq<CleanupActionModel> {
    (match env.container_id {
        Some(id) => seq![CleanupActionModel::RemoveContainer(id)],
        None => Seq::empty(),
    }) + (match env.temp_dir {
        Some(path) => seq![CleanupActionModel::RemoveDirectory(path)],
        None => Seq::empty(),
    })
}

/// The environment after it was cleaned up: neither a container nor a
/// temporary directory.
pub open spec fn cleaned_up(env: ExecutionEnvironmentModel) -> ExecutionEnvironmentModel {
    ExecutionEnvironmentModel { container_id: None, temp_dir: None, ..env }
}

impl ContainerManager {
    /// Cleans the environment up: returns what is to be released on the
    /// host and notes in the environment that it is gone.
    pub fn cleanup_environment(&self, env: &mut ExecutionEnvironment) -> (r: Vec<CleanupAction>)
        ensures
            r.deep_view() == cleanup_actions(old(env).deep_view()),
            final(env).deep_view() == cleaned_up(old(env).deep_view()),
    {
        let mut actions: Vec<CleanupAction> = Vec::new();
        assert(actions.deep_view() =~= Seq::empty());
        let container = env.container_id.take();
        match container {
            Some(id) => {
                let action = CleanupAction::RemoveContainer(id);
                actions.push(action);
                assert(actions.deep_view() =~= seq![action.deep_view()]);
            },
            None => {},
        }
        let ghost first = actions.deep_view();
        let directory = env.temp_dir.take();
        match directory {
            Some(path) => {
                let action = CleanupAction::RemoveDirectory(path);
                actions.push(action);
                assert(actions.deep_view() =~= first + seq![action.deep_view()]);
            },
            None => {
                assert(actions.deep_view() =~= first + Seq::empty());
            },
        }
        actions
    }
}

/// Cleaning up a second time finds nothing to release and changes nothing.
pub proof fn lemma_cleanup_is_idempotent(env: ExecutionEnvironmentModel)
    ensures
        cleanup_actions(cleaned_up(env)) == Seq::<CleanupActionModel>::empty(),
        cleaned_up(cleaned_up(env)) == cleaned_up(env),
{
    assert(cleanup_actions(cleaned_up(env)) =~= Seq::empty());
}

/// The health report of the sandbox driver.
pub open spec fn health_report(
    daemon_error: Option<Seq<char>>,
    image_present: bool,
    containers_running: Option<i64>,
    images: Option<i64>,
) -> Seq<DataEntryModel> {
    seq![
        DataEntryModel {
            key: "docker_daemon"@,
            value: crate::DataValueModel::Text(
                match daemon_error {
                    None => "healthy"@,
                    Some(e) => "unhealthy: "@ + e,
                },
            ),
        },
        DataEntryModel {
            key: "runtime_image"@,
            value: crate::DataValueModel::Text(
                if image_present {
                    "available"@
                } else {
                    "missing"@
                },
            ),
        },
        DataEntryModel {
            key: "containers_running"@,
            value: match containers_running {
                Some(n) => crate::DataValueModel::Integer(n),
                None => crate::DataValueModel::Null,
            },
        },
        DataEntryModel {
            key: "images_count"@,
            value: match images {
                Some(n) => crate::DataValueModel::Integer(n),
                None => crate::DataValueModel::Null,
            },
        },
    ]
}

impl ContainerManager {
    /// The health report of the sandbox driver, from what the container
    /// runtime answered: whether it could be reached, whether the runner
    /// image is there, and how many containers and images it holds.
    pub fn health_check(
        &self,
        daemon_error: Option<String>,
        image_present: bool,
        containers_running: Option<i64>,
        images: Option<i64>,
    ) -> (r: Vec<DataEntry>)
        ensures
            r.deep_view() == health_report(daemon_error.deep_view(), image_present, containers_running, images),
    {
        let mut out: Vec<DataEntry> = Vec::new();
        let daemon = match &daemon_error {
            None => String::from_str("healthy"),
            Some(e) => join2("unhealthy: ", e.as_str()),
        };
        out.push(crate::text_entry("docker_daemon", daemon.as_str()));
        out.push(
            crate::text_entry(
                "runtime_image",
                if image_present {
                    "available"
                } else {
                    "missing"
                },
            ),
        );
        out.push(
            match containers_running {
                Some(n) => crate::integer_entry("containers_running", n),
                None => DataEntry { key: String::from_str("containers_running"), value: crate::DataValue::Null },
            },
        );
        out.push(
            match images {
                Some(n) => crate::integer_entry("images_count", n),
                None => DataEntry { key: String::from_str("images_count"), value: crate::DataValue::Null },
            },
        );
        assert(out.deep_view() =~= health_report(daemon_error.deep_view(), image_present, containers_running, images));
        out
    }
}

/// The seconds a container is given to stop before it is killed.
pub const STOP_GRACE_SECONDS: i64 = 10;

impl ExecutionResult {
    /// Whether the result stands for a command that could not be run at
    /// all, as [`ContainerManager::execution_result`] reports it.
    pub open spec fn not_run(self: &ExecutionResult) -> bool {
        self.exit_code == -1 && crate::text::has_prefix(self.stderr@, "Execution failed: "@)
    }

    /// Tests whether the result stands for a command that could not be run
    /// at all.
    pub fn could_not_run(&self) -> (r: bool)
        ensures
            r == self.not_run(),
    {
        self.exit_code == -1 && crate::text::starts_with(self.stderr.as_str(), "Execution failed: ")
    }
}

/// A run that finished in no measurable time still has a duration, and
/// used no CPU.
pub proof fn lemma_instant_run(execution_id: Seq<char>, outcome: CommandOutcomeModel, sample: StatsSample)
    requires
        sample.cpu_total_usage == sample.precpu_total_usage,
    ensures
        execution_result(execution_id, outcome, Some(sample), 0).duration > 0,
        execution_result(execution_id, outcome, Some(sample), 0).resource_usage.cpu_usage_percent == 0,
{
}

} // verus!
