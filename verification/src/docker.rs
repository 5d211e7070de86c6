//! The sandbox adapter: what one container run is given and what it hands
//! back.

use vstd::prelude::*;
use vstd::string::*;
use vstd::utf8::encode_utf8;
use crate::models::Environment;
use crate::text::{
    clipped, decimal, decimal_digits, digit_char, digit_str, fits, push_all, push_text, texts,
    truncate_stream,
};

verus! {

/// What the adapter reports of a container that was launched.
#[derive(Debug)]
pub struct ExecutionResult {
    pub exit_code: i32,
    pub stdout: String,
    pub stderr: String,
    pub duration_ms: u64,
    pub timed_out: bool,
}

/// A run as contracts speak of it.
pub struct RunView {
    pub exit_code: i32,
    pub stdout: Seq<char>,
    pub stderr: Seq<char>,
    pub duration_ms: u64,
    pub timed_out: bool,
}

impl View for ExecutionResult {
    type V = RunView;

    open spec fn view(&self) -> RunView {
        RunView {
            exit_code: self.exit_code,
            stdout: self.stdout@,
            stderr: self.stderr@,
            duration_ms: self.duration_ms,
            timed_out: self.timed_out,
        }
    }
}

/// The runtime could not be reached or the container could not be spawned.
#[derive(Debug)]
pub struct AdapterError {
    pub message: String,
}

/// Either category of what a launch can end in.
pub enum OutcomeView {
    Ran(RunView),
    Unavailable(Seq<char>),
}

/// The outcome that a launch's return value stands for.
pub open spec fn outcome_view(outcome: Result<ExecutionResult, AdapterError>) -> OutcomeView {
    match outcome {
        Ok(run) => OutcomeView::Ran(run@),
        Err(e) => OutcomeView::Unavailable(e.message@),
    }
}

/// Handle on the container runtime.
#[derive(Debug)]
pub struct DockerClient {}

/// What one container is launched with. The CPU limit is counted in
/// thousandths of a core.
#[derive(Debug)]
pub struct ContainerConfig {
    pub image: String,
    pub command: Vec<String>,
    pub environment: Environment,
    pub working_dir: String,
    pub memory_limit: Option<u64>,
    pub cpu_limit: Option<u64>,
    pub timeout_seconds: Option<u64>,
    pub network_enabled: bool,
}

/// A configuration as contracts speak of it.
pub struct ConfigView {
    pub image: Seq<char>,
    pub command: Seq<Seq<char>>,
    pub environment: Seq<(Seq<char>, Seq<char>)>,
    pub working_dir: Seq<char>,
    pub memory_limit: Option<u64>,
    pub cpu_limit: Option<u64>,
    pub timeout_seconds: Option<u64>,
    pub network_enabled: bool,
}

impl View for ContainerConfig {
    type V = ConfigView;

    open spec fn view(&self) -> ConfigView {
        ConfigView {
            image: self.image@,
            command: texts(self.command@),
            environment: self.environment@,
            working_dir: self.working_dir@,
            memory_limit: self.memory_limit,
            cpu_limit: self.cpu_limit,
            timeout_seconds: self.timeout_seconds,
            network_enabled: self.network_enabled,
        }
    }
}

/// The seconds a container may run when its configuration names none.
pub const DEFAULT_TIMEOUT_SECONDS: u64 = 30;

/// What a result says in place of the error stream of a run that timed out.
pub open spec fn timeout_notice() -> Seq<char> {
    "Execution timed out"@
}

/// What the adapter says when the runtime is missing.
pub open spec fn runtime_missing() -> Seq<char> {
    "Docker not found. Please install Docker."@
}

/// The three decimal digits of a number below a thousand.
pub open spec fn three_digits(n: nat) -> Seq<char> {
    seq![
        digit_char((n / 100) as int),
        digit_char(((n / 10) % 10) as int),
        digit_char((n % 10) as int),
    ]
}

/// A count of thousandths of a core, written as cores: the whole cores in
/// decimal and, unless the count is a whole number of cores, a point and the
/// three digits of the thousandths.
pub open spec fn cores_text(millis: nat) -> Seq<char> {
    if millis % 1000 == 0 {
        decimal_digits(millis / 1000)
    } else {
        decimal_digits(millis / 1000) + seq!['.'] + three_digits(millis % 1000)
    }
}

/// Writes a CPU limit as the runtime reads it.
pub fn format_cores(millis: u64) -> (text: String)
    ensures
        text@ == cores_text(millis as nat),
{
    let mut text = decimal(millis / 1000);
    let part: u64 = millis % 1000;
    if part != 0 {
        proof {
            reveal_strlit(".");
        }
        text.append(".");
        text.append(digit_str(part / 100));
        text.append(digit_str((part / 10) % 10));
        text.append(digit_str(part % 10));
    }
    text
}

/// The arguments that hand the environment to the runtime: for each variable
/// in turn `-e` and `KEY=VALUE`.
pub open spec fn env_arguments(env: Seq<(Seq<char>, Seq<char>)>) -> Seq<Seq<char>> {
    Seq::new(
        2 * env.len(),
        |i: int|
            if i % 2 == 0 {
                "-e"@
            } else {
                env[i / 2].0 + "="@ + env[i / 2].1
            },
    )
}

/// The arguments that mount the code directory read-only at the working
/// directory, where there is one.
pub open spec fn mount_arguments(mount: Option<Seq<char>>, working_dir: Seq<char>) -> Seq<
    Seq<char>,
> {
    match mount {
        Some(path) => seq!["-v"@, path + ":"@ + working_dir + ":ro"@],
        None => Seq::empty(),
    }
}

/// The arguments that cap memory and CPU and that cut the network off.
pub open spec fn limit_arguments(config: ConfigView) -> Seq<Seq<char>> {
    (match config.memory_limit {
        Some(bytes) => seq!["--memory"@, decimal_digits(bytes as nat)],
        None => Seq::empty(),
    }) + (match config.cpu_limit {
        Some(millis) => seq!["--cpus"@, cores_text(millis as nat)],
        None => Seq::empty(),
    }) + (if config.network_enabled {
        Seq::empty()
    } else {
        seq!["--network"@, "none"@]
    })
}

/// The whole argument list of a launch: the container is removed when it
/// exits and carries the given name; then the mount, the working directory,
/// the limits, the environment, the image and the command.
pub open spec fn run_arguments_of(name: Seq<char>, config: ConfigView, mount: Option<Seq<char>>)
    -> Seq<Seq<char>> {
    seq!["run"@, "--rm"@, "--name"@, name] + mount_arguments(mount, config.working_dir)
        + seq!["-w"@, config.working_dir] + limit_arguments(config) + env_arguments(
        config.environment,
    ) + seq![config.image] + config.command
}

/// The argument list that kills a container by name.
pub open spec fn kill_arguments_of(name: Seq<char>) -> Seq<Seq<char>> {
    seq!["kill"@, name]
}

/// The seconds after which a launch is given up.
pub open spec fn deadline_of(config: ConfigView) -> u64 {
    match config.timeout_seconds {
        Some(t) => t,
        None => DEFAULT_TIMEOUT_SECONDS,
    }
}

fn environment_arguments(env: &Environment) -> (args: Vec<String>)
    ensures
        texts(args@) == env_arguments(env@),
{
    let mut args: Vec<String> = Vec::new();
    let count = env.len();
    let mut i: usize = 0;
    while i < count
        invariant
            i <= count,
            count == env@.len(),
            texts(args@) == env_arguments(env@.take(i as int)),
        decreases count - i,
    {
        match env.entry(i) {
            Some(var) => {
                push_text(&mut args, "-e");
                let mut pair = String::from_str(var.key.as_str());
                pair.append("=");
                pair.append(var.value.as_str());
                push_text(&mut args, pair.as_str());
            },
            None => {},
        }
        i += 1;
    }
    args
}

/// What the runtime reported of a launch.
#[derive(Debug)]
pub enum LaunchEvent {
    /// The container ran and exited; the exit code, where there is one, and
    /// the raw streams.
    Exited { code: Option<i32>, stdout: Vec<u8>, stderr: Vec<u8> },
    /// The container could not be spawned.
    SpawnFailed { message: String },
    /// The timer fired before the container exited.
    DeadlinePassed,
}

/// A launch event as contracts speak of it.
pub enum LaunchEventView {
    Exited { code: Option<i32>, stdout: Seq<u8>, stderr: Seq<u8> },
    SpawnFailed { message: Seq<char> },
    DeadlinePassed,
}

impl View for LaunchEvent {
    type V = LaunchEventView;

    open spec fn view(&self) -> LaunchEventView {
        match *self {
            LaunchEvent::Exited { code, stdout, stderr } => LaunchEventView::Exited {
                code,
                stdout: stdout@,
                stderr: stderr@,
            },
            LaunchEvent::SpawnFailed { message } => LaunchEventView::SpawnFailed {
                message: message@,
            },
            LaunchEvent::DeadlinePassed => LaunchEventView::DeadlinePassed,
        }
    }
}

/// The text that a stream of raw bytes is read as.
pub uninterp spec fn lossy_text(bytes: Seq<u8>) -> Seq<char>;

/// `String::from_utf8_lossy`: the text is a function of the bytes, and bytes
/// that are the UTF-8 encoding of a text are read as that text.
#[verifier::external_body]
fn from_utf8_lossy(bytes: &[u8]) -> (text: String)
    ensures
        text@ == lossy_text(bytes@),
        forall|encoded: Seq<char>| bytes@ == #[trigger] encode_utf8(encoded) ==> text@ == encoded,
{
    String::from_utf8_lossy(bytes).into_owned()
}

/// A captured stream as a result holds it: read as text, then cut to the
/// limit.
pub fn capture_stream(bytes: &[u8]) -> (text: String)
    ensures
        text@ == clipped(lossy_text(bytes@)),
        forall|encoded: Seq<char>|
            bytes@ == #[trigger] encode_utf8(encoded) ==> text@ == clipped(encoded),
        fits(text@),
{
    let raw = from_utf8_lossy(bytes);
    truncate_stream(raw.as_str())
}

/// What a launch event and the time it took settle to: the outcome, and
/// whether the container is to be killed by name.
pub open spec fn settled(event: LaunchEventView, duration_ms: u64) -> (OutcomeView, bool) {
    match event {
        LaunchEventView::Exited { code, stdout, stderr } => (
            OutcomeView::Ran(
                RunView {
                    exit_code: match code {
                        Some(c) => c,
                        None => -1i32,
                    },
                    stdout: clipped(lossy_text(stdout)),
                    stderr: clipped(lossy_text(stderr)),
                    duration_ms,
                    timed_out: false,
                },
            ),
            false,
        ),
        LaunchEventView::SpawnFailed { message } => (OutcomeView::Unavailable(message), false),
        LaunchEventView::DeadlinePassed => (
            OutcomeView::Ran(
                RunView {
                    exit_code: -1i32,
                    stdout: Seq::empty(),
                    stderr: timeout_notice(),
                    duration_ms,
                    timed_out: true,
                },
            ),
            true,
        ),
    }
}

impl DockerClient {
    /// The handle, where the probe of the runtime succeeded; else the error
    /// that names the missing runtime.
    pub fn new(runtime_found: bool) -> (client: Result<DockerClient, AdapterError>)
        ensures
            runtime_found <==> client is Ok,
            client matches Err(e) ==> e.message@ == runtime_missing(),
    {
        if runtime_found {
            Ok(DockerClient {  })
        } else {
            Err(AdapterError { message: String::from_str("Docker not found. Please install Docker.") })
        }
    }

    /// The arguments with which the runtime launches a container.
    pub fn run_arguments(&self, name: &str, config: &ContainerConfig, mount_path: Option<&str>) -> (args:
        Vec<String>)
        ensures
            texts(args@) == run_arguments_of(
                name@,
                config@,
                match mount_path {
                    Some(p) => Some(p@),
                    None => None,
                },
            ),
    {
        let mut args: Vec<String> = Vec::new();
        push_text(&mut args, "run");
        push_text(&mut args, "--rm");
        push_text(&mut args, "--name");
        push_text(&mut args, name);
        match mount_path {
            Some(path) => {
                push_text(&mut args, "-v");
                let mut target = String::from_str(path);
                target.append(":");
                target.append(config.working_dir.as_str());
                target.append(":ro");
                push_text(&mut args, target.as_str());
            },
            None => {},
        }
        push_text(&mut args, "-w");
        push_text(&mut args, config.working_dir.as_str());
        if let Some(memory) = config.memory_limit {
            push_text(&mut args, "--memory");
            let text = decimal(memory);
            push_text(&mut args, text.as_str());
        }
        if let Some(cpus) = config.cpu_limit {
            push_text(&mut args, "--cpus");
            let text = format_cores(cpus);
            push_text(&mut args, text.as_str());
        }
        if !config.network_enabled {
            push_text(&mut args, "--network");
            push_text(&mut args, "none");
        }
        push_all(&mut args, environment_arguments(&config.environment));
        push_text(&mut args, config.image.as_str());
        push_all(&mut args, crate::text::copy_strings(config.command.as_slice()));
        args
    }

    /// The arguments with which the runtime kills a container.
    pub fn kill_arguments(&self, name: &str) -> (args: Vec<String>)
        ensures
            texts(args@) == kill_arguments_of(name@),
    {
        let mut args: Vec<String> = Vec::new();
        push_text(&mut args, "kill");
        push_text(&mut args, name);
        args
    }

    /// The seconds after which a launch with this configuration is given up.
    pub fn deadline_seconds(&self, config: &ContainerConfig) -> (seconds: u64)
        ensures
            seconds == deadline_of(config@),
    {
        match config.timeout_seconds {
            Some(t) => t,
            None => DEFAULT_TIMEOUT_SECONDS,
        }
    }

    /// Turns what the runtime reported into one of the two categories that
    /// the worker branches on, and says whether the container must be
    /// killed. A container that exited, with whatever code, is a result.
    pub fn settle(&self, event: LaunchEvent, duration_ms: u64) -> (settlement: (
        Result<ExecutionResult, AdapterError>,
        bool,
    ))
        ensures
            (outcome_view(settlement.0), settlement.1) == settled(event@, duration_ms),
            settlement.0 matches Ok(run) ==> fits(run.stdout@) && fits(run.stderr@),
    {
        match event {
            LaunchEvent::Exited { code, stdout, stderr } => {
                let run = ExecutionResult {
                    exit_code: match code {
                        Some(c) => c,
                        None => -1,
                    },
                    stdout: capture_stream(stdout.as_slice()),
                    stderr: capture_stream(stderr.as_slice()),
                    duration_ms,
                    timed_out: false,
                };
                (Ok(run), false)
            },
            LaunchEvent::SpawnFailed { message } => (Err(AdapterError { message }), false),
            LaunchEvent::DeadlinePassed => {
                proof {
                    lemma_notices_fit();
                }
                let run = ExecutionResult {
                    exit_code: -1,
                    stdout: String::new(),
                    stderr: String::from_str("Execution timed out"),
                    duration_ms,
                    timed_out: true,
                };
                (Ok(run), true)
            },
        }
    }
}

/// The empty stream and the timeout notice are within the stream limit.
pub proof fn lemma_notices_fit()
    ensures
        fits(Seq::<char>::empty()),
        fits(timeout_notice()),
{
    reveal_strlit("Execution timed out");
    crate::text::lemma_short_text_fits(timeout_notice());
}

} // verus!
