use syla_execution_service::docker::{
    capture_stream, format_cores, ContainerConfig, DockerClient, LaunchEvent,
};
use syla_execution_service::models::Environment;
use syla_execution_service::text::STREAM_LIMIT;

fn client() -> DockerClient {
    DockerClient::new(true).unwrap()
}

fn env(vars: &[(&str, &str)]) -> Environment {
    let mut env = Environment::new();
    for (key, value) in vars {
        env.insert(key.to_string(), value.to_string());
    }
    env
}

fn words(list: &[&str]) -> Vec<String> {
    list.iter().map(|w| w.to_string()).collect()
}

fn config() -> ContainerConfig {
    ContainerConfig {
        image: "python:3.11-slim".to_string(),
        command: words(&["python", "main.py", "--flag"]),
        environment: env(&[("A", "0"), ("EMPTY", ""), ("B", "x=y z"), ("A", "1")]),
        working_dir: "/workspace".to_string(),
        memory_limit: Some(536_870_912),
        cpu_limit: Some(1500),
        timeout_seconds: Some(7),
        network_enabled: false,
    }
}

#[test]
fn client_needs_the_runtime() {
    assert!(DockerClient::new(true).is_ok());
    let err = DockerClient::new(false).unwrap_err();
    assert_eq!(err.message, "Docker not found. Please install Docker.");
}

#[test]
fn run_arguments_list_everything_in_order() {
    let args = client().run_arguments("execution-1", &config(), Some("/tmp/abc"));
    assert_eq!(
        args,
        words(&[
            "run",
            "--rm",
            "--name",
            "execution-1",
            "-v",
            "/tmp/abc:/workspace:ro",
            "-w",
            "/workspace",
            "--memory",
            "536870912",
            "--cpus",
            "1.500",
            "--network",
            "none",
            "-e",
            "A=1",
            "-e",
            "EMPTY=",
            "-e",
            "B=x=y z",
            "python:3.11-slim",
            "python",
            "main.py",
            "--flag",
        ])
    );
}

#[test]
fn run_arguments_leave_out_what_is_not_configured() {
    let bare = ContainerConfig {
        image: "ubuntu:22.04".to_string(),
        command: Vec::new(),
        environment: Environment::new(),
        working_dir: "/w".to_string(),
        memory_limit: None,
        cpu_limit: None,
        timeout_seconds: None,
        network_enabled: true,
    };
    assert_eq!(
        client().run_arguments("n", &bare, None),
        words(&["run", "--rm", "--name", "n", "-w", "/w", "ubuntu:22.04"])
    );
}

#[test]
fn run_arguments_cut_the_network_unless_enabled() {
    let mut config = config();
    let has = |args: &Vec<String>| args.windows(2).any(|w| w[0] == "--network" && w[1] == "none");
    assert!(has(&client().run_arguments("n", &config, None)));
    config.network_enabled = true;
    assert!(!has(&client().run_arguments("n", &config, None)));
}

#[test]
fn kill_arguments_name_the_container() {
    assert_eq!(client().kill_arguments("execution-1"), words(&["kill", "execution-1"]));
}

#[test]
fn format_cores_writes_thousandths_as_cores() {
    assert_eq!(format_cores(0), "0");
    assert_eq!(format_cores(1000), "1");
    assert_eq!(format_cores(1500), "1.500");
    assert_eq!(format_cores(250), "0.250");
    assert_eq!(format_cores(2005), "2.005");
    assert_eq!(format_cores(64_000), "64");
    assert_eq!(format_cores(1), "0.001");
    assert_eq!(format_cores(12_345_678), "12345.678");
}

#[test]
fn deadline_defaults_to_thirty_seconds() {
    let mut config = config();
    assert_eq!(client().deadline_seconds(&config), 7);
    config.timeout_seconds = None;
    assert_eq!(client().deadline_seconds(&config), 30);
}

#[test]
fn settle_turns_an_exit_into_a_result() {
    let event = LaunchEvent::Exited {
        code: Some(3),
        stdout: b"out\n".to_vec(),
        stderr: b"err".to_vec(),
    };
    let (outcome, kill) = client().settle(event, 42);
    let run = outcome.unwrap();
    assert!(!kill);
    assert_eq!(run.exit_code, 3);
    assert_eq!(run.stdout, "out\n");
    assert_eq!(run.stderr, "err");
    assert_eq!(run.duration_ms, 42);
    assert!(!run.timed_out);
}

#[test]
fn settle_reads_a_missing_exit_code_as_minus_one() {
    let event = LaunchEvent::Exited { code: None, stdout: Vec::new(), stderr: Vec::new() };
    let (outcome, kill) = client().settle(event, 0);
    let run = outcome.unwrap();
    assert!(!kill);
    assert_eq!(run.exit_code, -1);
    assert_eq!(run.stdout, "");
    assert!(!run.timed_out);
}

#[test]
fn settle_reports_a_failed_spawn_as_an_adapter_error() {
    let event = LaunchEvent::SpawnFailed { message: "No such file or directory".to_string() };
    let (outcome, kill) = client().settle(event, 5);
    assert!(!kill);
    assert_eq!(outcome.unwrap_err().message, "No such file or directory");
}

#[test]
fn settle_reports_a_passed_deadline_as_a_timeout_and_asks_for_the_kill() {
    let (outcome, kill) = client().settle(LaunchEvent::DeadlinePassed, 1003);
    let run = outcome.unwrap();
    assert!(kill);
    assert_eq!(run.exit_code, -1);
    assert_eq!(run.stdout, "");
    assert_eq!(run.stderr, "Execution timed out");
    assert_eq!(run.duration_ms, 1003);
    assert!(run.timed_out);
}

#[test]
fn capture_stream_reads_valid_text_as_it_is() {
    assert_eq!(capture_stream(b"hi\n"), "hi\n");
    assert_eq!(capture_stream("h\u{e9}llo \u{20ac}".as_bytes()), "h\u{e9}llo \u{20ac}");
    assert_eq!(capture_stream(b""), "");
}

#[test]
fn capture_stream_replaces_what_is_no_text() {
    assert_eq!(capture_stream(&[b'a', 0xff, b'b']), "a\u{fffd}b");
    assert_eq!(capture_stream(&[0xe2, 0x82]), "\u{fffd}");
}

#[test]
fn capture_stream_cuts_to_the_limit() {
    let raw = vec![b'x'; STREAM_LIMIT + 100];
    let text = capture_stream(&raw);
    assert_eq!(text.len(), STREAM_LIMIT);
    assert!(text.ends_with("...<truncated>"));
    let invalid = vec![0xffu8; STREAM_LIMIT];
    let text = capture_stream(&invalid);
    assert!(text.len() <= STREAM_LIMIT);
    assert!(text.ends_with("...<truncated>"));
    assert!(text.starts_with('\u{fffd}'));
}

#[test]
fn settle_cuts_the_streams_to_the_limit() {
    let event = LaunchEvent::Exited {
        code: Some(0),
        stdout: vec![b'o'; 2 * STREAM_LIMIT],
        stderr: vec![b'e'; STREAM_LIMIT + 1],
    };
    let (outcome, _) = client().settle(event, 1);
    let run = outcome.unwrap();
    assert_eq!(run.stdout.len(), STREAM_LIMIT);
    assert_eq!(run.stderr.len(), STREAM_LIMIT);
    assert!(run.stdout.ends_with("...<truncated>"));
    assert!(run.stderr.ends_with("...<truncated>"));
}
