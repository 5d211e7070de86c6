use syla_execution_service::docker::{AdapterError, DockerClient, ExecutionResult as Run, LaunchEvent};
use syla_execution_service::executor::DockerExecutor;
use syla_execution_service::ids::{format_id, job_key};
use syla_execution_service::models::{CreateExecutionRequest, ExecutionJob, JobStatus, Timestamp};
use syla_execution_service::state::{CancelOutcome, ServiceState, StoreReply};
use syla_execution_service::worker::{start, step, WorkerAction, WorkerEvent, WorkerState};

const ID: u128 = 0x550e8400_e29b_41d4_a716_446655440000;

fn at(seconds: i64) -> Timestamp {
    Timestamp { seconds, nanos: 0 }
}

fn executor() -> DockerExecutor {
    DockerExecutor::new(true).unwrap()
}

fn request(code: &str, language: &str, timeout_seconds: Option<u64>) -> CreateExecutionRequest {
    CreateExecutionRequest {
        code: code.to_string(),
        language: language.to_string(),
        timeout_seconds,
        args: None,
        environment: syla_execution_service::models::Environment::new(),
        resources: None,
    }
}

fn submit(code: &str, language: &str, timeout_seconds: Option<u64>) -> ExecutionJob {
    let state = ServiceState::new(executor());
    let request = request(code, language, timeout_seconds);
    state.submit(ID, String::new(), None, request, at(100)).unwrap().job
}

fn exited(code: i32, stdout: &str, stderr: &str) -> Result<Run, AdapterError> {
    let event = LaunchEvent::Exited {
        code: Some(code),
        stdout: stdout.as_bytes().to_vec(),
        stderr: stderr.as_bytes().to_vec(),
    };
    DockerClient::new(true).unwrap().settle(event, 40).0
}

/// Drives the worker from the pop of the job's entry to the launch of its
/// sandbox; gives the state after the launch and the record as stored.
fn until_launch(job: ExecutionJob) -> (WorkerState, ExecutionJob, syla_execution_service::executor::LaunchPlan) {
    let executor = executor();
    let (state, action) = start();
    assert!(matches!(action, WorkerAction::Pop));
    let popped = WorkerEvent::Popped { entry: Some(format_id(job.id)) };
    let (state, action) = step(state, popped, at(101), &executor);
    match action {
        WorkerAction::Load { key } => assert_eq!(key, job_key(job.id)),
        other => panic!("unexpected action {:?}", other),
    }
    let (state, action) = step(state, WorkerEvent::Loaded { record: Some(job) }, at(102), &executor);
    let stored = match action {
        WorkerAction::Store { key, job } => {
            assert_eq!(key, job_key(job.id));
            assert_eq!(job.status, JobStatus::Running);
            assert_eq!(job.started_at, Some(at(102)));
            job
        }
        other => panic!("unexpected action {:?}", other),
    };
    let (state, action) = step(state, WorkerEvent::Stored, at(103), &executor);
    let plan = match action {
        WorkerAction::Launch { plan } => plan,
        other => panic!("unexpected action {:?}", other),
    };
    (state, stored, plan)
}

/// Drives the worker from the end of the sandbox to the end of the job; gives
/// the record that was written last, if one was written.
fn after_launch(
    state: WorkerState,
    outcome: Result<Run, AdapterError>,
    reread: Option<ExecutionJob>,
) -> Option<ExecutionJob> {
    let executor = executor();
    let (state, action) = step(state, WorkerEvent::Launched { outcome }, at(110), &executor);
    match action {
        WorkerAction::Load { key } => assert_eq!(key, job_key(ID)),
        other => panic!("unexpected action {:?}", other),
    }
    let (state, action) = step(state, WorkerEvent::Loaded { record: reread }, at(111), &executor);
    let (state, written) = match action {
        WorkerAction::Store { key, job } => {
            assert_eq!(key, job_key(ID));
            assert!(matches!(state, WorkerState::Finishing));
            let (state, action) = step(state, WorkerEvent::Stored, at(112), &executor);
            assert!(matches!(action, WorkerAction::Cleanup));
            (state, Some(job))
        }
        WorkerAction::Cleanup => (state, None),
        other => panic!("unexpected action {:?}", other),
    };
    assert!(matches!(state, WorkerState::Cleaning));
    let (state, action) = step(state, WorkerEvent::Cleaned, at(113), &executor);
    assert!(matches!(state, WorkerState::Polling));
    assert!(matches!(action, WorkerAction::Pop));
    written
}

#[test]
fn python_hello_completes() {
    let job = submit("print('hi')", "python", None);
    assert_eq!(job.status, JobStatus::Queued);
    let (state, stored, plan) = until_launch(job);
    assert_eq!(plan.container_name, "execution-550e8400-e29b-41d4-a716-446655440000");
    assert_eq!(plan.source_filename, "main.py");
    assert_eq!(plan.code, "print('hi')");
    assert_eq!(plan.config.image, "python:3.11-slim");
    assert_eq!(plan.config.command, vec!["python".to_string(), "main.py".to_string()]);
    assert_eq!(plan.config.timeout_seconds, None);
    let done = after_launch(state, exited(0, "hi\n", ""), Some(stored)).unwrap();
    assert_eq!(done.status, JobStatus::Completed);
    assert!(done.status.is_terminal());
    let result = done.result.as_ref().unwrap();
    assert_eq!(result.exit_code, 0);
    assert_eq!(result.stdout, "hi\n");
    assert_eq!(result.stderr, "");
    assert_eq!(done.started_at, Some(at(102)));
    assert_eq!(done.completed_at, Some(at(111)));
    assert!(done.is_coherent());
}

#[test]
fn non_zero_exit_fails() {
    let job = submit("import sys; sys.exit(3)", "python", None);
    let (state, stored, _) = until_launch(job);
    let done = after_launch(state, exited(3, "", ""), Some(stored)).unwrap();
    assert_eq!(done.status, JobStatus::Failed);
    assert_eq!(done.result.as_ref().unwrap().exit_code, 3);
}

#[test]
fn endless_loop_times_out() {
    let job = submit("while True: pass", "python", Some(1));
    let (state, stored, plan) = until_launch(job);
    assert_eq!(plan.config.timeout_seconds, Some(1));
    let client = DockerClient::new(true).unwrap();
    assert_eq!(client.deadline_seconds(&plan.config), 1);
    let (outcome, kill) = client.settle(LaunchEvent::DeadlinePassed, 1004);
    assert!(kill);
    assert_eq!(
        client.kill_arguments(&plan.container_name),
        vec!["kill".to_string(), plan.container_name.clone()]
    );
    let done = after_launch(state, outcome, Some(stored)).unwrap();
    assert_eq!(done.status, JobStatus::Timeout);
    let result = done.result.as_ref().unwrap();
    assert!(result.stderr.contains("Execution timed out"));
    assert!(result.duration_ms >= 1000);
    assert_eq!(result.exit_code, -1);
}

#[test]
fn unknown_language_is_accepted_and_fails_in_the_sandbox() {
    let job = submit("+[-].", "brainfuck", None);
    let (state, stored, plan) = until_launch(job);
    assert_eq!(plan.config.image, "ubuntu:22.04");
    assert_eq!(plan.source_filename, "main.txt");
    assert_eq!(plan.config.command, vec!["sh".to_string(), "-c".to_string()]);
    let done = after_launch(state, exited(2, "", "sh: -c: option requires an argument\n"), Some(stored))
        .unwrap();
    assert_eq!(done.status, JobStatus::Failed);
    assert_eq!(done.result.as_ref().unwrap().exit_code, 2);
}

#[test]
fn cancel_before_pickup_is_final() {
    let service = ServiceState::new(executor());
    let job = submit("print('hi')", "python", None);
    let cancelled = match service.cancel_execution(ID, StoreReply::Record { job }, at(101)) {
        Ok(CancelOutcome::Cancelled { job }) => job,
        other => panic!("unexpected outcome {:?}", other),
    };
    assert_eq!(cancelled.status, JobStatus::Cancelled);
    assert!(cancelled.status.is_terminal());
    assert_eq!(cancelled.started_at, None);
    assert_eq!(cancelled.completed_at, Some(at(101)));

    let executor = executor();
    let (state, _) = start();
    let popped = WorkerEvent::Popped { entry: Some(format_id(ID)) };
    let (state, _) = step(state, popped, at(102), &executor);
    let loaded = WorkerEvent::Loaded { record: Some(cancelled) };
    let (state, action) = step(state, loaded, at(103), &executor);
    assert!(matches!(state, WorkerState::Polling));
    assert!(matches!(action, WorkerAction::Pop));
}

#[test]
fn cancel_during_run_suppresses_the_terminal_write() {
    let service = ServiceState::new(executor());
    let job = submit("import time; time.sleep(10)", "python", Some(60));
    let (state, stored, plan) = until_launch(job);
    assert_eq!(plan.config.timeout_seconds, Some(60));
    let cancelled = match service.cancel_execution(ID, StoreReply::Record { job: stored }, at(104)) {
        Ok(CancelOutcome::Cancelled { job }) => job,
        other => panic!("unexpected outcome {:?}", other),
    };
    assert_eq!(cancelled.status, JobStatus::Cancelled);
    assert_eq!(cancelled.started_at, Some(at(102)));
    assert_eq!(cancelled.completed_at, Some(at(104)));
    let seen = cancelled.copy();
    let written = after_launch(state, exited(0, "", ""), Some(cancelled));
    assert!(written.is_none());
    assert_eq!(seen.status, JobStatus::Cancelled);
    assert!(seen.result.is_none());
}

#[test]
fn adapter_error_is_recorded_as_a_failure() {
    let job = submit("print('hi')", "python", None);
    let (state, stored, _) = until_launch(job);
    let event = LaunchEvent::SpawnFailed { message: "docker: not found".to_string() };
    let (outcome, kill) = DockerClient::new(true).unwrap().settle(event, 3);
    assert!(!kill);
    let done = after_launch(state, outcome, Some(stored)).unwrap();
    assert_eq!(done.status, JobStatus::Failed);
    let result = done.result.as_ref().unwrap();
    assert_eq!(result.exit_code, -1);
    assert_eq!(result.stderr, "Execution error: docker: not found");
    assert_eq!(result.duration_ms, 0);
}

#[test]
fn empty_queue_is_answered_with_a_short_pause() {
    let executor = executor();
    let (state, _) = start();
    let (state, action) = step(state, WorkerEvent::Popped { entry: None }, at(1), &executor);
    assert!(matches!(state, WorkerState::Pausing));
    assert!(matches!(action, WorkerAction::Sleep { millis: 100 }));
    let (state, action) = step(state, WorkerEvent::Woke, at(2), &executor);
    assert!(matches!(state, WorkerState::Polling));
    assert!(matches!(action, WorkerAction::Pop));
}

#[test]
fn failed_poll_is_answered_with_a_long_pause() {
    let executor = executor();
    let (state, _) = start();
    let (state, action) = step(state, WorkerEvent::StoreFailed, at(1), &executor);
    assert!(matches!(state, WorkerState::Pausing));
    assert!(matches!(action, WorkerAction::Sleep { millis: 1000 }));
}

#[test]
fn entry_that_is_no_identifier_is_dropped() {
    let executor = executor();
    let (state, _) = start();
    let popped = WorkerEvent::Popped { entry: Some("garbage".to_string()) };
    let (state, action) = step(state, popped, at(1), &executor);
    assert!(matches!(state, WorkerState::Polling));
    assert!(matches!(action, WorkerAction::Pop));
}

fn fetching() -> WorkerState {
    let (state, _) = start();
    let popped = WorkerEvent::Popped { entry: Some(format_id(ID)) };
    let (state, _) = step(state, popped, at(1), &executor());
    assert!(matches!(state, WorkerState::Fetching { id: ID }));
    state
}

#[test]
fn missing_record_is_skipped() {
    let (state, action) = step(fetching(), WorkerEvent::Loaded { record: None }, at(2), &executor());
    assert!(matches!(state, WorkerState::Polling));
    assert!(matches!(action, WorkerAction::Pop));
}

#[test]
fn failed_read_is_skipped() {
    let (state, action) = step(fetching(), WorkerEvent::StoreFailed, at(2), &executor());
    assert!(matches!(state, WorkerState::Polling));
    assert!(matches!(action, WorkerAction::Pop));
}

#[test]
fn record_that_is_not_waiting_is_skipped() {
    let mut running = submit("x", "python", None);
    running.claim(at(101));
    let mut done = running.copy();
    done.conclude(&exited(0, "", ""), at(102));
    for record in [running, done] {
        let loaded = WorkerEvent::Loaded { record: Some(record) };
        let (state, action) = step(fetching(), loaded, at(103), &executor());
        assert!(matches!(state, WorkerState::Polling));
        assert!(matches!(action, WorkerAction::Pop));
    }
}

#[test]
fn record_of_another_job_or_an_incoherent_one_is_skipped() {
    let mut other = submit("x", "python", None);
    other.id = ID + 1;
    let mut broken = submit("x", "python", None);
    broken.started_at = Some(at(100));
    for record in [other, broken] {
        let loaded = WorkerEvent::Loaded { record: Some(record) };
        let (state, action) = step(fetching(), loaded, at(103), &executor());
        assert!(matches!(state, WorkerState::Polling));
        assert!(matches!(action, WorkerAction::Pop));
    }
}

#[test]
fn failed_claim_write_sends_the_worker_back_to_polling() {
    let job = submit("x", "python", None);
    let executor = executor();
    let (state, _) = step(fetching(), WorkerEvent::Loaded { record: Some(job) }, at(2), &executor);
    assert!(matches!(state, WorkerState::Claiming { .. }));
    let (state, action) = step(state, WorkerEvent::StoreFailed, at(3), &executor);
    assert!(matches!(state, WorkerState::Polling));
    assert!(matches!(action, WorkerAction::Pop));
}

#[test]
fn record_that_vanished_during_the_run_is_not_written() {
    let job = submit("x", "python", None);
    let (state, _, _) = until_launch(job);
    assert!(after_launch(state, exited(0, "", ""), None).is_none());
}

#[test]
fn whatever_goes_wrong_after_a_launch_ends_in_the_cleanup() {
    let executor = executor();
    let unexpected = || WorkerEvent::StoreFailed;

    let (state, _, _) = until_launch(submit("x", "python", None));
    assert!(matches!(state, WorkerState::Executing { .. }));
    let (state, action) = step(state, unexpected(), at(200), &executor);
    assert!(matches!(state, WorkerState::Cleaning));
    assert!(matches!(action, WorkerAction::Cleanup));

    let (state, _, _) = until_launch(submit("x", "python", None));
    let launched = WorkerEvent::Launched { outcome: exited(0, "", "") };
    let (state, _) = step(state, launched, at(200), &executor);
    assert!(matches!(state, WorkerState::Rechecking { .. }));
    let (state, action) = step(state, unexpected(), at(201), &executor);
    assert!(matches!(state, WorkerState::Cleaning));
    assert!(matches!(action, WorkerAction::Cleanup));

    let (state, stored, _) = until_launch(submit("x", "python", None));
    let launched = WorkerEvent::Launched { outcome: exited(0, "", "") };
    let (state, _) = step(state, launched, at(200), &executor);
    let (state, _) = step(state, WorkerEvent::Loaded { record: Some(stored) }, at(201), &executor);
    assert!(matches!(state, WorkerState::Finishing));
    let (state, action) = step(state, unexpected(), at(202), &executor);
    assert!(matches!(state, WorkerState::Cleaning));
    assert!(matches!(action, WorkerAction::Cleanup));
}

#[test]
fn request_arguments_environment_and_resources_reach_the_plan() {
    let mut job = submit("x", "go", None);
    job.request.timeout_seconds = Some(500);
    job.request.args = Some(vec!["-v".to_string()]);
    job.request.environment.insert("K".to_string(), "V".to_string());
    job.request.resources = Some(syla_execution_service::models::ResourceRequirements {
        memory_mib: 128,
        cpu_millis: 500,
        disk_mib: 10,
        network_enabled: true,
    });
    let (_, _, plan) = until_launch(job);
    assert_eq!(
        plan.config.command,
        vec!["go".to_string(), "run".to_string(), "main.go".to_string(), "-v".to_string()]
    );
    assert_eq!(plan.config.environment.len(), 1);
    assert_eq!(plan.config.environment.get("K"), Some("V"));
    assert_eq!(plan.config.memory_limit, Some(128 * 1024 * 1024));
    assert_eq!(plan.config.cpu_limit, Some(500));
    assert_eq!(plan.config.timeout_seconds, Some(300));
    assert!(plan.config.network_enabled);
}
