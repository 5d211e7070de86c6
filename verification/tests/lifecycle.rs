use syla_execution_service::docker::{AdapterError, ExecutionResult as Run};
use syla_execution_service::lifecycle::verdict_for;
use syla_execution_service::models::{
    CreateExecutionRequest, Environment, ExecutionJob, ExecutionResult, JobStatus, Timestamp,
};
use syla_execution_service::text::STREAM_LIMIT;

fn at(seconds: i64) -> Timestamp {
    Timestamp { seconds, nanos: 0 }
}

fn request() -> CreateExecutionRequest {
    CreateExecutionRequest {
        code: "print('hi')".to_string(),
        language: "python".to_string(),
        timeout_seconds: None,
        args: None,
        environment: Environment::new(),
        resources: None,
    }
}

fn queued() -> ExecutionJob {
    ExecutionJob::submitted(7, "alice".to_string(), None, request(), at(100))
}

fn ran(exit_code: i32, timed_out: bool) -> Result<Run, AdapterError> {
    Ok(Run {
        exit_code,
        stdout: "out".to_string(),
        stderr: "err".to_string(),
        duration_ms: 12,
        timed_out,
    })
}

fn rank(status: JobStatus) -> u8 {
    match status {
        JobStatus::Queued => 0,
        JobStatus::Running => 1,
        _ => 2,
    }
}

#[test]
fn statuses_know_whether_they_are_terminal() {
    assert!(!JobStatus::Queued.is_terminal());
    assert!(!JobStatus::Running.is_terminal());
    assert!(JobStatus::Completed.is_terminal());
    assert!(JobStatus::Failed.is_terminal());
    assert!(JobStatus::Timeout.is_terminal());
    assert!(JobStatus::Cancelled.is_terminal());
}

#[test]
fn status_graph_has_exactly_its_edges() {
    let all = [
        JobStatus::Queued,
        JobStatus::Running,
        JobStatus::Completed,
        JobStatus::Failed,
        JobStatus::Timeout,
        JobStatus::Cancelled,
    ];
    for from in all {
        for to in all {
            let expected = match (from, to) {
                (JobStatus::Queued, JobStatus::Running) => true,
                (JobStatus::Queued, JobStatus::Cancelled) => true,
                (JobStatus::Running, JobStatus::Completed) => true,
                (JobStatus::Running, JobStatus::Failed) => true,
                (JobStatus::Running, JobStatus::Timeout) => true,
                (JobStatus::Running, JobStatus::Cancelled) => true,
                _ => false,
            };
            assert_eq!(from.can_become(to), expected, "{:?} -> {:?}", from, to);
        }
    }
}

#[test]
fn statuses_have_their_wire_names() {
    assert_eq!(JobStatus::Queued.wire_name(), "queued");
    assert_eq!(JobStatus::Running.wire_name(), "running");
    assert_eq!(JobStatus::Completed.wire_name(), "completed");
    assert_eq!(JobStatus::Failed.wire_name(), "failed");
    assert_eq!(JobStatus::Timeout.wire_name(), "timeout");
    assert_eq!(JobStatus::Cancelled.wire_name(), "cancelled");
}

#[test]
fn wire_names_read_back_as_their_statuses() {
    let all = [
        JobStatus::Queued,
        JobStatus::Running,
        JobStatus::Completed,
        JobStatus::Failed,
        JobStatus::Timeout,
        JobStatus::Cancelled,
    ];
    for status in all {
        assert_eq!(JobStatus::from_wire_name(status.wire_name()), Some(status));
    }
    for name in ["", "pending", "Queued", "queued ", "canceled", "done"] {
        assert_eq!(JobStatus::from_wire_name(name), None, "{:?}", name);
    }
}

#[test]
fn timestamps_are_ordered_by_seconds_then_nanos() {
    let a = Timestamp { seconds: 5, nanos: 999_999_999 };
    let b = Timestamp { seconds: 6, nanos: 0 };
    let c = Timestamp { seconds: 6, nanos: 1 };
    assert!(a.is_not_after(&b));
    assert!(b.is_not_after(&c));
    assert!(b.is_not_after(&b));
    assert!(!c.is_not_after(&b));
    assert!(!b.is_not_after(&a));
    assert_eq!(a.later_of(b), b);
    assert_eq!(c.later_of(b), c);
    assert_eq!(b.later_of(b), b);
    let before = Timestamp { seconds: -1, nanos: 5 };
    assert!(before.is_not_after(&Timestamp { seconds: 0, nanos: 0 }));
}

#[test]
fn submitted_record_is_waiting_and_bare() {
    let job = ExecutionJob::submitted(
        7,
        "alice".to_string(),
        Some("ws".to_string()),
        request(),
        at(100),
    );
    assert_eq!(job.id, 7);
    assert_eq!(job.owner, "alice");
    assert_eq!(job.workspace.as_deref(), Some("ws"));
    assert_eq!(job.status, JobStatus::Queued);
    assert_eq!(job.request.code, "print('hi')");
    assert_eq!(job.created_at, at(100));
    assert_eq!(job.started_at, None);
    assert_eq!(job.completed_at, None);
    assert!(job.result.is_none());
    assert!(job.is_coherent());
}

#[test]
fn new_record_gets_a_fresh_identifier_and_the_current_time() {
    let before = chrono::Utc::now().timestamp();
    let a = ExecutionJob::new(request());
    let b = ExecutionJob::new(request());
    let after = chrono::Utc::now().timestamp();
    assert_ne!(a.id, b.id);
    assert_eq!(uuid::Uuid::from_u128(a.id).get_version_num(), 4);
    assert!(before <= a.created_at.seconds && a.created_at.seconds <= after);
    assert!(a.created_at.is_not_after(&b.created_at));
    assert!(a.created_at.nanos < 2_000_000_000);
    assert_eq!(a.status, JobStatus::Queued);
    assert_eq!(a.owner, "");
    assert!(a.workspace.is_none());
    assert!(a.started_at.is_none() && a.completed_at.is_none() && a.result.is_none());
    assert!(a.is_coherent());
}

#[test]
fn claim_starts_a_waiting_record() {
    let mut job = queued();
    assert!(job.claim(at(105)));
    assert_eq!(job.status, JobStatus::Running);
    assert_eq!(job.started_at, Some(at(105)));
    assert_eq!(job.completed_at, None);
    assert!(job.result.is_none());
    assert!(job.is_coherent());
}

#[test]
fn claim_leaves_any_other_record_alone() {
    let mut job = queued();
    job.claim(at(105));
    assert!(!job.claim(at(200)));
    assert_eq!(job.started_at, Some(at(105)));
    job.conclude(&ran(0, false), at(110));
    assert!(!job.claim(at(300)));
    assert_eq!(job.status, JobStatus::Completed);
    assert_eq!(job.started_at, Some(at(105)));

    let mut gone = queued();
    gone.cancel(at(101));
    assert!(!gone.claim(at(102)));
    assert_eq!(gone.status, JobStatus::Cancelled);
    assert_eq!(gone.started_at, None);
}

#[test]
fn conclude_with_exit_zero_completes() {
    let mut job = queued();
    job.claim(at(105));
    assert!(job.conclude(&ran(0, false), at(110)));
    assert_eq!(job.status, JobStatus::Completed);
    assert_eq!(job.completed_at, Some(at(110)));
    let result = job.result.as_ref().unwrap();
    assert_eq!(result.exit_code, 0);
    assert_eq!(result.stdout, "out");
    assert_eq!(result.stderr, "err");
    assert_eq!(result.duration_ms, 12);
    assert!(job.is_coherent());
}

#[test]
fn conclude_with_another_exit_code_fails() {
    let mut job = queued();
    job.claim(at(105));
    assert!(job.conclude(&ran(3, false), at(110)));
    assert_eq!(job.status, JobStatus::Failed);
    assert_eq!(job.result.as_ref().unwrap().exit_code, 3);
    assert!(job.is_coherent());
}

#[test]
fn conclude_with_a_timeout_times_out() {
    let mut job = queued();
    job.claim(at(105));
    assert!(job.conclude(&ran(0, true), at(110)));
    assert_eq!(job.status, JobStatus::Timeout);
    assert!(job.is_coherent());
}

#[test]
fn conclude_with_an_adapter_error_fails_with_its_message() {
    let mut job = queued();
    job.claim(at(105));
    let outcome = Err(AdapterError { message: "cannot connect".to_string() });
    assert!(job.conclude(&outcome, at(110)));
    assert_eq!(job.status, JobStatus::Failed);
    let result = job.result.as_ref().unwrap();
    assert_eq!(result.exit_code, -1);
    assert_eq!(result.stdout, "");
    assert_eq!(result.stderr, "Execution error: cannot connect");
    assert_eq!(result.duration_ms, 0);
    assert_eq!(job.completed_at, Some(at(110)));
    assert!(job.is_coherent());
}

#[test]
fn conclude_leaves_a_record_that_is_not_running_alone() {
    let mut waiting = queued();
    assert!(!waiting.conclude(&ran(0, false), at(110)));
    assert_eq!(waiting.status, JobStatus::Queued);
    assert!(waiting.result.is_none() && waiting.completed_at.is_none());

    let mut cancelled = queued();
    cancelled.claim(at(105));
    cancelled.cancel(at(106));
    assert!(!cancelled.conclude(&ran(0, false), at(110)));
    assert_eq!(cancelled.status, JobStatus::Cancelled);
    assert_eq!(cancelled.completed_at, Some(at(106)));
    assert!(cancelled.result.is_none());

    let mut done = queued();
    done.claim(at(105));
    done.conclude(&ran(3, false), at(110));
    assert!(!done.conclude(&ran(0, false), at(120)));
    assert_eq!(done.status, JobStatus::Failed);
    assert_eq!(done.completed_at, Some(at(110)));
    assert_eq!(done.result.as_ref().unwrap().exit_code, 3);
}

#[test]
fn cancel_ends_a_record_that_is_not_terminal() {
    let mut waiting = queued();
    assert!(waiting.cancel(at(101)));
    assert_eq!(waiting.status, JobStatus::Cancelled);
    assert_eq!(waiting.started_at, None);
    assert_eq!(waiting.completed_at, Some(at(101)));
    assert!(waiting.result.is_none());
    assert!(waiting.is_coherent());

    let mut running = queued();
    running.claim(at(105));
    assert!(running.cancel(at(106)));
    assert_eq!(running.status, JobStatus::Cancelled);
    assert_eq!(running.started_at, Some(at(105)));
    assert_eq!(running.completed_at, Some(at(106)));
    assert!(running.is_coherent());
}

#[test]
fn cancel_of_a_terminal_record_changes_nothing() {
    for outcome in [ran(0, false), ran(1, false), ran(0, true)] {
        let mut job = queued();
        job.claim(at(105));
        job.conclude(&outcome, at(110));
        let status = job.status;
        assert!(!job.cancel(at(200)));
        assert_eq!(job.status, status);
        assert_eq!(job.completed_at, Some(at(110)));
        assert!(job.result.is_some());
    }
    let mut job = queued();
    assert!(job.cancel(at(101)));
    assert!(!job.cancel(at(300)));
    assert_eq!(job.status, JobStatus::Cancelled);
    assert_eq!(job.completed_at, Some(at(101)));
}

#[test]
fn a_clock_that_runs_backward_does_not_reorder_the_timestamps() {
    let mut job = queued();
    job.claim(at(50));
    assert_eq!(job.started_at, Some(at(100)));
    job.conclude(&ran(0, false), at(10));
    assert_eq!(job.completed_at, Some(at(100)));
    assert!(job.is_coherent());

    let mut other = queued();
    other.claim(at(120));
    other.cancel(at(110));
    assert_eq!(other.completed_at, Some(at(120)));
    assert!(other.is_coherent());
}

#[test]
fn concluded_streams_are_within_the_limit() {
    let outcome = Ok(Run {
        exit_code: 0,
        stdout: "o".repeat(3 * STREAM_LIMIT),
        stderr: "\u{20ac}".repeat(STREAM_LIMIT),
        duration_ms: 1,
        timed_out: false,
    });
    let mut job = queued();
    job.claim(at(105));
    job.conclude(&outcome, at(110));
    let result = job.result.as_ref().unwrap();
    assert_eq!(result.stdout.len(), STREAM_LIMIT);
    assert!(result.stderr.len() <= STREAM_LIMIT);
    assert!(result.stdout.ends_with("...<truncated>"));
    assert!(result.stderr.ends_with("...<truncated>"));
    assert!(job.is_coherent());

    let long = Err(AdapterError { message: "m".repeat(2 * STREAM_LIMIT) });
    let mut job = queued();
    job.claim(at(105));
    job.conclude(&long, at(110));
    let result = job.result.as_ref().unwrap();
    assert_eq!(result.stderr.len(), STREAM_LIMIT);
    assert!(result.stderr.starts_with("Execution error: mmm"));
    assert!(job.is_coherent());
}

#[test]
fn verdict_for_picks_status_and_result() {
    let (status, result) = verdict_for(&ran(0, false));
    assert_eq!(status, JobStatus::Completed);
    assert_eq!(result.exit_code, 0);
    let (status, result) = verdict_for(&ran(-1, false));
    assert_eq!(status, JobStatus::Failed);
    assert_eq!(result.exit_code, -1);
    let (status, result) = verdict_for(&ran(-1, true));
    assert_eq!(status, JobStatus::Timeout);
    assert_eq!(result.stdout, "out");
    let (status, result) = verdict_for(&Err(AdapterError { message: String::new() }));
    assert_eq!(status, JobStatus::Failed);
    assert_eq!(result.stderr, "Execution error: ");
}

#[test]
fn incoherent_records_are_recognized() {
    let mut job = queued();
    job.started_at = Some(at(101));
    assert!(!job.is_coherent());

    let mut job = queued();
    job.status = JobStatus::Running;
    assert!(!job.is_coherent());

    let mut job = queued();
    job.status = JobStatus::Completed;
    job.started_at = Some(at(101));
    job.completed_at = Some(at(102));
    assert!(!job.is_coherent());
    job.result = Some(ExecutionResult {
        exit_code: 1,
        stdout: String::new(),
        stderr: String::new(),
        duration_ms: 0,
    });
    assert!(!job.is_coherent());
    job.result.as_mut().unwrap().exit_code = 0;
    assert!(job.is_coherent());
    job.status = JobStatus::Failed;
    assert!(!job.is_coherent());
    job.status = JobStatus::Timeout;
    assert!(job.is_coherent());

    let mut job = queued();
    job.claim(at(105));
    job.started_at = Some(at(99));
    assert!(!job.is_coherent());

    let mut job = queued();
    job.claim(at(105));
    job.conclude(&ran(0, false), at(110));
    job.completed_at = Some(at(104));
    assert!(!job.is_coherent());
    job.completed_at = None;
    assert!(!job.is_coherent());

    let mut job = queued();
    job.completed_at = Some(at(101));
    assert!(!job.is_coherent());

    let mut job = queued();
    job.claim(at(105));
    job.conclude(&ran(0, false), at(110));
    job.result.as_mut().unwrap().stdout = "x".repeat(STREAM_LIMIT + 1);
    assert!(!job.is_coherent());

    let mut job = queued();
    job.cancel(at(101));
    job.result = Some(ExecutionResult {
        exit_code: 0,
        stdout: String::new(),
        stderr: String::new(),
        duration_ms: 0,
    });
    assert!(!job.is_coherent());
}

fn apply(job: &mut ExecutionJob, event: u8, now: Timestamp) {
    match event {
        0 => {
            job.claim(now);
        }
        1 => {
            job.conclude(&ran(0, false), now);
        }
        2 => {
            job.conclude(&ran(2, false), now);
        }
        3 => {
            job.conclude(&ran(0, true), now);
        }
        4 => {
            job.conclude(&Err(AdapterError { message: "down".to_string() }), now);
        }
        _ => {
            job.cancel(now);
        }
    }
}

#[test]
fn status_never_goes_back_over_any_event_sequence() {
    let kinds = 6u32;
    let length = 5u32;
    for code in 0..kinds.pow(length) {
        let mut job = queued();
        let mut ever_running = false;
        let mut digits = code;
        let mut previous = job.status;
        for step in 0..length {
            let event = (digits % kinds) as u8;
            digits /= kinds;
            let terminal_before = previous.is_terminal();
            let completed_before = job.completed_at;
            apply(&mut job, event, at(100 + step as i64));
            assert!(rank(previous) <= rank(job.status));
            assert!(previous == job.status || previous.can_become(job.status));
            if terminal_before {
                assert_eq!(job.status, previous);
                assert_eq!(job.completed_at, completed_before);
            }
            ever_running = ever_running || job.status == JobStatus::Running;
            assert_eq!(job.started_at.is_some(), ever_running);
            assert_eq!(job.completed_at.is_some(), job.status.is_terminal());
            assert!(job.is_coherent());
            previous = job.status;
        }
    }
}

#[test]
fn processing_a_waiting_record_always_ends_terminal() {
    let outcomes = [
        ran(0, false),
        ran(1, false),
        ran(0, true),
        Err(AdapterError { message: "down".to_string() }),
    ];
    for outcome in outcomes {
        let mut job = queued();
        assert!(job.claim(at(101)));
        assert!(job.conclude(&outcome, at(102)));
        assert!(job.status.is_terminal());
        assert_ne!(job.status, JobStatus::Cancelled);
        assert!(job.result.is_some());
    }
}

#[test]
fn copies_hold_the_same_values() {
    let mut job = queued();
    job.claim(at(105));
    job.conclude(&ran(4, false), at(110));
    let copy = job.copy();
    assert_eq!(format!("{:?}", copy), format!("{:?}", job));
}

#[test]
fn environment_keeps_keys_distinct_and_in_order() {
    let mut env = Environment::new();
    assert_eq!(env.len(), 0);
    assert_eq!(env.get("A"), None);
    assert!(env.entry(0).is_none());
    env.insert("A".to_string(), "1".to_string());
    env.insert("B".to_string(), "2".to_string());
    env.insert("".to_string(), "empty key".to_string());
    env.insert("A".to_string(), "3".to_string());
    assert_eq!(env.len(), 3);
    assert_eq!(env.get("A"), Some("3"));
    assert_eq!(env.get("B"), Some("2"));
    assert_eq!(env.get(""), Some("empty key"));
    assert_eq!(env.get("a"), None);
    let listed: Vec<(String, String)> = (0..env.len())
        .map(|i| env.entry(i).unwrap())
        .map(|v| (v.key.clone(), v.value.clone()))
        .collect();
    assert_eq!(
        listed,
        vec![
            ("A".to_string(), "3".to_string()),
            ("B".to_string(), "2".to_string()),
            ("".to_string(), "empty key".to_string()),
        ]
    );
    assert!(env.entry(3).is_none());
    let copy = env.copy();
    assert_eq!(format!("{:?}", copy), format!("{:?}", env));
}
