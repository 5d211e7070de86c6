//! The worker loop as a state machine: from where the worker stands and what
//! just happened to where it stands next and what it does next. Whoever
//! drives the worker performs each action and hands back the event.

use vstd::prelude::*;
use vstd::string::*;
use crate::docker::{outcome_view, AdapterError, OutcomeView};
use crate::executor::{plan_for, DockerExecutor, LaunchPlan, LaunchPlanView};
use crate::ids::{hyphenated, job_key, job_key_of, parse_id, parsed_id};
use crate::lifecycle::{claimed, coherent, concluded, lemma_step_follows_graph, JobEvent};
use crate::models::{optional_job, ExecutionJob, JobStatus, JobView, Timestamp};
use crate::text::optional_text;

verus! {

/// The pause after the queue was found empty, in milliseconds.
pub const IDLE_PAUSE_MS: u64 = 100;

/// The pause after the store failed to answer a poll, in milliseconds.
pub const ERROR_PAUSE_MS: u64 = 1000;

/// Where the worker stands.
#[derive(Debug)]
pub enum WorkerState {
    /// Asked the queue for the next identifier.
    Polling,
    /// Waiting out a pause.
    Pausing,
    /// Asked the store for the record of a popped identifier.
    Fetching { id: u128 },
    /// Wrote the record as running; the write is in flight.
    Claiming { job: ExecutionJob },
    /// The sandbox of the job is running.
    Executing { job: ExecutionJob },
    /// The sandbox ended; the record is being read again before the
    /// terminal write.
    Rechecking { id: u128, outcome: Result<crate::docker::ExecutionResult, AdapterError> },
    /// The terminal write is in flight.
    Finishing,
    /// The temporary directory of the job is being deleted.
    Cleaning,
}

/// What just happened.
#[derive(Debug)]
pub enum WorkerEvent {
    /// The queue answered a pop: an entry, or nothing.
    Popped { entry: Option<String> },
    /// The store answered a read: a record, or nothing under that key.
    Loaded { record: Option<ExecutionJob> },
    /// The store took a write.
    Stored,
    /// The sandbox ended.
    Launched { outcome: Result<crate::docker::ExecutionResult, AdapterError> },
    /// A pause is over.
    Woke,
    /// The temporary directory is gone.
    Cleaned,
    /// The store failed.
    StoreFailed,
}

/// What the worker does next.
#[derive(Debug)]
pub enum WorkerAction {
    /// Pop the head of the queue.
    Pop,
    /// Pause.
    Sleep { millis: u64 },
    /// Read the record under a key.
    Load { key: String },
    /// Write a record under a key.
    Store { key: String, job: ExecutionJob },
    /// Write the code to a fresh temporary directory and run the sandbox.
    Launch { plan: LaunchPlan },
    /// Delete the temporary directory.
    Cleanup,
}

/// A state of the worker as contracts speak of it.
pub enum WorkerStateView {
    Polling,
    Pausing,
    Fetching { id: u128 },
    Claiming { job: JobView },
    Executing { job: JobView },
    Rechecking { id: u128, outcome: OutcomeView },
    Finishing,
    Cleaning,
}

/// An event as contracts speak of it.
pub enum WorkerEventView {
    Popped { entry: Option<Seq<char>> },
    Loaded { record: Option<JobView> },
    Stored,
    Launched { outcome: OutcomeView },
    Woke,
    Cleaned,
    StoreFailed,
}

/// An action as contracts speak of it.
pub enum WorkerActionView {
    Pop,
    Sleep { millis: u64 },
    Load { key: Seq<char> },
    Store { key: Seq<char>, job: JobView },
    Launch { plan: LaunchPlanView },
    Cleanup,
}

impl View for WorkerState {
    type V = WorkerStateView;

    open spec fn view(&self) -> WorkerStateView {
        match *self {
            WorkerState::Polling => WorkerStateView::Polling,
            WorkerState::Pausing => WorkerStateView::Pausing,
            WorkerState::Fetching { id } => WorkerStateView::Fetching { id },
            WorkerState::Claiming { job } => WorkerStateView::Claiming { job: job@ },
            WorkerState::Executing { job } => WorkerStateView::Executing { job: job@ },
            WorkerState::Rechecking { id, outcome } => WorkerStateView::Rechecking {
                id,
                outcome: outcome_view(outcome),
            },
            WorkerState::Finishing => WorkerStateView::Finishing,
            WorkerState::Cleaning => WorkerStateView::Cleaning,
        }
    }
}

impl View for WorkerEvent {
    type V = WorkerEventView;

    open spec fn view(&self) -> WorkerEventView {
        match *self {
            WorkerEvent::Popped { entry } => WorkerEventView::Popped {
                entry: optional_text(entry),
            },
            WorkerEvent::Loaded { record } => WorkerEventView::Loaded {
                record: optional_job(record),
            },
            WorkerEvent::Stored => WorkerEventView::Stored,
            WorkerEvent::Launched { outcome } => WorkerEventView::Launched {
                outcome: outcome_view(outcome),
            },
            WorkerEvent::Woke => WorkerEventView::Woke,
            WorkerEvent::Cleaned => WorkerEventView::Cleaned,
            WorkerEvent::StoreFailed => WorkerEventView::StoreFailed,
        }
    }
}

impl View for WorkerAction {
    type V = WorkerActionView;

    open spec fn view(&self) -> WorkerActionView {
        match *self {
            WorkerAction::Pop => WorkerActionView::Pop,
            WorkerAction::Sleep { millis } => WorkerActionView::Sleep { millis },
            WorkerAction::Load { key } => WorkerActionView::Load { key: key@ },
            WorkerAction::Store { key, job } => WorkerActionView::Store { key: key@, job: job@ },
            WorkerAction::Launch { plan } => WorkerActionView::Launch { plan: plan@ },
            WorkerAction::Cleanup => WorkerActionView::Cleanup,
        }
    }
}

/// The launch that runs the request of a record.
pub open spec fn plan_of(job: JobView) -> LaunchPlanView {
    plan_for(
        job.id,
        job.request.code,
        job.request.language,
        match job.request.args {
            Some(a) => a,
            None => Seq::empty(),
        },
        job.request.environment,
        job.request.timeout_seconds,
        job.request.resources,
    )
}

/// A record that the worker acts on: the one that was asked for, coherent,
/// and in the given status.
pub open spec fn actionable(record: Option<JobView>, id: u128, status: JobStatus) -> bool {
    record matches Some(job) && job.id == id && job.status == status && coherent(job)
}

/// Whether the state holds a temporary directory that is still to be
/// deleted.
pub open spec fn holds_directory(state: WorkerStateView) -> bool {
    state is Executing || state is Rechecking || state is Finishing
}

/// The worker's next state and action.
///
/// - An empty queue is answered with a short pause, a failed poll with a long
///   one; after either the worker polls again.
/// - An entry that is no identifier is dropped. For an identifier, the
///   record is read; unless it is there, coherent and waiting, it is left
///   alone. A waiting record is claimed and written back.
/// - Once the claim is written, the sandbox is launched. When it ends, the
///   record is read again, and the terminal state is written only over a
///   record that is still running.
/// - Whatever follows a launch ends in the cleanup of the temporary
///   directory. Whatever else is unexpected sends the worker back to polling.
pub open spec fn step_of(state: WorkerStateView, event: WorkerEventView, now: Timestamp) -> (
    WorkerStateView,
    WorkerActionView,
) {
    match (state, event) {
        (WorkerStateView::Polling, WorkerEventView::Popped { entry: None }) => (
            WorkerStateView::Pausing,
            WorkerActionView::Sleep { millis: IDLE_PAUSE_MS },
        ),
        (WorkerStateView::Polling, WorkerEventView::StoreFailed) => (
            WorkerStateView::Pausing,
            WorkerActionView::Sleep { millis: ERROR_PAUSE_MS },
        ),
        (WorkerStateView::Polling, WorkerEventView::Popped { entry: Some(text) }) => {
            match parsed_id(text) {
                Some(id) => (
                    WorkerStateView::Fetching { id },
                    WorkerActionView::Load { key: job_key_of(id) },
                ),
                None => (WorkerStateView::Polling, WorkerActionView::Pop),
            }
        },
        (WorkerStateView::Fetching { id }, WorkerEventView::Loaded { record }) => {
            if actionable(record, id, JobStatus::Queued) {
                (
                    WorkerStateView::Claiming { job: claimed(record->0, now) },
                    WorkerActionView::Store { key: job_key_of(id), job: claimed(record->0, now) },
                )
            } else {
                (WorkerStateView::Polling, WorkerActionView::Pop)
            }
        },
        (WorkerStateView::Claiming { job }, WorkerEventView::Stored) => (
            WorkerStateView::Executing { job },
            WorkerActionView::Launch { plan: plan_of(job) },
        ),
        (WorkerStateView::Executing { job }, WorkerEventView::Launched { outcome }) => (
            WorkerStateView::Rechecking { id: job.id, outcome },
            WorkerActionView::Load { key: job_key_of(job.id) },
        ),
        (WorkerStateView::Rechecking { id, outcome }, WorkerEventView::Loaded { record }) => {
            if actionable(record, id, JobStatus::Running) {
                (
                    WorkerStateView::Finishing,
                    WorkerActionView::Store {
                        key: job_key_of(id),
                        job: concluded(record->0, outcome, now),
                    },
                )
            } else {
                (WorkerStateView::Cleaning, WorkerActionView::Cleanup)
            }
        },
        (WorkerStateView::Cleaning, WorkerEventView::Cleaned) => (
            WorkerStateView::Polling,
            WorkerActionView::Pop,
        ),
        (WorkerStateView::Pausing, WorkerEventView::Woke) => (
            WorkerStateView::Polling,
            WorkerActionView::Pop,
        ),
        _ => if holds_directory(state) {
            (WorkerStateView::Cleaning, WorkerActionView::Cleanup)
        } else {
            (WorkerStateView::Polling, WorkerActionView::Pop)
        },
    }
}

/// The worker as it starts: polling.
pub fn start() -> (first: (WorkerState, WorkerAction))
    ensures
        first.0@ == WorkerStateView::Polling,
        first.1@ == WorkerActionView::Pop,
{
    (WorkerState::Polling, WorkerAction::Pop)
}

fn recover(after_launch: bool) -> (next: (WorkerState, WorkerAction))
    ensures
        after_launch ==> next.0@ == WorkerStateView::Cleaning && next.1@
            == WorkerActionView::Cleanup,
        !after_launch ==> next.0@ == WorkerStateView::Polling && next.1@ == WorkerActionView::Pop,
{
    if after_launch {
        (WorkerState::Cleaning, WorkerAction::Cleanup)
    } else {
        (WorkerState::Polling, WorkerAction::Pop)
    }
}

fn plan_job(executor: &DockerExecutor, job: &ExecutionJob) -> (plan: LaunchPlan)
    ensures
        plan@ == plan_of(job@),
{
    let none: Vec<String> = Vec::new();
    let args = match &job.request.args {
        Some(a) => a.as_slice(),
        None => none.as_slice(),
    };
    executor.plan(
        job.id,
        job.request.code.as_str(),
        job.request.language.as_str(),
        args,
        &job.request.environment,
        job.request.timeout_seconds,
        job.request.resources,
    )
}

/// Takes one step of the worker. An entry that is the text form of an
/// identifier, as submission queues it, always leads to the read of that
/// job's record.
pub fn step(state: WorkerState, event: WorkerEvent, now: Timestamp, executor: &DockerExecutor) -> (next:
    (WorkerState, WorkerAction))
    ensures
        (next.0@, next.1@) == step_of(state@, event@, now),
        forall|id: u128|
            state@ is Polling && event@ == (WorkerEventView::Popped {
                entry: Some(#[trigger] hyphenated(id)),
            }) ==> next.0@ == (WorkerStateView::Fetching { id }) && next.1@ == (WorkerActionView::Load {
                key: job_key_of(id),
            }),
{
    match state {
        WorkerState::Polling => match event {
            WorkerEvent::Popped { entry: None } => (
                WorkerState::Pausing,
                WorkerAction::Sleep { millis: IDLE_PAUSE_MS },
            ),
            WorkerEvent::StoreFailed => (
                WorkerState::Pausing,
                WorkerAction::Sleep { millis: ERROR_PAUSE_MS },
            ),
            WorkerEvent::Popped { entry: Some(text) } => match parse_id(text.as_str()) {
                Some(id) => (WorkerState::Fetching { id }, WorkerAction::Load { key: job_key(id) }),
                None => (WorkerState::Polling, WorkerAction::Pop),
            },
            _ => recover(false),
        },
        WorkerState::Pausing => match event {
            WorkerEvent::Woke => (WorkerState::Polling, WorkerAction::Pop),
            _ => recover(false),
        },
        WorkerState::Fetching { id } => match event {
            WorkerEvent::Loaded { record: Some(found) } => {
                let mut job = found;
                if job.id == id && job.status == JobStatus::Queued && job.is_coherent() {
                    job.claim(now);
                    let written = job.copy();
                    (
                        WorkerState::Claiming { job },
                        WorkerAction::Store { key: job_key(id), job: written },
                    )
                } else {
                    recover(false)
                }
            },
            _ => recover(false),
        },
        WorkerState::Claiming { job } => match event {
            WorkerEvent::Stored => {
                let plan = plan_job(executor, &job);
                (WorkerState::Executing { job }, WorkerAction::Launch { plan })
            },
            _ => recover(false),
        },
        WorkerState::Executing { job } => match event {
            WorkerEvent::Launched { outcome } => (
                WorkerState::Rechecking { id: job.id, outcome },
                WorkerAction::Load { key: job_key(job.id) },
            ),
            _ => recover(true),
        },
        WorkerState::Rechecking { id, outcome } => match event {
            WorkerEvent::Loaded { record: Some(found) } => {
                let mut job = found;
                if job.id == id && job.status == JobStatus::Running && job.is_coherent() {
                    job.conclude(&outcome, now);
                    (WorkerState::Finishing, WorkerAction::Store { key: job_key(id), job })
                } else {
                    recover(true)
                }
            },
            _ => recover(true),
        },
        WorkerState::Finishing => recover(true),
        WorkerState::Cleaning => recover(false),
    }
}

/// What the worker writes never moves a record backward: every record that
/// a step stores is coherent, was read in that same step, and stands one
/// edge of the status graph after the record that was read. A record read
/// as terminal, a cancelled one among them, is never written over.
pub proof fn lemma_worker_writes_follow_graph(
    state: WorkerStateView,
    event: WorkerEventView,
    now: Timestamp,
)
    ensures
        step_of(state, event, now).1 matches WorkerActionView::Store { key, job } ==> {
            &&& event matches WorkerEventView::Loaded { record: Some(read) }
            &&& coherent(read)
            &&& coherent(job)
            &&& job.id == read.id
            &&& key == job_key_of(read.id)
            &&& read.status.may_become(job.status)
            &&& !read.status.terminal()
        },
{
    match (state, event) {
        (WorkerStateView::Fetching { id }, WorkerEventView::Loaded { record }) => {
            if actionable(record, id, JobStatus::Queued) {
                lemma_step_follows_graph(record->0, JobEvent::Claim { now });
            }
        },
        (WorkerStateView::Rechecking { id, outcome }, WorkerEventView::Loaded { record }) => {
            if actionable(record, id, JobStatus::Running) {
                lemma_step_follows_graph(record->0, JobEvent::Conclude { outcome, now });
            }
        },
        _ => {},
    }
}

/// A sandbox is launched only for a record whose claim the store has taken,
/// and once a sandbox was launched the worker does not poll again before it
/// has asked for the cleanup of the temporary directory.
pub proof fn lemma_launch_and_cleanup(state: WorkerStateView, event: WorkerEventView, now: Timestamp)
    ensures
        step_of(state, event, now).1 is Launch ==> state is Claiming && event is Stored,
        holds_directory(state) ==> holds_directory(step_of(state, event, now).0) || step_of(
            state,
            event,
            now,
        ).1 is Cleanup,
        step_of(state, event, now).1 is Pop ==> !holds_directory(state),
{
}

/// A waiting job is driven to a terminal state: from the read of a coherent
/// waiting record on, if the store takes each write and answers the second
/// read with what was written, then whatever the sandbox ends in, the second
/// write is that record in a terminal status other than cancelled, with its
/// result, and the worker then cleans up and polls again.
pub proof fn lemma_worker_finishes_a_waiting_job(
    job: JobView,
    outcome: OutcomeView,
    read: Timestamp,
    stored: Timestamp,
    ended: Timestamp,
    reread: Timestamp,
    written: Timestamp,
    cleaned: Timestamp,
)
    requires
        coherent(job),
        job.status == JobStatus::Queued,
    ensures
        ({
            let loaded = WorkerEventView::Loaded { record: Some(job) };
            let a = step_of(WorkerStateView::Fetching { id: job.id }, loaded, read);
            let b = step_of(a.0, WorkerEventView::Stored, stored);
            let c = step_of(b.0, WorkerEventView::Launched { outcome }, ended);
            let again = WorkerEventView::Loaded { record: Some(claimed(job, read)) };
            let d = step_of(c.0, again, reread);
            let e = step_of(d.0, WorkerEventView::Stored, written);
            let f = step_of(e.0, WorkerEventView::Cleaned, cleaned);
            &&& a.1 == (WorkerActionView::Store { key: job_key_of(job.id), job: claimed(job, read) })
            &&& b.1 == (WorkerActionView::Launch { plan: plan_of(claimed(job, read)) })
            &&& c.1 == (WorkerActionView::Load { key: job_key_of(job.id) })
            &&& d.1 == (WorkerActionView::Store {
                key: job_key_of(job.id),
                job: concluded(claimed(job, read), outcome, reread),
            })
            &&& concluded(claimed(job, read), outcome, reread).status.terminal()
            &&& concluded(claimed(job, read), outcome, reread).status != JobStatus::Cancelled
            &&& concluded(claimed(job, read), outcome, reread).result is Some
            &&& coherent(concluded(claimed(job, read), outcome, reread))
            &&& e.1 == WorkerActionView::Cleanup
            &&& f == (WorkerStateView::Polling, WorkerActionView::Pop)
        }),
{
    lemma_step_follows_graph(job, JobEvent::Claim { now: read });
    lemma_step_follows_graph(claimed(job, read), JobEvent::Conclude { outcome, now: reread });
}

/// A cancel that reaches the store before the worker's second read wins:
/// whatever the sandbox ended in, the worker that reads the record as
/// cancelled writes nothing and goes on to clean up.
pub proof fn lemma_cancel_suppresses_the_terminal_write(
    id: u128,
    outcome: OutcomeView,
    record: JobView,
    now: Timestamp,
)
    requires
        record.status == JobStatus::Cancelled,
    ensures
        step_of(
            WorkerStateView::Rechecking { id, outcome },
            WorkerEventView::Loaded { record: Some(record) },
            now,
        ) == (WorkerStateView::Cleaning, WorkerActionView::Cleanup),
{
}

} // verus!
