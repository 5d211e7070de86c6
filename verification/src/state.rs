//! The service state and the surface it offers: submit, look up, cancel.
//! Each operation decides; the reads and writes of the store are made by
//! whoever calls it.

use vstd::prelude::*;
use vstd::string::*;
use vstd::utf8::encode_utf8;
use crate::error::{ServiceError, ServiceErrorView, ValidationError};
use crate::executor::{DockerExecutor, MAX_TIMEOUT_SECONDS};
use crate::ids::{format_id, hyphenated, job_key, job_key_of, new_job_id};
use crate::lifecycle::{cancelled, coherent, fresh};
use crate::models::{CreateExecutionRequest, ExecutionJob, JobStatus, JobView, RequestView, Timestamp};
use crate::text::optional_text;

verus! {

/// The most bytes of code that a submission may carry unless configured
/// otherwise.
pub const DEFAULT_CODE_LIMIT: usize = 1_048_576;

/// The interval at which a synchronous submission looks at its record, in
/// milliseconds.
pub const POLL_INTERVAL_MS: u64 = 50;

/// What the handlers and the worker share.
#[derive(Debug)]
pub struct ServiceState {
    pub docker_executor: DockerExecutor,
    pub code_limit: usize,
}

/// Why a request is turned down, if it is: the language tag is empty, the
/// code is empty or longer than the limit in bytes, or a timeout is named
/// that is not between one second and the cap. The first that applies, in
/// this order, is reported.
pub open spec fn rejection(request: RequestView, code_limit: nat) -> Option<ValidationError> {
    if request.language.len() == 0 {
        Some(ValidationError::EmptyLanguage)
    } else if request.code.len() == 0 {
        Some(ValidationError::EmptyCode)
    } else if encode_utf8(request.code).len() > code_limit {
        Some(ValidationError::CodeTooLarge)
    } else if request.timeout_seconds matches Some(t) && !(1 <= t <= MAX_TIMEOUT_SECONDS) {
        Some(ValidationError::TimeoutOutOfRange)
    } else {
        None
    }
}

/// Checks a request against the rules of submission.
pub fn validate(request: &CreateExecutionRequest, code_limit: usize) -> (checked: Result<
    (),
    ValidationError,
>)
    ensures
        checked == (match rejection(request@, code_limit as nat) {
            Some(e) => Err::<(), ValidationError>(e),
            None => Ok::<(), ValidationError>(()),
        }),
{
    if request.language.as_str().is_empty() {
        return Err(ValidationError::EmptyLanguage);
    }
    if request.code.as_str().is_empty() {
        return Err(ValidationError::EmptyCode);
    }
    if request.code.as_str().as_bytes().len() > code_limit {
        return Err(ValidationError::CodeTooLarge);
    }
    match request.timeout_seconds {
        Some(t) => {
            if t < 1 || t > MAX_TIMEOUT_SECONDS {
                return Err(ValidationError::TimeoutOutOfRange);
            }
        },
        None => {},
    }
    Ok(())
}

/// What an accepted submission asks of the store: first the record is
/// written under its key, and only once that write succeeded the entry is
/// pushed onto the queue.
#[derive(Debug)]
pub struct Submission {
    pub job: ExecutionJob,
    pub record_key: String,
    pub queue_entry: String,
}

/// What the store answered to the read of a record.
#[derive(Debug)]
pub enum StoreReply {
    /// Nothing is stored under the key.
    Missing,
    /// What is stored could not be decoded.
    Unreadable { message: String },
    /// The record that is stored.
    Record { job: ExecutionJob },
    /// The store could not be asked.
    Failed { message: String },
}

/// An answer of the store as contracts speak of it.
pub enum StoreReplyView {
    Missing,
    Unreadable { message: Seq<char> },
    Record { job: JobView },
    Failed { message: Seq<char> },
}

impl View for StoreReply {
    type V = StoreReplyView;

    open spec fn view(&self) -> StoreReplyView {
        match *self {
            StoreReply::Missing => StoreReplyView::Missing,
            StoreReply::Unreadable { message } => StoreReplyView::Unreadable { message: message@ },
            StoreReply::Record { job } => StoreReplyView::Record { job: job@ },
            StoreReply::Failed { message } => StoreReplyView::Failed { message: message@ },
        }
    }
}

/// What is said of a stored record that is not coherent or not the one that
/// was asked for.
pub open spec fn corrupt_record() -> Seq<char> {
    "stored record is not coherent"@
}

/// What a lookup fails with, if it fails.
pub open spec fn lookup_failure(id: u128, reply: StoreReplyView) -> Option<ServiceErrorView> {
    match reply {
        StoreReplyView::Missing => Some(ServiceErrorView::NotFound),
        StoreReplyView::Unreadable { message } => Some(ServiceErrorView::Serialization(message)),
        StoreReplyView::Failed { message } => Some(ServiceErrorView::Redis(message)),
        StoreReplyView::Record { job } => if job.id == id && coherent(job) {
            None
        } else {
            Some(ServiceErrorView::Serialization(corrupt_record()))
        },
    }
}

/// What a cancel came to.
#[derive(Debug)]
pub enum CancelOutcome {
    /// The record was not terminal; it is cancelled now and is to be written
    /// back.
    Cancelled { job: ExecutionJob },
    /// The record was terminal already; nothing is to be written.
    AlreadyTerminal { job: ExecutionJob },
}

/// What a synchronous submission does next.
#[derive(Clone, Copy, Debug, PartialEq, Eq, Structural)]
pub enum PollDecision {
    /// The record is terminal: answer with it.
    Done,
    /// Look again after this many milliseconds.
    Wait { millis: u64 },
    /// The deadline has passed: answer with the record as it stands.
    GiveUp,
}

/// The next move of a synchronous submission that has waited `waited_ms` for
/// a record in `status`, under a deadline of `timeout_seconds`.
pub open spec fn poll_decision(status: JobStatus, waited_ms: u64, timeout_seconds: u64)
    -> PollDecision {
    if status.terminal() {
        PollDecision::Done
    } else if waited_ms >= timeout_seconds * 1000 {
        PollDecision::GiveUp
    } else if timeout_seconds * 1000 - waited_ms < POLL_INTERVAL_MS {
        PollDecision::Wait { millis: (timeout_seconds * 1000 - waited_ms) as u64 }
    } else {
        PollDecision::Wait { millis: POLL_INTERVAL_MS }
    }
}

impl ServiceState {
    /// The state with the standard limit on code.
    pub fn new(docker_executor: DockerExecutor) -> (state: ServiceState)
        ensures
            state.code_limit == DEFAULT_CODE_LIMIT,
            state.docker_executor == docker_executor,
    {
        ServiceState { docker_executor, code_limit: DEFAULT_CODE_LIMIT }
    }

    /// Accepts or rejects a submission under an identifier and a time that
    /// were obtained for it. A rejected request is answered with the rule it
    /// breaks. An accepted one gives the waiting record, the key under which
    /// it is written and the entry that is queued.
    pub fn submit(
        &self,
        id: u128,
        owner: String,
        workspace: Option<String>,
        request: CreateExecutionRequest,
        now: Timestamp,
    ) -> (accepted: Result<Submission, ServiceError>)
        ensures
            match rejection(request@, self.code_limit as nat) {
                Some(e) => accepted matches Err(err) && err@ == ServiceErrorView::Validation(e),
                None => {
                    &&& accepted matches Ok(s)
                    &&& s.job@ == ExecutionJob::initial(
                        id,
                        owner@,
                        optional_text(workspace),
                        request@,
                        now,
                    )
                    &&& s.record_key@ == job_key_of(id)
                    &&& s.queue_entry@ == hyphenated(id)
                },
            },
    {
        match validate(&request, self.code_limit) {
            Err(e) => Err(ServiceError::Validation(e)),
            Ok(()) => {
                let job = ExecutionJob::submitted(id, owner, workspace, request, now);
                Ok(Submission { job, record_key: job_key(id), queue_entry: format_id(id) })
            },
        }
    }

    /// Accepts or rejects a submission without owner or workspace, under a
    /// fresh random identifier and the current time.
    pub fn create_execution(&self, request: CreateExecutionRequest) -> (accepted: Result<
        Submission,
        ServiceError,
    >)
        ensures
            match rejection(request@, self.code_limit as nat) {
                Some(e) => accepted matches Err(err) && err@ == ServiceErrorView::Validation(e),
                None => {
                    &&& accepted matches Ok(s)
                    &&& s.job@ == ExecutionJob::initial(
                        s.job.id,
                        Seq::empty(),
                        None,
                        request@,
                        s.job.created_at,
                    )
                    &&& fresh(s.job@)
                    &&& coherent(s.job@)
                    &&& s.record_key@ == job_key_of(s.job.id)
                    &&& s.queue_entry@ == hyphenated(s.job.id)
                },
            },
    {
        let id = new_job_id();
        let now = crate::clock::utc_now();
        self.submit(id, String::new(), None, request, now)
    }

    /// The key under which the record of a job is stored.
    pub fn record_key(&self, id: u128) -> (key: String)
        ensures
            key@ == job_key_of(id),
    {
        job_key(id)
    }

    /// Reads the store's answer to a lookup: the record, where it is there,
    /// is the one asked for and is coherent; else the failure.
    pub fn get_execution(&self, id: u128, reply: StoreReply) -> (found: Result<
        ExecutionJob,
        ServiceError,
    >)
        ensures
            match lookup_failure(id, reply@) {
                Some(e) => found matches Err(err) && err@ == e,
                None => found matches Ok(job) && reply matches StoreReply::Record { job: stored }
                    && job == stored,
            },
    {
        match reply {
            StoreReply::Missing => Err(ServiceError::NotFound),
            StoreReply::Unreadable { message } => Err(ServiceError::Serialization(message)),
            StoreReply::Failed { message } => Err(ServiceError::Redis(message)),
            StoreReply::Record { job } => {
                if job.id == id && job.is_coherent() {
                    Ok(job)
                } else {
                    Err(
                        ServiceError::Serialization(
                            String::from_str("stored record is not coherent"),
                        ),
                    )
                }
            },
        }
    }

    /// Cancels the job whose record the store answered with. A record that is
    /// terminal already is handed back untouched; any other is cancelled at
    /// `now` and is to be written back. The sandbox is not touched.
    pub fn cancel_execution(&self, id: u128, reply: StoreReply, now: Timestamp) -> (outcome: Result<
        CancelOutcome,
        ServiceError,
    >)
        ensures
            match lookup_failure(id, reply@) {
                Some(e) => outcome matches Err(err) && err@ == e,
                None => {
                    &&& reply matches StoreReply::Record { job: stored }
                    &&& outcome matches Ok(done)
                    &&& if stored.status.terminal() {
                        done matches CancelOutcome::AlreadyTerminal { job } && job == stored
                    } else {
                        &&& done matches CancelOutcome::Cancelled { job }
                        &&& job@ == cancelled(stored@, now)
                        &&& job.status == JobStatus::Cancelled
                        &&& coherent(job@)
                    }
                },
            },
    {
        match self.get_execution(id, reply) {
            Err(e) => Err(e),
            Ok(found) => {
                let mut job = found;
                if job.cancel(now) {
                    Ok(CancelOutcome::Cancelled { job })
                } else {
                    Ok(CancelOutcome::AlreadyTerminal { job })
                }
            },
        }
    }

    /// What a synchronous submission does after it has looked at its record.
    pub fn next_poll(&self, status: JobStatus, waited_ms: u64, timeout_seconds: u64) -> (decision:
        PollDecision)
        ensures
            decision == poll_decision(status, waited_ms, timeout_seconds),
    {
        if status.is_terminal() {
            return PollDecision::Done;
        }
        match timeout_seconds.checked_mul(1000) {
            Some(deadline) => {
                if waited_ms >= deadline {
                    PollDecision::GiveUp
                } else if deadline - waited_ms < POLL_INTERVAL_MS {
                    PollDecision::Wait { millis: deadline - waited_ms }
                } else {
                    PollDecision::Wait { millis: POLL_INTERVAL_MS }
                }
            },
            None => PollDecision::Wait { millis: POLL_INTERVAL_MS },
        }
    }
}

} // verus!
