//! The calls of the RPC surface: each reads plain values and answers with
//! plain values; turning them into messages is left to the transport.

use vstd::prelude::*;
use vstd::string::*;
use crate::error::{ServiceError, ServiceErrorView};
use crate::executor::{effective_timeout, resources_or_standard, DockerExecutor, MAX_TIMEOUT_SECONDS};
use crate::grpc::{IntoStatus, Status, StatusCode, StatusView};
use crate::ids::{format_id, hyphenated, job_key_of, new_job_id, parse_id, parsed_id};
use crate::language::{language_of, Language};
use crate::lifecycle::{cancelled, coherent};
use crate::models::{
    CreateExecutionRequest, Environment, Execution, ExecutionFailure,
    ExecutionJob, ExecutionReport, ExecutionStatus, ExecutionView, FailureView, JobStatus,
    JobView, ReportView, RequestView, ResourceRequirements, ResultView, Timestamp,
};
use crate::queue::RedisQueue;
use crate::state::{
    lookup_failure, rejection, CancelOutcome, ServiceState, StoreReply, StoreReplyView, Submission,
};
use crate::text::{copy_strings, joined, signed_decimal, signed_digits, str_eq, texts};

verus! {

/// The RPC service.
#[derive(Debug)]
pub struct ExecutionServiceImpl {
    queue: RedisQueue,
    executor: DockerExecutor,
}

/// The code submitted over the RPC surface, with how to run it.
#[derive(Debug)]
pub struct ExecutionRequest {
    pub code: String,
    pub language: Language,
    pub args: Vec<String>,
    pub environment: Environment,
    pub resources: Option<ResourceRequirements>,
    pub timeout_seconds: Option<i64>,
}

/// Who submits.
#[derive(Debug)]
pub struct RequestContext {
    pub user_id: String,
    pub workspace_id: String,
}

#[derive(Debug)]
pub struct SubmitExecutionRequest {
    pub request: Option<ExecutionRequest>,
    pub context: Option<RequestContext>,
    pub run_async: bool,
}

#[derive(Debug)]
pub struct SubmitExecutionResponse {
    pub execution_id: String,
    pub status: ExecutionStatus,
    pub result: Option<ExecutionReport>,
}

#[derive(Debug)]
pub struct CancelExecutionResponse {
    pub success: bool,
    pub final_status: ExecutionStatus,
}

#[derive(Debug)]
pub struct HealthCheckResponse {
    pub healthy: bool,
    pub message: String,
    pub version: String,
    pub uptime_seconds: i64,
}

/// Which executions a listing shows, and which page of them.
#[derive(Debug)]
pub struct ListExecutionsRequest {
    pub user_id: String,
    pub workspace_id: String,
    pub page_size: i32,
    pub page_number: i32,
}

/// One page of a listing.
#[derive(Debug)]
pub struct ListExecutionsResponse {
    pub executions: Vec<Execution>,
    pub total: usize,
    pub size: usize,
    pub number: usize,
    pub total_pages: usize,
}

/// How the RPC surface answers a failure: a missing record is not found, a
/// rejected submission is an invalid argument, and everything else is
/// internal; a failure of the store does not show its message.
pub open spec fn status_of(error: ServiceErrorView) -> StatusView {
    match error {
        ServiceErrorView::NotFound => StatusView {
            code: StatusCode::NotFound,
            message: "Execution not found"@,
        },
        ServiceErrorView::Validation(e) => StatusView {
            code: StatusCode::InvalidArgument,
            message: e.text(),
        },
        ServiceErrorView::Redis(_) => StatusView {
            code: StatusCode::Internal,
            message: "Queue error"@,
        },
        ServiceErrorView::Serialization(m) => StatusView {
            code: StatusCode::Internal,
            message: "Internal error: "@ + m,
        },
        ServiceErrorView::Internal(m) => StatusView {
            code: StatusCode::Internal,
            message: "Internal error: "@ + m,
        },
    }
}

impl IntoStatus for ServiceError {
    open spec fn status(self) -> StatusView {
        status_of(self@)
    }

    fn into_status(self) -> (status: Status) {
        match self {
            ServiceError::NotFound => Status::new(StatusCode::NotFound, "Execution not found"),
            ServiceError::Validation(e) => Status::new(StatusCode::InvalidArgument, e.message()),
            ServiceError::Redis(_) => Status::new(StatusCode::Internal, "Queue error"),
            ServiceError::Serialization(m) => Status {
                code: StatusCode::Internal,
                message: joined("Internal error: ", m.as_str()),
            },
            ServiceError::Internal(m) => Status {
                code: StatusCode::Internal,
                message: joined("Internal error: ", m.as_str()),
            },
        }
    }
}

/// The failure that the RPC surface attaches to a result: none for exit code
/// zero, else the code, a message that names the exit code, and the error
/// stream as details.
pub open spec fn failure_of(exit_code: i32, stderr: Seq<char>) -> Option<FailureView> {
    if exit_code != 0 {
        Some(
            FailureView {
                code: "EXECUTION_FAILED"@,
                message: "Process exited with code "@ + signed_digits(exit_code as int),
                details: stderr,
            },
        )
    } else {
        None
    }
}

/// The result of a record as the RPC surface shows it.
pub open spec fn report_of(result: ResultView) -> ReportView {
    ReportView {
        exit_code: result.exit_code,
        stdout: result.stdout,
        stderr: result.stderr,
        error: failure_of(result.exit_code, result.stderr),
    }
}

/// The seconds of an optional time.
pub open spec fn seconds_of(time: Option<Timestamp>) -> Option<i64> {
    match time {
        Some(t) => Some(t.seconds),
        None => None,
    }
}

/// A record as the RPC surface shows it.
pub open spec fn rendered(job: JobView) -> ExecutionView {
    ExecutionView {
        id: hyphenated(job.id),
        user_id: job.owner,
        workspace_id: match job.workspace {
            Some(w) => w,
            None => Seq::empty(),
        },
        code: job.request.code,
        language: language_of(job.request.language),
        args: match job.request.args {
            Some(a) => a,
            None => Seq::empty(),
        },
        environment: job.request.environment,
        resources: resources_or_standard(job.request.resources),
        timeout_seconds: effective_timeout(job.request.timeout_seconds),
        status: ExecutionStatus::of(job.status),
        result: match job.result {
            Some(r) => Some(report_of(r)),
            None => None,
        },
        created_at: job.created_at.seconds,
        started_at: seconds_of(job.started_at),
        completed_at: seconds_of(job.completed_at),
    }
}

/// Whether a listing under the given filters shows a record: an empty filter
/// admits every record, any other only a record with that very owner or
/// workspace.
pub open spec fn selected(job: JobView, user_id: Seq<char>, workspace_id: Seq<char>) -> bool {
    &&& user_id.len() == 0 || job.owner == user_id
    &&& workspace_id.len() == 0 || job.workspace == Some(workspace_id)
}

/// The filter of a listing, as a predicate.
pub open spec fn selector(user_id: Seq<char>, workspace_id: Seq<char>) -> spec_fn(JobView) -> bool {
    |job: JobView| selected(job, user_id, workspace_id)
}

/// The views of a list of records.
pub open spec fn job_views(records: Seq<ExecutionJob>) -> Seq<JobView> {
    Seq::new(records.len(), |i: int| records[i]@)
}

/// The views of a list of executions.
pub open spec fn execution_views(list: Seq<Execution>) -> Seq<ExecutionView> {
    Seq::new(list.len(), |i: int| list[i]@)
}

/// The size of a page: what was asked for, but at least 10 and at most 100.
pub open spec fn page_size_of(requested: i32) -> int {
    if requested < 10 {
        10
    } else if requested > 100 {
        100
    } else {
        requested as int
    }
}

/// The number of a page: what was asked for, but at least 1.
pub open spec fn page_number_of(requested: i32) -> int {
    if requested < 1 {
        1
    } else {
        requested as int
    }
}

/// How many pages of `size` hold `total` items.
pub open spec fn pages_for(total: int, size: int) -> int {
    if total % size == 0 {
        total / size
    } else {
        total / size + 1
    }
}

/// The smaller of two numbers.
pub open spec fn at_most(a: int, b: int) -> int {
    if a <= b {
        a
    } else {
        b
    }
}

/// The records of the requested page: of those that the filters admit, in
/// the order given, the ones from the start of the page to its end or to the
/// end of the list.
pub open spec fn page_records(records: Seq<JobView>, request: ListExecutionsRequest) -> Seq<JobView> {
    let chosen = records.filter(selector(request.user_id@, request.workspace_id@));
    let size = page_size_of(request.page_size);
    let start = (page_number_of(request.page_number) - 1) * size;
    chosen.subrange(at_most(start, chosen.len() as int), at_most(start + size, chosen.len() as int))
}

/// The request that a submission over the RPC surface asks to run. A
/// negative timeout is read as zero seconds, which no submission may ask
/// for.
pub open spec fn submitted_request(request: ExecutionRequest) -> RequestView {
    RequestView {
        code: request.code@,
        language: request.language.tag(),
        timeout_seconds: match request.timeout_seconds {
            Some(t) => Some(if t < 0 {
                0u64
            } else {
                t as u64
            }),
            None => None,
        },
        args: Some(texts(request.args@)),
        environment: request.environment@,
        resources: request.resources,
    }
}

/// The owner that a submission names, if it names one.
pub open spec fn submitted_owner(context: Option<RequestContext>) -> Seq<char> {
    match context {
        Some(c) => c.user_id@,
        None => Seq::empty(),
    }
}

/// The workspace that a submission names, if it names one.
pub open spec fn submitted_workspace(context: Option<RequestContext>) -> Seq<char> {
    match context {
        Some(c) => c.workspace_id@,
        None => Seq::empty(),
    }
}

/// What a submission over the RPC surface is turned down with, if it is: it
/// carries no request, or its request breaks a rule of submission.
pub open spec fn submit_rejection(request: SubmitExecutionRequest, code_limit: nat) -> Option<
    StatusView,
> {
    match request.request {
        None => Some(
            StatusView {
                code: StatusCode::InvalidArgument,
                message: "Missing execution request"@,
            },
        ),
        Some(r) => match rejection(submitted_request(r), code_limit) {
            Some(e) => Some(StatusView { code: StatusCode::InvalidArgument, message: e.text() }),
            None => None,
        },
    }
}

impl ExecutionServiceImpl {
    /// Accepts or rejects a submission over the RPC surface under an
    /// identifier and a time that were obtained for it. An accepted one gives
    /// what is asked of the store and the answer to the call: the identifier
    /// and the status pending, without a result.
    pub fn submit_execution_as(
        &self,
        state: &ServiceState,
        id: u128,
        now: Timestamp,
        request: SubmitExecutionRequest,
    ) -> (accepted: Result<(Submission, SubmitExecutionResponse), Status>)
        ensures
            match submit_rejection(request, state.code_limit as nat) {
                Some(status) => accepted matches Err(e) && e@ == status,
                None => {
                    &&& accepted matches Ok(pair)
                    &&& pair.0.job@ == ExecutionJob::initial(
                        id,
                        submitted_owner(request.context),
                        Some(submitted_workspace(request.context)),
                        submitted_request(request.request->0),
                        now,
                    )
                    &&& pair.0.record_key@ == job_key_of(id)
                    &&& pair.0.queue_entry@ == hyphenated(id)
                    &&& pair.1.execution_id@ == hyphenated(id)
                    &&& pair.1.status == ExecutionStatus::Pending
                    &&& pair.1.result is None
                },
            },
    {
        let SubmitExecutionRequest { request: asked, context, run_async: _ } = request;
        let body = match asked {
            None => {
                return Err(Status::new(StatusCode::InvalidArgument, "Missing execution request"));
            },
            Some(body) => body,
        };
        let (owner, workspace) = match context {
            Some(c) => (c.user_id, c.workspace_id),
            None => (String::new(), String::new()),
        };
        let timeout_seconds: Option<u64> = match body.timeout_seconds {
            Some(t) => Some(if t < 0 {
                0u64
            } else {
                t as u64
            }),
            None => None,
        };
        let create = CreateExecutionRequest {
            code: body.code,
            language: self.proto_to_language(body.language),
            timeout_seconds,
            args: Some(body.args),
            environment: body.environment,
            resources: body.resources,
        };
        match state.submit(id, owner, Some(workspace), create, now) {
            Err(e) => Err(e.into_status()),
            Ok(submission) => {
                let response = SubmitExecutionResponse {
                    execution_id: format_id(id),
                    status: ExecutionStatus::Pending,
                    result: None,
                };
                Ok((submission, response))
            },
        }
    }

    /// Accepts or rejects a submission over the RPC surface, under a fresh
    /// random identifier and the current time.
    pub fn submit_execution(&self, state: &ServiceState, request: SubmitExecutionRequest) -> (accepted:
        Result<(Submission, SubmitExecutionResponse), Status>)
        ensures
            match submit_rejection(request, state.code_limit as nat) {
                Some(status) => accepted matches Err(e) && e@ == status,
                None => {
                    &&& accepted matches Ok(pair)
                    &&& pair.0.job@ == ExecutionJob::initial(
                        pair.0.job.id,
                        submitted_owner(request.context),
                        Some(submitted_workspace(request.context)),
                        submitted_request(request.request->0),
                        pair.0.job.created_at,
                    )
                    &&& pair.0.record_key@ == job_key_of(pair.0.job.id)
                    &&& pair.0.queue_entry@ == hyphenated(pair.0.job.id)
                    &&& pair.1.execution_id@ == hyphenated(pair.0.job.id)
                    &&& pair.1.status == ExecutionStatus::Pending
                    &&& pair.1.result is None
                },
            },
    {
        let id = new_job_id();
        let now = crate::clock::utc_now();
        self.submit_execution_as(state, id, now, request)
    }

    /// Reads the identifier that a call names. A name that is no identifier
    /// names no execution.
    pub fn find_execution(&self, execution_id: &str) -> (found: Result<u128, Status>)
        ensures
            match parsed_id(execution_id@) {
                Some(id) => found matches Ok(x) && x == id,
                None => found matches Err(e) && e@ == status_of(ServiceErrorView::NotFound),
            },
    {
        match parse_id(execution_id) {
            Some(id) => Ok(id),
            None => Err(ServiceError::NotFound.into_status()),
        }
    }

    /// Answers a lookup with the record that the store holds, shown as the
    /// RPC surface does, or with the failure of the lookup.
    pub fn get_execution(&self, state: &ServiceState, id: u128, reply: StoreReply) -> (found: Result<
        Execution,
        Status,
    >)
        ensures
            match lookup_failure(id, reply@) {
                Some(e) => found matches Err(status) && status@ == status_of(e),
                None => found matches Ok(shown) && reply@ matches StoreReplyView::Record { job }
                    && shown@ == rendered(job),
            },
    {
        match state.get_execution(id, reply) {
            Ok(job) => Ok(self.to_proto_execution(&job)),
            Err(e) => Err(e.into_status()),
        }
    }

    /// Cancels an execution. The answer says whether this call cancelled it
    /// and in which status it now stands; the record comes along exactly
    /// when it was cancelled by this call and is to be written back.
    pub fn cancel_execution(
        &self,
        state: &ServiceState,
        id: u128,
        reply: StoreReply,
        now: Timestamp,
    ) -> (answer: Result<(CancelExecutionResponse, Option<ExecutionJob>), Status>)
        ensures
            match lookup_failure(id, reply@) {
                Some(e) => answer matches Err(status) && status@ == status_of(e),
                None => {
                    &&& reply@ matches StoreReplyView::Record { job: stored }
                    &&& answer matches Ok(pair)
                    &&& pair.0.success == !stored.status.terminal()
                    &&& pair.0.final_status == ExecutionStatus::of(cancelled(stored, now).status)
                    &&& pair.0.success ==> pair.0.final_status == ExecutionStatus::Cancelled
                    &&& pair.1 matches Some(job) ==> job@ == cancelled(stored, now) && coherent(
                        job@,
                    )
                    &&& pair.1 is Some == pair.0.success
                },
            },
    {
        match state.cancel_execution(id, reply, now) {
            Err(e) => Err(e.into_status()),
            Ok(CancelOutcome::Cancelled { job }) => {
                let response = CancelExecutionResponse {
                    success: true,
                    final_status: self.status_to_proto(&job.status),
                };
                Ok((response, Some(job)))
            },
            Ok(CancelOutcome::AlreadyTerminal { job }) => {
                let response = CancelExecutionResponse {
                    success: false,
                    final_status: self.status_to_proto(&job.status),
                };
                Ok((response, None))
            },
        }
    }

    /// The service on top of a queue and an executor.
    pub fn new(queue: RedisQueue, executor: DockerExecutor) -> (service: ExecutionServiceImpl)
        ensures
            service.queue() == queue,
            service.executor() == executor,
    {
        ExecutionServiceImpl { queue, executor }
    }

    pub closed spec fn queue(&self) -> RedisQueue {
        self.queue
    }

    pub closed spec fn executor(&self) -> DockerExecutor {
        self.executor
    }

    /// The language that a tag names.
    pub fn language_to_proto(&self, lang: &str) -> (language: Language)
        ensures
            language == language_of(lang@),
    {
        Language::from_tag(lang)
    }

    /// The tag of a language.
    pub fn proto_to_language(&self, lang: Language) -> (tag: String)
        ensures
            tag@ == lang.tag(),
    {
        String::from_str(lang.tag_name())
    }

    /// The status of a record as the RPC surface names it.
    pub fn status_to_proto(&self, status: &JobStatus) -> (shown: ExecutionStatus)
        ensures
            shown == ExecutionStatus::of(*status),
    {
        match status {
            JobStatus::Queued => ExecutionStatus::Pending,
            JobStatus::Running => ExecutionStatus::Running,
            JobStatus::Completed => ExecutionStatus::Completed,
            JobStatus::Failed => ExecutionStatus::Failed,
            JobStatus::Timeout => ExecutionStatus::Timeout,
            JobStatus::Cancelled => ExecutionStatus::Cancelled,
        }
    }

    /// Shows a record as the RPC surface does.
    pub fn to_proto_execution(&self, job: &ExecutionJob) -> (shown: Execution)
        ensures
            shown@ == rendered(job@),
    {
        let none: Vec<String> = Vec::new();
        assert(texts(none@) =~= Seq::<Seq<char>>::empty());
        let args = match &job.request.args {
            Some(a) => copy_strings(a.as_slice()),
            None => none,
        };
        let resources = match job.request.resources {
            Some(r) => r,
            None => ResourceRequirements::default(),
        };
        let timeout_seconds = match job.request.timeout_seconds {
            Some(t) => if t > MAX_TIMEOUT_SECONDS {
                MAX_TIMEOUT_SECONDS
            } else {
                t
            },
            None => crate::docker::DEFAULT_TIMEOUT_SECONDS,
        };
        let result = match &job.result {
            Some(r) => {
                let error = if r.exit_code != 0 {
                    let code = signed_decimal(r.exit_code);
                    Some(
                        ExecutionFailure {
                            code: String::from_str("EXECUTION_FAILED"),
                            message: joined("Process exited with code ", code.as_str()),
                            details: r.stderr.clone(),
                        },
                    )
                } else {
                    None
                };
                Some(
                    ExecutionReport {
                        exit_code: r.exit_code,
                        stdout: r.stdout.clone(),
                        stderr: r.stderr.clone(),
                        error,
                    },
                )
            },
            None => None,
        };
        Execution {
            id: format_id(job.id),
            user_id: job.owner.clone(),
            workspace_id: match &job.workspace {
                Some(w) => w.clone(),
                None => String::new(),
            },
            code: job.request.code.clone(),
            language: Language::from_tag(job.request.language.as_str()),
            args,
            environment: job.request.environment.copy(),
            resources,
            timeout_seconds,
            status: self.status_to_proto(&job.status),
            result,
            created_at: job.created_at.seconds,
            started_at: match job.started_at {
                Some(t) => Some(t.seconds),
                None => None,
            },
            completed_at: match job.completed_at {
                Some(t) => Some(t.seconds),
                None => None,
            },
        }
    }

    /// Whether a listing under the filters of `request` shows `job`.
    pub fn selects(&self, request: &ListExecutionsRequest, job: &ExecutionJob) -> (shown: bool)
        ensures
            shown == selected(job@, request.user_id@, request.workspace_id@),
    {
        if !request.user_id.as_str().is_empty() && !str_eq(
            job.owner.as_str(),
            request.user_id.as_str(),
        ) {
            return false;
        }
        if !request.workspace_id.as_str().is_empty() {
            match &job.workspace {
                Some(w) => str_eq(w.as_str(), request.workspace_id.as_str()),
                None => false,
            }
        } else {
            true
        }
    }

    /// Lists the executions that the filters admit, one page of them: the
    /// page holds the records of `page_records`, each shown as the RPC
    /// surface does, and tells how many records the filters admit in all and
    /// how many pages that makes.
    pub fn list_executions(&self, request: &ListExecutionsRequest, records: &Vec<ExecutionJob>) -> (page:
        ListExecutionsResponse)
        ensures
            execution_views(page.executions@) == page_records(job_views(records@), *request).map_values(
                |job: JobView| rendered(job),
            ),
            page.total == job_views(records@).filter(
                selector(request.user_id@, request.workspace_id@),
            ).len(),
            page.size == page_size_of(request.page_size),
            page.number == page_number_of(request.page_number),
            page.total_pages == pages_for(page.total as int, page.size as int),
    {
        let ghost views = job_views(records@);
        let ghost pred = selector(request.user_id@, request.workspace_id@);
        let mut picked: Vec<usize> = Vec::new();
        let mut i: usize = 0;
        proof {
            reveal(Seq::filter);
        }
        while i < records.len()
            invariant
                i <= records.len(),
                views == job_views(records@),
                pred == selector(request.user_id@, request.workspace_id@),
                picked@.len() == views.take(i as int).filter(pred).len(),
                picked@.len() <= i,
                forall|k: int|
                    0 <= k < picked@.len() ==> 0 <= #[trigger] picked@[k] < i && views[picked@[k] as int]
                        == views.take(i as int).filter(pred)[k],
            decreases records.len() - i,
        {
            let keep = self.selects(request, &records[i]);
            proof {
                reveal(Seq::filter);
                let next = views.take(i + 1);
                assert(next.drop_last() =~= views.take(i as int));
                views.take(i as int).lemma_filter_len(pred);
            }
            if keep {
                picked.push(i);
            }
            i += 1;
        }
        assert(views.take(records.len() as int) =~= views);
        let ghost chosen = views.filter(pred);
        let total = picked.len();
        let size: usize = if request.page_size < 10 {
            10
        } else if request.page_size > 100 {
            100
        } else {
            request.page_size as usize
        };
        let number: u64 = if request.page_number < 1 {
            1
        } else {
            request.page_number as u64
        };
        assert((number - 1) * size <= 2147483647 * 100) by (nonlinear_arith)
            requires
                1 <= number <= 2147483647,
                10 <= size <= 100,
        ;
        let start_wide: u64 = (number - 1) * (size as u64);
        let end_wide: u64 = start_wide + size as u64;
        let start: usize = if start_wide <= total as u64 {
            start_wide as usize
        } else {
            total
        };
        let end: usize = if end_wide <= total as u64 {
            end_wide as usize
        } else {
            total
        };
        let mut executions: Vec<Execution> = Vec::new();
        let mut k: usize = start;
        while k < end
            invariant
                start <= k <= end <= total,
                total == picked@.len(),
                chosen.len() == total,
                views == job_views(records@),
                executions@.len() == k - start,
                forall|m: int|
                    0 <= m < picked@.len() ==> 0 <= #[trigger] picked@[m] < records.len()
                        && views[picked@[m] as int] == chosen[m],
                forall|m: int|
                    0 <= m < k - start ==> (#[trigger] executions@[m])@ == rendered(
                        chosen[start + m],
                    ),
            decreases end - k,
        {
            let index = picked[k];
            executions.push(self.to_proto_execution(&records[index]));
            k += 1;
        }
        assert(total / size <= total) by (nonlinear_arith)
            requires
                size >= 1,
                total >= 0,
        ;
        assert(total % size != 0 ==> total / size < total) by (nonlinear_arith)
            requires
                size >= 10,
                total >= 0,
        ;
        let total_pages = if total % size == 0 {
            total / size
        } else {
            total / size + 1
        };
        ListExecutionsResponse { executions, total, size, number: number as usize, total_pages }
    }

    /// Streaming of partial output is not offered.
    pub fn stream_execution(&self) -> (status: Status)
        ensures
            status@ == (StatusView {
                code: StatusCode::Unimplemented,
                message: "Streaming not yet implemented"@,
            }),
    {
        Status::new(StatusCode::Unimplemented, "Streaming not yet implemented")
    }

    /// Metrics are not offered.
    pub fn get_execution_metrics(&self) -> (status: Status)
        ensures
            status@ == (StatusView {
                code: StatusCode::Unimplemented,
                message: "Metrics not yet implemented"@,
            }),
    {
        Status::new(StatusCode::Unimplemented, "Metrics not yet implemented")
    }

    /// The service says of itself that it is healthy, names its version, and
    /// does not track how long it has been up.
    pub fn health_check(&self, version: &str) -> (response: HealthCheckResponse)
        ensures
            response.healthy,
            response.message@ == "Execution service is healthy"@,
            response.version@ == version@,
            response.uptime_seconds == 0,
    {
        HealthCheckResponse {
            healthy: true,
            message: String::from_str("Execution service is healthy"),
            version: String::from_str(version),
            uptime_seconds: 0,
        }
    }
}

} // verus!
