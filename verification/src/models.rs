//! The job record and the values it is made of.

use vstd::prelude::*;
use vstd::string::*;
use crate::language::Language;
use crate::text::{copy_optional, copy_strings, optional_text, texts};

verus! {

/// A point in time: whole seconds since the Unix epoch and the nanoseconds
/// past that second.
#[derive(Clone, Copy, Debug, PartialEq, Eq, Structural)]
pub struct Timestamp {
    pub seconds: i64,
    pub nanos: u32,
}

impl Timestamp {
    /// `self` is no later than `other`.
    pub open spec fn not_after(self, other: Timestamp) -> bool {
        self.seconds < other.seconds || (self.seconds == other.seconds && self.nanos
            <= other.nanos)
    }

    /// The later of two points in time.
    pub open spec fn later(self, other: Timestamp) -> Timestamp {
        if self.not_after(other) {
            other
        } else {
            self
        }
    }

    /// Whether `self` is no later than `other`.
    pub fn is_not_after(&self, other: &Timestamp) -> (b: bool)
        ensures
            b == self.not_after(*other),
    {
        self.seconds < other.seconds || (self.seconds == other.seconds && self.nanos
            <= other.nanos)
    }

    /// The later of two points in time.
    pub fn later_of(self, other: Timestamp) -> (t: Timestamp)
        ensures
            t == self.later(other),
    {
        if self.is_not_after(&other) {
            other
        } else {
            self
        }
    }
}

/// The order of points in time is total: any two compare, and it is
/// reflexive, antisymmetric and transitive.
pub proof fn lemma_time_is_ordered(a: Timestamp, b: Timestamp, c: Timestamp)
    ensures
        a.not_after(a),
        a.not_after(b) || b.not_after(a),
        a.not_after(b) && b.not_after(a) ==> a == b,
        a.not_after(b) && b.not_after(c) ==> a.not_after(c),
        a.not_after(a.later(b)) && b.not_after(a.later(b)),
{
}

/// Where a job stands. `Queued` is the pending state: submitted, not yet picked
/// up by a worker.
#[derive(Clone, Copy, Debug, PartialEq, Eq, Structural)]
pub enum JobStatus {
    Queued,
    Running,
    Completed,
    Failed,
    Timeout,
    Cancelled,
}

impl JobStatus {
    /// No transition leaves a terminal status.
    pub open spec fn terminal(self) -> bool {
        self != JobStatus::Queued && self != JobStatus::Running
    }

    /// The edges of the status graph.
    pub open spec fn may_become(self, next: JobStatus) -> bool {
        match self {
            JobStatus::Queued => next == JobStatus::Running || next == JobStatus::Cancelled,
            JobStatus::Running => next.terminal(),
            _ => false,
        }
    }

    /// How far along a status is: waiting, running, done.
    pub open spec fn rank(self) -> nat {
        match self {
            JobStatus::Queued => 0,
            JobStatus::Running => 1,
            _ => 2,
        }
    }

    /// The name of a status on the wire.
    pub open spec fn wire(self) -> Seq<char> {
        match self {
            JobStatus::Queued => "queued"@,
            JobStatus::Running => "running"@,
            JobStatus::Completed => "completed"@,
            JobStatus::Failed => "failed"@,
            JobStatus::Timeout => "timeout"@,
            JobStatus::Cancelled => "cancelled"@,
        }
    }

    /// The status that a wire name stands for, if it stands for one.
    pub open spec fn named(name: Seq<char>) -> Option<JobStatus> {
        if name == "queued"@ {
            Some(JobStatus::Queued)
        } else if name == "running"@ {
            Some(JobStatus::Running)
        } else if name == "completed"@ {
            Some(JobStatus::Completed)
        } else if name == "failed"@ {
            Some(JobStatus::Failed)
        } else if name == "timeout"@ {
            Some(JobStatus::Timeout)
        } else if name == "cancelled"@ {
            Some(JobStatus::Cancelled)
        } else {
            None
        }
    }

    /// The wire name of a status stands for that status.
    pub proof fn lemma_wire_name_round_trip(self)
        ensures
            JobStatus::named(self.wire()) == Some(self),
    {
        reveal_strlit("queued");
        reveal_strlit("running");
        reveal_strlit("completed");
        reveal_strlit("failed");
        reveal_strlit("timeout");
        reveal_strlit("cancelled");
        assert("queued"@.len() == 6 && "failed"@.len() == 6 && "queued"@[0] == 'q' && "failed"@[0]
            == 'f');
        assert("running"@.len() == 7 && "timeout"@.len() == 7 && "running"@[0] == 'r'
            && "timeout"@[0] == 't');
        assert("completed"@.len() == 9 && "cancelled"@.len() == 9 && "completed"@[1] == 'o'
            && "cancelled"@[1] == 'a');
    }

    /// Reads a wire name.
    pub fn from_wire_name(name: &str) -> (status: Option<JobStatus>)
        ensures
            status == JobStatus::named(name@),
    {
        if crate::text::str_eq(name, "queued") {
            Some(JobStatus::Queued)
        } else if crate::text::str_eq(name, "running") {
            Some(JobStatus::Running)
        } else if crate::text::str_eq(name, "completed") {
            Some(JobStatus::Completed)
        } else if crate::text::str_eq(name, "failed") {
            Some(JobStatus::Failed)
        } else if crate::text::str_eq(name, "timeout") {
            Some(JobStatus::Timeout)
        } else if crate::text::str_eq(name, "cancelled") {
            Some(JobStatus::Cancelled)
        } else {
            None
        }
    }

    /// Whether no transition leaves this status.
    pub fn is_terminal(&self) -> (b: bool)
        ensures
            b == self.terminal(),
    {
        match self {
            JobStatus::Queued => false,
            JobStatus::Running => false,
            _ => true,
        }
    }

    /// Whether the status graph has an edge from this status to `next`.
    pub fn can_become(&self, next: JobStatus) -> (b: bool)
        ensures
            b == self.may_become(next),
    {
        match self {
            JobStatus::Queued => next == JobStatus::Running || next == JobStatus::Cancelled,
            JobStatus::Running => next.is_terminal(),
            _ => false,
        }
    }

    /// The name of the status on the wire.
    pub fn wire_name(&self) -> (name: &'static str)
        ensures
            name@ == self.wire(),
    {
        match self {
            JobStatus::Queued => "queued",
            JobStatus::Running => "running",
            JobStatus::Completed => "completed",
            JobStatus::Failed => "failed",
            JobStatus::Timeout => "timeout",
            JobStatus::Cancelled => "cancelled",
        }
    }
}

/// The status of an execution as the RPC surface reports it.
#[derive(Clone, Copy, Debug, PartialEq, Eq, Structural)]
pub enum ExecutionStatus {
    Pending,
    Running,
    Completed,
    Failed,
    Timeout,
    Cancelled,
}

impl ExecutionStatus {
    /// The status of a record as the RPC surface names it.
    pub open spec fn of(status: JobStatus) -> ExecutionStatus {
        match status {
            JobStatus::Queued => ExecutionStatus::Pending,
            JobStatus::Running => ExecutionStatus::Running,
            JobStatus::Completed => ExecutionStatus::Completed,
            JobStatus::Failed => ExecutionStatus::Failed,
            JobStatus::Timeout => ExecutionStatus::Timeout,
            JobStatus::Cancelled => ExecutionStatus::Cancelled,
        }
    }
}

/// Caps on what one sandbox may use. CPU is counted in thousandths of a core.
#[derive(Clone, Copy, Debug, PartialEq, Eq, Structural)]
pub struct ResourceRequirements {
    pub memory_mib: u64,
    pub cpu_millis: u64,
    pub disk_mib: u64,
    pub network_enabled: bool,
}

impl ResourceRequirements {
    /// 512 MiB of memory, one core, 100 MiB of disk, no network.
    pub open spec fn standard() -> ResourceRequirements {
        ResourceRequirements {
            memory_mib: 512,
            cpu_millis: 1000,
            disk_mib: 100,
            network_enabled: false,
        }
    }
}

impl Default for ResourceRequirements {
    fn default() -> (r: ResourceRequirements)
        ensures
            r == ResourceRequirements::standard(),
    {
        ResourceRequirements {
            memory_mib: 512,
            cpu_millis: 1000,
            disk_mib: 100,
            network_enabled: false,
        }
    }
}

/// One variable of a sandbox's environment.
#[derive(Debug)]
pub struct EnvVar {
    pub key: String,
    pub value: String,
}

impl View for EnvVar {
    type V = (Seq<char>, Seq<char>);

    open spec fn view(&self) -> (Seq<char>, Seq<char>) {
        (self.key@, self.value@)
    }
}

/// The variables of each entry of a list.
pub open spec fn pairs(list: Seq<EnvVar>) -> Seq<(Seq<char>, Seq<char>)> {
    Seq::new(list.len(), |i: int| list[i]@)
}

/// No key occurs twice.
pub open spec fn distinct_keys(vars: Seq<(Seq<char>, Seq<char>)>) -> bool {
    forall|i: int, j: int| 0 <= i < j < vars.len() ==> vars[i].0 != vars[j].0
}

/// What a client submits.
#[derive(Debug)]
pub struct CreateExecutionRequest {
    pub code: String,
    pub language: String,
    pub timeout_seconds: Option<u64>,
    pub args: Option<Vec<String>>,
    pub environment: Environment,
    pub resources: Option<ResourceRequirements>,
}

/// A request as contracts speak of it: every string by its characters.
pub struct RequestView {
    pub code: Seq<char>,
    pub language: Seq<char>,
    pub timeout_seconds: Option<u64>,
    pub args: Option<Seq<Seq<char>>>,
    pub environment: Seq<(Seq<char>, Seq<char>)>,
    pub resources: Option<ResourceRequirements>,
}

impl View for CreateExecutionRequest {
    type V = RequestView;

    open spec fn view(&self) -> RequestView {
        RequestView {
            code: self.code@,
            language: self.language@,
            timeout_seconds: self.timeout_seconds,
            args: match self.args {
                Some(a) => Some(texts(a@)),
                None => None,
            },
            environment: self.environment@,
            resources: self.resources,
        }
    }
}

/// What a sandbox run left behind.
#[derive(Debug)]
pub struct ExecutionResult {
    pub exit_code: i32,
    pub stdout: String,
    pub stderr: String,
    pub duration_ms: u64,
}

/// A result as contracts speak of it.
pub struct ResultView {
    pub exit_code: i32,
    pub stdout: Seq<char>,
    pub stderr: Seq<char>,
    pub duration_ms: u64,
}

impl View for ExecutionResult {
    type V = ResultView;

    open spec fn view(&self) -> ResultView {
        ResultView {
            exit_code: self.exit_code,
            stdout: self.stdout@,
            stderr: self.stderr@,
            duration_ms: self.duration_ms,
        }
    }
}

/// The characters of an optional result.
pub open spec fn optional_result(result: Option<ExecutionResult>) -> Option<ResultView> {
    match result {
        Some(r) => Some(r@),
        None => None,
    }
}

/// The one persisted record of a job.
#[derive(Debug)]
pub struct ExecutionJob {
    pub id: u128,
    pub owner: String,
    pub workspace: Option<String>,
    pub status: JobStatus,
    pub request: CreateExecutionRequest,
    pub created_at: Timestamp,
    pub started_at: Option<Timestamp>,
    pub completed_at: Option<Timestamp>,
    pub result: Option<ExecutionResult>,
}

/// A record as contracts speak of it.
pub struct JobView {
    pub id: u128,
    pub owner: Seq<char>,
    pub workspace: Option<Seq<char>>,
    pub status: JobStatus,
    pub request: RequestView,
    pub created_at: Timestamp,
    pub started_at: Option<Timestamp>,
    pub completed_at: Option<Timestamp>,
    pub result: Option<ResultView>,
}

impl View for ExecutionJob {
    type V = JobView;

    open spec fn view(&self) -> JobView {
        JobView {
            id: self.id,
            owner: self.owner@,
            workspace: optional_text(self.workspace),
            status: self.status,
            request: self.request@,
            created_at: self.created_at,
            started_at: self.started_at,
            completed_at: self.completed_at,
            result: optional_result(self.result),
        }
    }
}

/// The view of an optional record.
pub open spec fn optional_job(record: Option<ExecutionJob>) -> Option<JobView> {
    match record {
        Some(job) => Some(job@),
        None => None,
    }
}

impl EnvVar {
    /// A variable with the same key and value.
    pub fn copy(&self) -> (c: EnvVar)
        ensures
            c@ == self@,
    {
        EnvVar { key: self.key.clone(), value: self.value.clone() }
    }
}

/// The variables after `key` was set to `value`: a key that is there keeps
/// its place and gets the value, a new key goes to the end.
pub open spec fn inserted(vars: Seq<(Seq<char>, Seq<char>)>, key: Seq<char>, value: Seq<char>) -> Seq<
    (Seq<char>, Seq<char>),
> {
    if exists|i: int| 0 <= i < vars.len() && vars[i].0 == key {
        vars.update(choose|i: int| 0 <= i < vars.len() && vars[i].0 == key, (key, value))
    } else {
        vars.push((key, value))
    }
}

/// The value that the variables give to `key`, if they give one.
pub open spec fn looked_up(vars: Seq<(Seq<char>, Seq<char>)>, key: Seq<char>) -> Option<Seq<char>> {
    if exists|i: int| 0 <= i < vars.len() && vars[i].0 == key {
        Some(vars[choose|i: int| 0 <= i < vars.len() && vars[i].0 == key].1)
    } else {
        None
    }
}

/// Among distinct keys, a key stands at one position only.
pub proof fn lemma_position_is_unique(vars: Seq<(Seq<char>, Seq<char>)>, key: Seq<char>, at: int)
    requires
        distinct_keys(vars),
        0 <= at < vars.len(),
        vars[at].0 == key,
    ensures
        (choose|i: int| 0 <= i < vars.len() && vars[i].0 == key) == at,
        looked_up(vars, key) == Some(vars[at].1),
        inserted(vars, key, vars[at].1) == vars,
{
    let found = choose|i: int| 0 <= i < vars.len() && vars[i].0 == key;
    assert(vars[found].0 == vars[at].0);
    assert(inserted(vars, key, vars[at].1) =~= vars);
}

/// Setting a variable keeps the keys distinct, and the variable then has the
/// value it was set to while every other variable keeps its own.
pub proof fn lemma_inserted(
    vars: Seq<(Seq<char>, Seq<char>)>,
    key: Seq<char>,
    value: Seq<char>,
    other: Seq<char>,
)
    requires
        distinct_keys(vars),
    ensures
        distinct_keys(inserted(vars, key, value)),
        looked_up(inserted(vars, key, value), key) == Some(value),
        other != key ==> looked_up(inserted(vars, key, value), other) == looked_up(vars, other),
{
    let after = inserted(vars, key, value);
    let at = if exists|i: int| 0 <= i < vars.len() && vars[i].0 == key {
        choose|i: int| 0 <= i < vars.len() && vars[i].0 == key
    } else {
        vars.len() as int
    };
    assert(after[at] == (key, value));
    assert forall|i: int| 0 <= i < vars.len() && i != at implies after[i] == vars[i] by {}
    assert(distinct_keys(after)) by {
        assert forall|i: int, j: int| 0 <= i < j < after.len() implies after[i].0 != after[j].0 by {
            if i < vars.len() && j < vars.len() {
                assert(vars[i].0 != vars[j].0);
            }
        }
    }
    lemma_position_is_unique(after, key, at);
    if other != key {
        if exists|i: int| 0 <= i < vars.len() && vars[i].0 == other {
            let o = choose|i: int| 0 <= i < vars.len() && vars[i].0 == other;
            lemma_position_is_unique(vars, other, o);
            lemma_position_is_unique(after, other, o);
        } else {
            assert forall|i: int| 0 <= i < after.len() implies after[i].0 != other by {
                if i != at {
                    assert(vars[i].0 != other);
                }
            }
        }
    }
}

/// The variables of a sandbox's environment, in the order in which their
/// keys were first set. No key occurs twice.
#[derive(Debug)]
pub struct Environment {
    entries: Vec<EnvVar>,
}

impl View for Environment {
    type V = Seq<(Seq<char>, Seq<char>)>;

    closed spec fn view(&self) -> Seq<(Seq<char>, Seq<char>)> {
        pairs(self.entries@)
    }
}

impl Environment {
    #[verifier::type_invariant]
    spec fn keys_are_distinct(self) -> bool {
        distinct_keys(pairs(self.entries@))
    }

    /// The environment without variables.
    pub fn new() -> (env: Environment)
        ensures
            env@ == Seq::<(Seq<char>, Seq<char>)>::empty(),
    {
        let entries: Vec<EnvVar> = Vec::new();
        Environment { entries }
    }

    /// The number of variables. No two of them share a key.
    pub fn len(&self) -> (n: usize)
        ensures
            n == self@.len(),
            distinct_keys(self@),
    {
        proof {
            use_type_invariant(self);
        }
        self.entries.len()
    }

    /// The variable at a position, if the position is within the
    /// environment.
    pub fn entry(&self, index: usize) -> (var: Option<&EnvVar>)
        ensures
            index < self@.len() ==> (var matches Some(v) && v@ == self@[index as int]),
            index >= self@.len() ==> var is None,
    {
        if index < self.entries.len() {
            Some(&self.entries[index])
        } else {
            None
        }
    }

    /// The value of a variable, if it is set.
    pub fn get(&self, key: &str) -> (value: Option<&str>)
        ensures
            match value {
                Some(v) => looked_up(self@, key@) == Some(v@),
                None => looked_up(self@, key@) is None,
            },
    {
        proof {
            use_type_invariant(self);
        }
        let mut i: usize = 0;
        while i < self.entries.len()
            invariant
                i <= self.entries.len(),
                distinct_keys(pairs(self.entries@)),
                forall|k: int| 0 <= k < i ==> pairs(self.entries@)[k].0 != key@,
            decreases self.entries.len() - i,
        {
            if crate::text::str_eq(self.entries[i].key.as_str(), key) {
                proof {
                    lemma_position_is_unique(pairs(self.entries@), key@, i as int);
                }
                return Some(self.entries[i].value.as_str());
            }
            i += 1;
        }
        None
    }

    /// Sets a variable: a key that is there keeps its place and gets the
    /// value, a new key goes to the end.
    pub fn insert(&mut self, key: String, value: String)
        ensures
            final(self)@ == inserted(old(self)@, key@, value@),
    {
        proof {
            use_type_invariant(&*self);
        }
        let ghost before = pairs(self.entries@);
        let mut entries: Vec<EnvVar> = Vec::new();
        std::mem::swap(&mut self.entries, &mut entries);
        let mut i: usize = 0;
        while i < entries.len()
            invariant
                i <= entries.len(),
                before == pairs(entries@),
                distinct_keys(before),
                forall|k: int| 0 <= k < i ==> before[k].0 != key@,
            ensures
                i < entries.len() ==> before[i as int].0 == key@,
            decreases entries.len() - i,
        {
            if crate::text::str_eq(entries[i].key.as_str(), key.as_str()) {
                break ;
            }
            i += 1;
        }
        proof {
            lemma_inserted(before, key@, value@, key@);
            if i < entries.len() {
                lemma_position_is_unique(before, key@, i as int);
            }
        }
        if i < entries.len() {
            entries.set(i, EnvVar { key, value });
        } else {
            entries.push(EnvVar { key, value });
        }
        assert(pairs(entries@) =~= inserted(before, key@, value@));
        self.entries = entries;
    }

    /// An environment with the same variables in the same order.
    pub fn copy(&self) -> (c: Environment)
        ensures
            c@ == self@,
    {
        proof {
            use_type_invariant(self);
        }
        let mut entries: Vec<EnvVar> = Vec::new();
        let mut i: usize = 0;
        while i < self.entries.len()
            invariant
                i <= self.entries.len(),
                entries@.len() == i,
                forall|k: int| 0 <= k < i ==> entries@[k]@ == self.entries@[k]@,
            decreases self.entries.len() - i,
        {
            entries.push(self.entries[i].copy());
            i += 1;
        }
        assert(pairs(entries@) =~= pairs(self.entries@));
        Environment { entries }
    }
}

impl CreateExecutionRequest {
    /// A request with the same contents.
    pub fn copy(&self) -> (c: CreateExecutionRequest)
        ensures
            c@ == self@,
    {
        CreateExecutionRequest {
            code: self.code.clone(),
            language: self.language.clone(),
            timeout_seconds: self.timeout_seconds,
            args: match &self.args {
                Some(a) => Some(copy_strings(a.as_slice())),
                None => None,
            },
            environment: self.environment.copy(),
            resources: self.resources,
        }
    }
}

impl ExecutionResult {
    /// A result with the same contents.
    pub fn copy(&self) -> (c: ExecutionResult)
        ensures
            c@ == self@,
    {
        ExecutionResult {
            exit_code: self.exit_code,
            stdout: self.stdout.clone(),
            stderr: self.stderr.clone(),
            duration_ms: self.duration_ms,
        }
    }
}

impl ExecutionJob {
    /// The record of a submission that was just accepted: waiting, with no
    /// start time, completion time or result.
    pub open spec fn initial(
        id: u128,
        owner: Seq<char>,
        workspace: Option<Seq<char>>,
        request: RequestView,
        now: Timestamp,
    ) -> JobView {
        JobView {
            id,
            owner,
            workspace,
            status: JobStatus::Queued,
            request,
            created_at: now,
            started_at: None,
            completed_at: None,
            result: None,
        }
    }

    /// Builds the record of a submission from the identifier that was
    /// allocated for it and the time at which it was accepted.
    pub fn submitted(
        id: u128,
        owner: String,
        workspace: Option<String>,
        request: CreateExecutionRequest,
        now: Timestamp,
    ) -> (job: ExecutionJob)
        ensures
            job@ == ExecutionJob::initial(id, owner@, optional_text(workspace), request@, now),
            crate::lifecycle::fresh(job@),
            crate::lifecycle::coherent(job@),
    {
        ExecutionJob {
            id,
            owner,
            workspace,
            status: JobStatus::Queued,
            request,
            created_at: now,
            started_at: None,
            completed_at: None,
            result: None,
        }
    }

    /// The record of a submission without owner or workspace, under a fresh
    /// random identifier and created at the current time.
    pub fn new(request: CreateExecutionRequest) -> (job: ExecutionJob)
        ensures
            job@ == ExecutionJob::initial(
                job.id,
                Seq::empty(),
                None,
                request@,
                job.created_at,
            ),
            crate::lifecycle::fresh(job@),
            crate::lifecycle::coherent(job@),
    {
        let id = crate::ids::new_job_id();
        let now = crate::clock::utc_now();
        ExecutionJob::submitted(id, String::new(), None, request, now)
    }

    /// A record with the same contents.
    pub fn copy(&self) -> (c: ExecutionJob)
        ensures
            c@ == self@,
    {
        ExecutionJob {
            id: self.id,
            owner: self.owner.clone(),
            workspace: copy_optional(&self.workspace),
            status: self.status,
            request: self.request.copy(),
            created_at: self.created_at,
            started_at: self.started_at,
            completed_at: self.completed_at,
            result: match &self.result {
                Some(r) => Some(r.copy()),
                None => None,
            },
        }
    }
}

/// Why a run counts as failed, as the RPC surface words it.
#[derive(Debug)]
pub struct ExecutionFailure {
    pub code: String,
    pub message: String,
    pub details: String,
}

/// The result of a run as the RPC surface shows it.
#[derive(Debug)]
pub struct ExecutionReport {
    pub exit_code: i32,
    pub stdout: String,
    pub stderr: String,
    pub error: Option<ExecutionFailure>,
}

/// A job as the RPC surface shows it: flat, with every default filled in and
/// times in whole seconds.
#[derive(Debug)]
pub struct Execution {
    pub id: String,
    pub user_id: String,
    pub workspace_id: String,
    pub code: String,
    pub language: Language,
    pub args: Vec<String>,
    pub environment: Environment,
    pub resources: ResourceRequirements,
    pub timeout_seconds: u64,
    pub status: ExecutionStatus,
    pub result: Option<ExecutionReport>,
    pub created_at: i64,
    pub started_at: Option<i64>,
    pub completed_at: Option<i64>,
}

/// A failure of the RPC surface as contracts speak of it.
pub struct FailureView {
    pub code: Seq<char>,
    pub message: Seq<char>,
    pub details: Seq<char>,
}

/// A report of the RPC surface as contracts speak of it.
pub struct ReportView {
    pub exit_code: i32,
    pub stdout: Seq<char>,
    pub stderr: Seq<char>,
    pub error: Option<FailureView>,
}

/// An execution of the RPC surface as contracts speak of it.
pub struct ExecutionView {
    pub id: Seq<char>,
    pub user_id: Seq<char>,
    pub workspace_id: Seq<char>,
    pub code: Seq<char>,
    pub language: Language,
    pub args: Seq<Seq<char>>,
    pub environment: Seq<(Seq<char>, Seq<char>)>,
    pub resources: ResourceRequirements,
    pub timeout_seconds: u64,
    pub status: ExecutionStatus,
    pub result: Option<ReportView>,
    pub created_at: i64,
    pub started_at: Option<i64>,
    pub completed_at: Option<i64>,
}

impl View for ExecutionFailure {
    type V = FailureView;

    open spec fn view(&self) -> FailureView {
        FailureView { code: self.code@, message: self.message@, details: self.details@ }
    }
}

impl View for ExecutionReport {
    type V = ReportView;

    open spec fn view(&self) -> ReportView {
        ReportView {
            exit_code: self.exit_code,
            stdout: self.stdout@,
            stderr: self.stderr@,
            error: match self.error {
                Some(e) => Some(e@),
                None => None,
            },
        }
    }
}

impl View for Execution {
    type V = ExecutionView;

    open spec fn view(&self) -> ExecutionView {
        ExecutionView {
            id: self.id@,
            user_id: self.user_id@,
            workspace_id: self.workspace_id@,
            code: self.code@,
            language: self.language,
            args: texts(self.args@),
            environment: self.environment@,
            resources: self.resources,
            timeout_seconds: self.timeout_seconds,
            status: self.status,
            result: match self.result {
                Some(r) => Some(r@),
                None => None,
            },
            created_at: self.created_at,
            started_at: self.started_at,
            completed_at: self.completed_at,
        }
    }
}

} // verus!
