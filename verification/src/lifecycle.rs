//! The state machine of one job record: which records are coherent, the three
//! transitions, and what holds of every sequence of them.

use vstd::prelude::*;
use vstd::string::*;
use crate::docker::{outcome_view, AdapterError, OutcomeView};
use crate::models::{ExecutionJob, ExecutionResult, JobStatus, JobView, ResultView, Timestamp};
use crate::text::{clipped, fits, joined, lemma_clipped_fits, truncate_stream};

verus! {

/// What prefixes the message of an adapter error in a result.
pub open spec fn error_prefix() -> Seq<char> {
    "Execution error: "@
}

/// The terminal status that an outcome leads to.
pub open spec fn verdict_status(outcome: OutcomeView) -> JobStatus {
    match outcome {
        OutcomeView::Ran(run) => if run.timed_out {
            JobStatus::Timeout
        } else if run.exit_code == 0 {
            JobStatus::Completed
        } else {
            JobStatus::Failed
        },
        OutcomeView::Unavailable(_) => JobStatus::Failed,
    }
}

/// The result that an outcome leaves in the record.
pub open spec fn verdict_result(outcome: OutcomeView) -> ResultView {
    match outcome {
        OutcomeView::Ran(run) => ResultView {
            exit_code: run.exit_code,
            stdout: clipped(run.stdout),
            stderr: clipped(run.stderr),
            duration_ms: run.duration_ms,
        },
        OutcomeView::Unavailable(message) => ResultView {
            exit_code: -1i32,
            stdout: Seq::empty(),
            stderr: clipped(error_prefix() + message),
            duration_ms: 0,
        },
    }
}

/// The last moment that a record already names.
pub open spec fn latest(job: JobView) -> Timestamp {
    match job.started_at {
        Some(t) => t,
        None => job.created_at,
    }
}

/// A record is coherent when its timestamps and result agree with its status
/// and its timestamps do not run backward.
pub open spec fn coherent(job: JobView) -> bool {
    &&& job.started_at matches Some(s) ==> job.created_at.not_after(s)
    &&& job.completed_at matches Some(c) ==> latest(job).not_after(c)
    &&& job.completed_at is Some <==> job.status.terminal()
    &&& job.result matches Some(r) ==> fits(r.stdout) && fits(r.stderr)
    &&& match job.status {
        JobStatus::Queued => job.started_at is None && job.result is None,
        JobStatus::Running => job.started_at is Some && job.result is None,
        JobStatus::Completed => job.started_at is Some && job.result is Some
            && job.result->0.exit_code == 0,
        JobStatus::Failed => job.started_at is Some && job.result is Some
            && job.result->0.exit_code != 0,
        JobStatus::Timeout => job.started_at is Some && job.result is Some,
        JobStatus::Cancelled => job.result is None,
    }
}

/// The timestamps of a coherent record do not run backward: creation is no
/// later than start, start no later than completion, and creation no later
/// than completion.
pub proof fn lemma_timestamps_are_ordered(job: JobView)
    requires
        coherent(job),
    ensures
        job.started_at matches Some(s) ==> job.created_at.not_after(s),
        job.started_at matches Some(s) ==> (job.completed_at matches Some(c) ==> s.not_after(c)),
        job.completed_at matches Some(c) ==> job.created_at.not_after(c),
{
}

/// A waiting record after a worker claimed it at `now`; any other record as
/// it was.
pub open spec fn claimed(job: JobView, now: Timestamp) -> JobView {
    if job.status == JobStatus::Queued {
        JobView { status: JobStatus::Running, started_at: Some(job.created_at.later(now)), ..job }
    } else {
        job
    }
}

/// A running record after its sandbox ended in `outcome` at `now`; any other
/// record as it was.
pub open spec fn concluded(job: JobView, outcome: OutcomeView, now: Timestamp) -> JobView {
    if job.status == JobStatus::Running {
        JobView {
            status: verdict_status(outcome),
            result: Some(verdict_result(outcome)),
            completed_at: Some(latest(job).later(now)),
            ..job
        }
    } else {
        job
    }
}

/// A record that was not yet terminal after a cancel at `now`; a terminal
/// record as it was.
pub open spec fn cancelled(job: JobView, now: Timestamp) -> JobView {
    if job.status.terminal() {
        job
    } else {
        JobView {
            status: JobStatus::Cancelled,
            completed_at: Some(latest(job).later(now)),
            ..job
        }
    }
}

/// One thing that can happen to a record.
pub enum JobEvent {
    Claim { now: Timestamp },
    Conclude { outcome: OutcomeView, now: Timestamp },
    Cancel { now: Timestamp },
}

/// The record after one event.
pub open spec fn apply(job: JobView, event: JobEvent) -> JobView {
    match event {
        JobEvent::Claim { now } => claimed(job, now),
        JobEvent::Conclude { outcome, now } => concluded(job, outcome, now),
        JobEvent::Cancel { now } => cancelled(job, now),
    }
}

/// The record after a sequence of events, first to last.
pub open spec fn replay(job: JobView, events: Seq<JobEvent>) -> JobView
    decreases events.len(),
{
    if events.len() == 0 {
        job
    } else {
        apply(replay(job, events.drop_last()), events.last())
    }
}

/// One event keeps a coherent record coherent, and either leaves its status
/// or moves it along an edge of the status graph.
pub proof fn lemma_step_follows_graph(job: JobView, event: JobEvent)
    requires
        coherent(job),
    ensures
        coherent(apply(job, event)),
        apply(job, event).status == job.status || job.status.may_become(
            apply(job, event).status,
        ),
        job.status.rank() <= apply(job, event).status.rank(),
        job.status.terminal() ==> apply(job, event) == job,
{
    match event {
        JobEvent::Conclude { outcome, now } => {
            match outcome {
                OutcomeView::Ran(run) => {
                    lemma_clipped_fits(run.stdout);
                    lemma_clipped_fits(run.stderr);
                },
                OutcomeView::Unavailable(message) => {
                    lemma_clipped_fits(error_prefix() + message);
                    lemma_clipped_fits(Seq::<char>::empty());
                },
            }
        },
        _ => {},
    }
}

/// Status never moves backward: over any sequence of events on a coherent
/// record, the status after fewer events is no further along than the status
/// after more, and a record that has become terminal stays as it is.
pub proof fn lemma_status_never_goes_back(job: JobView, events: Seq<JobEvent>, fewer: int)
    requires
        coherent(job),
        0 <= fewer <= events.len(),
    ensures
        coherent(replay(job, events)),
        replay(job, events.take(fewer)).status.rank() <= replay(job, events).status.rank(),
        replay(job, events.take(fewer)).status.terminal() ==> replay(job, events) == replay(
            job,
            events.take(fewer),
        ),
    decreases events.len(),
{
    if fewer == events.len() {
        assert(events.take(fewer) =~= events);
        if events.len() > 0 {
            lemma_status_never_goes_back(job, events.drop_last(), 0);
            lemma_step_follows_graph(replay(job, events.drop_last()), events.last());
        }
    } else {
        let before = events.drop_last();
        lemma_status_never_goes_back(job, before, fewer);
        assert(before.take(fewer) =~= events.take(fewer));
        lemma_step_follows_graph(replay(job, before), events.last());
    }
}

/// Whatever happens to a coherent record, the streams of its result stay
/// within the limit.
pub proof fn lemma_streams_stay_within_limit(job: JobView, events: Seq<JobEvent>)
    requires
        coherent(job),
    ensures
        replay(job, events).result matches Some(r) ==> fits(r.stdout) && fits(r.stderr),
{
    lemma_status_never_goes_back(job, events, 0);
}

/// A record as submission writes it.
pub open spec fn fresh(job: JobView) -> bool {
    &&& job.status == JobStatus::Queued
    &&& job.started_at is None
    &&& job.completed_at is None
    &&& job.result is None
}

/// The record was running after some number of the events.
pub open spec fn ever_ran(job: JobView, events: Seq<JobEvent>) -> bool {
    exists|n: int| 0 <= n <= events.len() && #[trigger] replay(job, events.take(n)).status
        == JobStatus::Running
}

/// Over any sequence of events on a fresh record: the start time is set
/// exactly when the record has been running at some point, and the completion
/// time is set exactly when the record is terminal.
pub proof fn lemma_timestamps_tell_history(job: JobView, events: Seq<JobEvent>)
    requires
        fresh(job),
    ensures
        replay(job, events).started_at is Some <==> ever_ran(job, events),
        replay(job, events).completed_at is Some <==> replay(job, events).status.terminal(),
    decreases events.len(),
{
    lemma_status_never_goes_back(job, events, 0);
    if events.len() == 0 {
        assert forall|n: int| 0 <= n <= events.len() implies events.take(n) == events by {
            assert(events.take(n) =~= events);
        }
    } else {
        let before = events.drop_last();
        lemma_timestamps_tell_history(job, before);
        lemma_status_never_goes_back(job, before, 0);
        assert(events.take(events.len() as int) =~= events);
        assert forall|n: int| 0 <= n <= before.len() implies before.take(n) == events.take(
            n,
        ) by {
            assert(before.take(n) =~= events.take(n));
        }
        if ever_ran(job, before) {
            let n = choose|n: int|
                0 <= n <= before.len() && #[trigger] replay(job, before.take(n)).status
                    == JobStatus::Running;
            assert(replay(job, events.take(n)).status == JobStatus::Running);
        }
        if ever_ran(job, events) && !ever_ran(job, before) {
            let n = choose|n: int|
                0 <= n <= events.len() && #[trigger] replay(job, events.take(n)).status
                    == JobStatus::Running;
            if n < events.len() {
                assert(replay(job, before.take(n)).status == JobStatus::Running);
            }
        }
    }
}

/// Cancelling is idempotent: a second cancel changes nothing, and a cancel of
/// a record that is not terminal leaves it cancelled.
pub proof fn lemma_cancel_is_idempotent(job: JobView, first: Timestamp, second: Timestamp)
    ensures
        cancelled(cancelled(job, first), second) == cancelled(job, first),
        cancelled(job, first).status.terminal(),
        !job.status.terminal() ==> cancelled(job, first).status == JobStatus::Cancelled,
        job.status.terminal() ==> cancelled(job, first) == job,
{
}

/// A waiting record that a worker claims and whose sandbox then ends, in
/// whatever outcome, is terminal and carries a result.
pub proof fn lemma_processing_ends_terminal(
    job: JobView,
    claim: Timestamp,
    outcome: OutcomeView,
    end: Timestamp,
)
    requires
        job.status == JobStatus::Queued,
    ensures
        concluded(claimed(job, claim), outcome, end).status.terminal(),
        concluded(claimed(job, claim), outcome, end).status != JobStatus::Cancelled,
        concluded(claimed(job, claim), outcome, end).result == Some(verdict_result(outcome)),
{
}

/// The terminal status and the result that the record gets for what a launch
/// returned.
pub fn verdict_for(outcome: &Result<crate::docker::ExecutionResult, AdapterError>) -> (verdict: (
    JobStatus,
    ExecutionResult,
))
    ensures
        verdict.0 == verdict_status(outcome_view(*outcome)),
        verdict.1@ == verdict_result(outcome_view(*outcome)),
        verdict.0.terminal() && verdict.0 != JobStatus::Cancelled,
        fits(verdict.1.stdout@) && fits(verdict.1.stderr@),
        verdict.0 == JobStatus::Completed ==> verdict.1.exit_code == 0,
        verdict.0 == JobStatus::Failed ==> verdict.1.exit_code != 0,
{
    match outcome {
        Ok(run) => {
            let status = if run.timed_out {
                JobStatus::Timeout
            } else if run.exit_code == 0 {
                JobStatus::Completed
            } else {
                JobStatus::Failed
            };
            let result = ExecutionResult {
                exit_code: run.exit_code,
                stdout: truncate_stream(run.stdout.as_str()),
                stderr: truncate_stream(run.stderr.as_str()),
                duration_ms: run.duration_ms,
            };
            (status, result)
        },
        Err(e) => {
            let text = joined("Execution error: ", e.message.as_str());
            let stdout = String::new();
            proof {
                lemma_clipped_fits(Seq::<char>::empty());
            }
            let result = ExecutionResult {
                exit_code: -1,
                stdout,
                stderr: truncate_stream(text.as_str()),
                duration_ms: 0,
            };
            (JobStatus::Failed, result)
        },
    }
}

impl ExecutionJob {
    /// Whether the record is coherent.
    pub fn is_coherent(&self) -> (ok: bool)
        ensures
            ok == coherent(self@),
    {
        let floor = match self.started_at {
            Some(t) => t,
            None => self.created_at,
        };
        let started_ok = match self.started_at {
            Some(s) => self.created_at.is_not_after(&s),
            None => true,
        };
        let completed_ok = match self.completed_at {
            Some(c) => floor.is_not_after(&c),
            None => true,
        };
        let terminal_ok = self.completed_at.is_some() == self.status.is_terminal();
        let streams_ok = match &self.result {
            Some(r) => r.stdout.as_str().as_bytes().len() <= crate::text::STREAM_LIMIT
                && r.stderr.as_str().as_bytes().len() <= crate::text::STREAM_LIMIT,
            None => true,
        };
        let exit_code: Option<i32> = match &self.result {
            Some(r) => Some(r.exit_code),
            None => None,
        };
        let shape_ok = match self.status {
            JobStatus::Queued => self.started_at.is_none() && exit_code.is_none(),
            JobStatus::Running => self.started_at.is_some() && exit_code.is_none(),
            JobStatus::Completed => self.started_at.is_some() && exit_code == Some(0i32),
            JobStatus::Failed => self.started_at.is_some() && exit_code.is_some() && exit_code
                != Some(0i32),
            JobStatus::Timeout => self.started_at.is_some() && exit_code.is_some(),
            JobStatus::Cancelled => exit_code.is_none(),
        };
        started_ok && completed_ok && terminal_ok && streams_ok && shape_ok
    }

    /// The worker's claim: a waiting record becomes running and gets its
    /// start time. Any other record is left as it is.
    pub fn claim(&mut self, now: Timestamp) -> (applied: bool)
        ensures
            final(self)@ == claimed(old(self)@, now),
            applied == (old(self).status == JobStatus::Queued),
            coherent(old(self)@) ==> coherent(final(self)@),
    {
        if self.status == JobStatus::Queued {
            self.status = JobStatus::Running;
            self.started_at = Some(self.created_at.later_of(now));
            true
        } else {
            false
        }
    }

    /// The worker's terminal write: a running record gets the status and
    /// the result that the outcome leads to, and its completion time. Any
    /// other record, a cancelled one among them, is left as it is.
    pub fn conclude(
        &mut self,
        outcome: &Result<crate::docker::ExecutionResult, AdapterError>,
        now: Timestamp,
    ) -> (applied: bool)
        ensures
            final(self)@ == concluded(old(self)@, outcome_view(*outcome), now),
            applied == (old(self).status == JobStatus::Running),
            coherent(old(self)@) ==> coherent(final(self)@),
    {
        if self.status == JobStatus::Running {
            let (status, result) = verdict_for(outcome);
            let floor = match self.started_at {
                Some(t) => t,
                None => self.created_at,
            };
            self.status = status;
            self.result = Some(result);
            self.completed_at = Some(floor.later_of(now));
            true
        } else {
            false
        }
    }

    /// A cancel: a record that is not terminal becomes cancelled and gets its
    /// completion time. A terminal record is left as it is, and the caller is
    /// told so.
    pub fn cancel(&mut self, now: Timestamp) -> (applied: bool)
        ensures
            final(self)@ == cancelled(old(self)@, now),
            applied == !old(self).status.terminal(),
            applied ==> final(self).status == JobStatus::Cancelled,
            !applied ==> *final(self) == *old(self),
            coherent(old(self)@) ==> coherent(final(self)@),
    {
        if self.status.is_terminal() {
            false
        } else {
            let floor = match self.started_at {
                Some(t) => t,
                None => self.created_at,
            };
            self.status = JobStatus::Cancelled;
            self.completed_at = Some(floor.later_of(now));
            true
        }
    }
}

} // verus!
