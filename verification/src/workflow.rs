//! The course of a background job, step by step: what to do next, and
//! how the job's record moves, given how the last step went. The steps
//! themselves (preparing a working directory, fetching the input,
//! running the tools, storing the result) are carried out by the caller.

use vstd::prelude::*;

use crate::input::InputSource;
use crate::jobs::{
    completed_job, downloading_job, failed_job, generating_job, pending_job, processing_job,
    revise, status_of, JobStore,
};
use crate::naming::{download_link, result_path, result_path_for};
use crate::types::{JobRecord, JobState, OutputFormat, StatusRecord};

verus! {

/// Where a background job's course stands.
#[derive(Debug, Clone, Copy, PartialEq, Eq, Structural)]
pub enum RunStage {
    /// Not begun.
    NotStarted,
    /// A working directory is being prepared.
    Preparing,
    /// The input is being fetched (downloaded, decoded, or found).
    FetchingInput,
    /// The preview is being generated.
    Generating,
    /// The preview is being stored as the job's result.
    Storing,
    /// The job is completed.
    Completed,
    /// The job failed.
    Failed,
}

/// How the last step went.
pub enum RunEvent {
    /// The step succeeded.
    StepDone,
    /// The result was stored, at the given time (seconds since the
    /// epoch), at the path `result_path_for` gives for that time.
    ResultStored(i64),
    /// The step failed, with the text of its error.
    StepFailed(String),
}

/// What the caller is to do next.
#[derive(Debug, Clone, Copy, PartialEq, Eq, Structural)]
pub enum RunAction {
    PrepareGenerator,
    FetchInput(InputSource),
    GeneratePreview,
    StoreResult,
    /// Nothing more: the job is completed, or a step failed (and the
    /// caller, who holds the error, marks the job failed).
    Stop,
}

/// A completed or failed job's course is over.
pub open spec fn is_terminal(stage: RunStage) -> bool {
    stage == RunStage::Completed || stage == RunStage::Failed
}

/// The next stage and action. A failure ends the course; a stored result
/// completes it; any other success moves on to the next step (the storing
/// step waits for its result); an ended course stays as it is.
pub open spec fn next_step(stage: RunStage, source: InputSource, event: RunEvent) -> (
    RunStage,
    RunAction,
) {
    if is_terminal(stage) {
        (stage, RunAction::Stop)
    } else if event is StepFailed {
        (RunStage::Failed, RunAction::Stop)
    } else if stage == RunStage::Storing && event is ResultStored {
        (RunStage::Completed, RunAction::Stop)
    } else {
        match stage {
            RunStage::NotStarted => (RunStage::Preparing, RunAction::PrepareGenerator),
            RunStage::Preparing => (RunStage::FetchingInput, RunAction::FetchInput(source)),
            RunStage::FetchingInput => (RunStage::Generating, RunAction::GeneratePreview),
            _ => (RunStage::Storing, RunAction::StoreResult),
        }
    }
}

/// The jobs after a step of job `id`'s course: on beginning it is
/// processing; an input to be downloaded is noted as downloading; once
/// the input is there it is generating; a stored result completes it,
/// with the path it was stored at. A failure leaves the job as it is:
/// marking it failed is left to the caller, who holds the error.
pub open spec fn step_effect(
    m: Map<Seq<char>, JobRecord>,
    id: Seq<char>,
    stage: RunStage,
    source: InputSource,
    format: OutputFormat,
    event: RunEvent,
) -> Map<Seq<char>, JobRecord> {
    if is_terminal(stage) {
        m
    } else {
        match event {
            RunEvent::StepFailed(_) => m,
            RunEvent::ResultStored(ts) if stage == RunStage::Storing => revise(
                m,
                id,
                completed_job(m[id], result_path(id, ts as int, format.ext())),
            ),
            _ => match stage {
                RunStage::NotStarted => revise(m, id, processing_job(m[id])),
                RunStage::Preparing => if source == InputSource::RemoteUrl {
                    revise(m, id, downloading_job(m[id]))
                } else {
                    m
                },
                RunStage::FetchingInput => revise(m, id, generating_job(m[id])),
                _ => m,
            },
        }
    }
}

impl JobStore {
    /// Takes one step of job `job_id`'s course: records how the last step
    /// went and says what to do next. `format` is the requested preview
    /// format, which names the stored result.
    pub fn run_step(
        &mut self,
        job_id: &str,
        stage: RunStage,
        source: InputSource,
        format: OutputFormat,
        event: RunEvent,
    ) -> (r: (RunStage, RunAction))
        ensures
            r == next_step(stage, source, event),
            final(self)@ == step_effect(old(self)@, job_id@, stage, source, format, event),
    {
        if stage == RunStage::Completed || stage == RunStage::Failed {
            return (stage, RunAction::Stop);
        }
        match event {
            RunEvent::StepFailed(_) => (RunStage::Failed, RunAction::Stop),
            RunEvent::ResultStored(ts) => {
                if stage == RunStage::Storing {
                    let path = result_path_for(job_id, ts, format);
                    self.mark_completed(job_id, path);
                    (RunStage::Completed, RunAction::Stop)
                } else {
                    self.advance(job_id, stage, source, format)
                }
            },
            RunEvent::StepDone => self.advance(job_id, stage, source, format),
        }
    }

    /// Moves on after a successful step that is not the storing of the
    /// result.
    fn advance(&mut self, job_id: &str, stage: RunStage, source: InputSource, format: OutputFormat) -> (r: (
        RunStage,
        RunAction,
    ))
        requires
            !is_terminal(stage),
        ensures
            r == next_step(stage, source, RunEvent::StepDone),
            final(self)@ == step_effect(
                old(self)@,
                job_id@,
                stage,
                source,
                format,
                RunEvent::StepDone,
            ),
    {
        match stage {
            RunStage::NotStarted => {
                self.mark_processing(job_id);
                (RunStage::Preparing, RunAction::PrepareGenerator)
            },
            RunStage::Preparing => {
                self.note_input_source(job_id, source);
                (RunStage::FetchingInput, RunAction::FetchInput(source))
            },
            RunStage::FetchingInput => {
                self.mark_generating(job_id);
                (RunStage::Generating, RunAction::GeneratePreview)
            },
            _ => (RunStage::Storing, RunAction::StoreResult),
        }
    }
}

/// A job record that fits the stage its course is at.
pub open spec fn fits_stage(stage: RunStage, r: JobRecord) -> bool {
    match stage {
        RunStage::NotStarted => r.status == JobState::Pending && r.progress == 0
            && r.result_path is None,
        RunStage::Preparing => r.status == JobState::Processing && r.progress == 10
            && r.result_path is None,
        RunStage::FetchingInput => r.status == JobState::Processing && (r.progress == 10
            || r.progress == 20) && r.result_path is None,
        RunStage::Generating => r.status == JobState::Processing && r.progress == 50
            && r.result_path is None,
        RunStage::Storing => r.status == JobState::Processing && r.progress == 50
            && r.result_path is None,
        RunStage::Completed => r.status == JobState::Completed && r.progress == 100
            && r.result_path is Some,
        RunStage::Failed => ((r.status == JobState::Pending && r.progress == 0) || (r.status
            == JobState::Processing && r.progress <= 50)) && r.result_path is None,
    }
}

/// A consistent job record: progress is a percentage, a job has a
/// result exactly when it is completed, and a completed job is at 100%.
pub open spec fn consistent_job(r: JobRecord) -> bool {
    &&& r.progress <= 100
    &&& (r.status == JobState::Completed) == (r.result_path is Some)
    &&& r.status == JobState::Completed ==> r.progress == 100
}

/// How far along a job's status is: pending, then processing, then
/// completed or failed.
pub open spec fn status_rank(s: JobState) -> int {
    match s {
        JobState::Pending => 0,
        JobState::Processing => 1,
        _ => 2,
    }
}

/// A job just created fits the start of its course.
pub proof fn law_new_job_fits_start(id: Seq<char>)
    ensures
        fits_stage(RunStage::NotStarted, pending_job(id)),
        consistent_job(pending_job(id)),
{
}

/// A record that fits its stage is consistent.
pub proof fn law_fitting_jobs_are_consistent(stage: RunStage, r: JobRecord)
    requires
        fits_stage(stage, r),
    ensures
        consistent_job(r),
{
}

/// Each step keeps the job's record fitting its stage (and so
/// consistent), never lowers its progress, only moves its status
/// forward, and leaves every other job as it was.
pub proof fn law_step_keeps_course(
    m: Map<Seq<char>, JobRecord>,
    id: Seq<char>,
    stage: RunStage,
    source: InputSource,
    format: OutputFormat,
    event: RunEvent,
)
    requires
        m.contains_key(id),
        fits_stage(stage, m[id]),
    ensures
        ({
            let m2 = step_effect(m, id, stage, source, format, event);
            let next = next_step(stage, source, event).0;
            &&& m2.contains_key(id)
            &&& fits_stage(next, m2[id])
            &&& consistent_job(m2[id])
            &&& m2[id].progress >= m[id].progress
            &&& status_rank(m2[id].status) >= status_rank(m[id].status)
            &&& forall|k: Seq<char>|
                k != id ==> (#[trigger] m2.contains_key(k) == m.contains_key(k) && m2[k] == m[k])
        }),
{
}

/// A completed or failed course is over: every further step does
/// nothing and says to stop.
pub proof fn law_ended_course_is_final(
    m: Map<Seq<char>, JobRecord>,
    id: Seq<char>,
    stage: RunStage,
    source: InputSource,
    format: OutputFormat,
    event: RunEvent,
)
    requires
        is_terminal(stage),
    ensures
        step_effect(m, id, stage, source, format, event) == m,
        next_step(stage, source, event) == (stage, RunAction::Stop),
{
}

/// The first failing step ends the course and leaves the job as it was
/// (pending, or processing at the last stage reached); the caller then
/// marks it failed with the error's text, and the job ends failed,
/// consistent, with its progress kept, and stays so.
pub proof fn law_failure_stops_course(
    m: Map<Seq<char>, JobRecord>,
    id: Seq<char>,
    stage: RunStage,
    source: InputSource,
    format: OutputFormat,
    message: String,
)
    requires
        !is_terminal(stage),
        m.contains_key(id),
        fits_stage(stage, m[id]),
    ensures
        next_step(stage, source, RunEvent::StepFailed(message)) == (
            RunStage::Failed,
            RunAction::Stop,
        ),
        step_effect(m, id, stage, source, format, RunEvent::StepFailed(message)) == m,
        ({
            let marked = revise(m, id, failed_job(m[id], message@));
            &&& marked[id].status == JobState::Failed
            &&& marked[id].message == message@
            &&& marked[id].progress == m[id].progress
            &&& consistent_job(marked[id])
        }),
{
}

/// A step reports properly when the storing step reports its stored
/// result (not a bare success).
pub open spec fn reports_properly(stage: RunStage, event: RunEvent) -> bool {
    stage == RunStage::Storing ==> !(event is StepDone)
}

/// How many steps at most remain before the course ends.
pub open spec fn steps_left(stage: RunStage) -> nat {
    match stage {
        RunStage::NotStarted => 5,
        RunStage::Preparing => 4,
        RunStage::FetchingInput => 3,
        RunStage::Generating => 2,
        RunStage::Storing => 1,
        _ => 0,
    }
}

/// Every properly reported step of a course that has not ended brings it
/// closer to its end, so a course ends (completed or failed) within five
/// steps.
pub proof fn law_course_ends(stage: RunStage, source: InputSource, event: RunEvent)
    requires
        !is_terminal(stage),
        reports_properly(stage, event),
    ensures
        steps_left(next_step(stage, source, event).0) < steps_left(stage),
        steps_left(stage) <= 5,
        steps_left(next_step(stage, source, event).0) == 0 <==> is_terminal(
            next_step(stage, source, event).0,
        ),
{
}

/// A course in which every step succeeds: processing at 10%, then (for
/// an input to be downloaded) downloading at 20%, then generating at
/// 50%, then completed at 100% with the result stored under the job's
/// result name and its download URL; the caller is told to prepare,
/// fetch the input, generate, store, and stop.
pub proof fn law_successful_course(
    m: Map<Seq<char>, JobRecord>,
    id: Seq<char>,
    source: InputSource,
    format: OutputFormat,
    stored_at: i64,
)
    ensures
        ({
            let m0 = m.insert(id, pending_job(id));
            let done = RunEvent::StepDone;
            let stored = RunEvent::ResultStored(stored_at);
            let m1 = step_effect(m0, id, RunStage::NotStarted, source, format, done);
            let m2 = step_effect(m1, id, RunStage::Preparing, source, format, done);
            let m3 = step_effect(m2, id, RunStage::FetchingInput, source, format, done);
            let m4 = step_effect(m3, id, RunStage::Generating, source, format, done);
            let m5 = step_effect(m4, id, RunStage::Storing, source, format, stored);
            let path = result_path(id, stored_at as int, format.ext());
            &&& next_step(RunStage::NotStarted, source, done) == (
                RunStage::Preparing,
                RunAction::PrepareGenerator,
            )
            &&& next_step(RunStage::Preparing, source, done) == (
                RunStage::FetchingInput,
                RunAction::FetchInput(source),
            )
            &&& next_step(RunStage::FetchingInput, source, done) == (
                RunStage::Generating,
                RunAction::GeneratePreview,
            )
            &&& next_step(RunStage::Generating, source, done) == (
                RunStage::Storing,
                RunAction::StoreResult,
            )
            &&& next_step(RunStage::Storing, source, stored) == (
                RunStage::Completed,
                RunAction::Stop,
            )
            &&& status_of(m1, id).unwrap().status == JobState::Processing
            &&& status_of(m1, id).unwrap().message == "Processing file"@
            &&& status_of(m1, id).unwrap().progress == 10
            &&& (source == InputSource::RemoteUrl ==> status_of(m2, id).unwrap().message
                == "Downloading file"@ && status_of(m2, id).unwrap().progress == 20)
            &&& (source != InputSource::RemoteUrl ==> m2 == m1)
            &&& status_of(m3, id).unwrap().message == "Generating preview"@
            &&& status_of(m3, id).unwrap().progress == 50
            &&& m4 == m3
            &&& m5[id].result_path == Some(path)
            &&& status_of(m5, id) == Some(
                StatusRecord {
                    job_id: id,
                    status: JobState::Completed,
                    message: "Preview generated successfully"@,
                    result_url: Some(download_link(path)),
                    progress: 100,
                },
            )
        }),
{
}

} // verus!
