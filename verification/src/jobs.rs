//! The store of background preview jobs: creating a job, moving it
//! through its stages, and reporting its status.

use vstd::prelude::*;
use vstd::string::*;

use crate::error::PreviewError;
use crate::external::{random_uuid, uuid_v4_text};
use crate::input::InputSource;
use crate::naming::{download_link, download_url};
use crate::text::str_equal;
use crate::types::{opt_view, JobRecord, JobState, JobStatus, ProcessingJob, StatusRecord};

verus! {

/// A job as it is first stored: pending, "Job created", no result, no
/// progress.
pub open spec fn pending_job(id: Seq<char>) -> JobRecord {
    JobRecord {
        id,
        status: JobState::Pending,
        message: "Job created"@,
        result_path: None,
        progress: 0,
    }
}

/// A job that has started: processing, "Processing file", 10%.
pub open spec fn processing_job(r: JobRecord) -> JobRecord {
    JobRecord {
        id: r.id,
        status: JobState::Processing,
        message: "Processing file"@,
        result_path: r.result_path,
        progress: 10,
    }
}

/// A job that is fetching its input: "Downloading file", 20%.
pub open spec fn downloading_job(r: JobRecord) -> JobRecord {
    JobRecord {
        id: r.id,
        status: r.status,
        message: "Downloading file"@,
        result_path: r.result_path,
        progress: 20,
    }
}

/// A job that is making its preview: "Generating preview", 50%.
pub open spec fn generating_job(r: JobRecord) -> JobRecord {
    JobRecord {
        id: r.id,
        status: r.status,
        message: "Generating preview"@,
        result_path: r.result_path,
        progress: 50,
    }
}

/// A finished job: completed, "Preview generated successfully", its
/// result file, 100%.
pub open spec fn completed_job(r: JobRecord, result_path: Seq<char>) -> JobRecord {
    JobRecord {
        id: r.id,
        status: JobState::Completed,
        message: "Preview generated successfully"@,
        result_path: Some(result_path),
        progress: 100,
    }
}

/// A failed job: failed, with the error's text; its progress stays.
pub open spec fn failed_job(r: JobRecord, message: Seq<char>) -> JobRecord {
    JobRecord {
        id: r.id,
        status: JobState::Failed,
        message,
        result_path: r.result_path,
        progress: r.progress,
    }
}

/// The jobs after the job `id` is replaced by `new`; nothing changes
/// when there is no such job.
pub open spec fn revise(m: Map<Seq<char>, JobRecord>, id: Seq<char>, new: JobRecord) -> Map<
    Seq<char>,
    JobRecord,
> {
    if m.contains_key(id) {
        m.insert(id, new)
    } else {
        m
    }
}

/// What a client is told of a job: its result's download URL only once
/// it is completed.
pub open spec fn status_record(r: JobRecord) -> StatusRecord {
    StatusRecord {
        job_id: r.id,
        status: r.status,
        message: r.message,
        result_url: if r.status == JobState::Completed {
            match r.result_path {
                Some(p) => Some(download_link(p)),
                None => None,
            }
        } else {
            None
        },
        progress: r.progress,
    }
}

/// The status of job `id`, or `None` when there is no such job.
pub open spec fn status_of(m: Map<Seq<char>, JobRecord>, id: Seq<char>) -> Option<StatusRecord> {
    if m.contains_key(id) {
        Some(status_record(m[id]))
    } else {
        None
    }
}

/// No two jobs of `s` have the same id.
pub open spec fn ids_distinct(s: Seq<ProcessingJob>) -> bool {
    forall|i: int, j: int|
        0 <= i < s.len() && 0 <= j < s.len() && i != j ==> (#[trigger] s[i]).id@ != (
        #[trigger] s[j]).id@
}

/// Whether some job of `s` has the id `k`.
pub open spec fn holds_id(s: Seq<ProcessingJob>, k: Seq<char>) -> bool {
    exists|i: int| 0 <= i < s.len() && (#[trigger] s[i]).id@ == k
}

/// The jobs of `s`, by id.
pub open spec fn jobs_by_id(s: Seq<ProcessingJob>) -> Map<Seq<char>, JobRecord> {
    Map::new(
        |k: Seq<char>| holds_id(s, k),
        |k: Seq<char>| s[choose|i: int| 0 <= i < s.len() && (#[trigger] s[i]).id@ == k].record(),
    )
}

/// The job at position `i` is the one kept under its id.
proof fn lemma_at(s: Seq<ProcessingJob>, i: int)
    requires
        ids_distinct(s),
        0 <= i < s.len(),
    ensures
        jobs_by_id(s).contains_key(s[i].id@),
        jobs_by_id(s)[s[i].id@] == s[i].record(),
{
    let k = s[i].id@;
    assert(holds_id(s, k));
    let c = choose|c: int| 0 <= c < s.len() && (#[trigger] s[c]).id@ == k;
    assert(c == i);
}

/// Replacing the job at position `i` by one with the same id keeps the
/// ids distinct, and changes only what is kept under that id.
proof fn lemma_replaced(before: Seq<ProcessingJob>, i: int, job: ProcessingJob)
    requires
        ids_distinct(before),
        0 <= i < before.len(),
        job.id@ == before[i].id@,
    ensures
        ids_distinct(before.update(i, job)),
        jobs_by_id(before.update(i, job)) == jobs_by_id(before).insert(job.id@, job.record()),
{
    let after = before.update(i, job);
    let k = job.id@;
    assert forall|a: int, b: int|
        0 <= a < after.len() && 0 <= b < after.len() && a != b implies (#[trigger] after[a]).id@
        != (#[trigger] after[b]).id@ by {
        assert(before[a].id@ == after[a].id@);
        assert(before[b].id@ == after[b].id@);
    }
    let lhs = jobs_by_id(after);
    let rhs = jobs_by_id(before).insert(k, job.record());
    assert forall|q: Seq<char>| #[trigger] lhs.contains_key(q) <==> rhs.contains_key(q) by {
        if lhs.contains_key(q) {
            let c = choose|c: int| 0 <= c < after.len() && (#[trigger] after[c]).id@ == q;
            if q != k {
                assert(before[c].id@ == q);
                lemma_at(before, c);
            }
        }
        if rhs.contains_key(q) && q != k {
            let c = choose|c: int| 0 <= c < before.len() && (#[trigger] before[c]).id@ == q;
            assert(after[c].id@ == q);
            lemma_at(after, c);
        }
        if q == k {
            lemma_at(after, i);
        }
    }
    assert forall|q: Seq<char>| #[trigger] lhs.contains_key(q) implies lhs[q] == rhs[q] by {
        lemma_at(after, i);
        if q != k {
            let c = choose|c: int| 0 <= c < after.len() && (#[trigger] after[c]).id@ == q;
            assert(c != i);
            assert(before[c] == after[c]);
            lemma_at(after, c);
            lemma_at(before, c);
        }
    }
    assert(lhs =~= rhs);
}

/// Appending a job whose id is new keeps the ids distinct, and adds it
/// under its id.
proof fn lemma_appended(before: Seq<ProcessingJob>, job: ProcessingJob)
    requires
        ids_distinct(before),
        forall|i: int| 0 <= i < before.len() ==> (#[trigger] before[i]).id@ != job.id@,
    ensures
        ids_distinct(before.push(job)),
        jobs_by_id(before.push(job)) == jobs_by_id(before).insert(job.id@, job.record()),
{
    let after = before.push(job);
    let n = before.len() as int;
    let k = job.id@;
    assert forall|a: int, b: int|
        0 <= a < after.len() && 0 <= b < after.len() && a != b implies (#[trigger] after[a]).id@
        != (#[trigger] after[b]).id@ by {
        if a < n && b < n {
            assert(before[a] == after[a]);
            assert(before[b] == after[b]);
        } else if a < n {
            assert(before[a] == after[a]);
        } else {
            assert(before[b] == after[b]);
        }
    }
    let lhs = jobs_by_id(after);
    let rhs = jobs_by_id(before).insert(k, job.record());
    assert forall|q: Seq<char>| #[trigger] lhs.contains_key(q) <==> rhs.contains_key(q) by {
        if lhs.contains_key(q) {
            let c = choose|c: int| 0 <= c < after.len() && (#[trigger] after[c]).id@ == q;
            if q != k {
                assert(c < n);
                assert(before[c] == after[c]);
                lemma_at(before, c);
            }
        }
        if rhs.contains_key(q) && q != k {
            let c = choose|c: int| 0 <= c < before.len() && (#[trigger] before[c]).id@ == q;
            assert(after[c] == before[c]);
            lemma_at(after, c);
        }
        if q == k {
            lemma_at(after, n);
        }
    }
    assert forall|q: Seq<char>| #[trigger] lhs.contains_key(q) implies lhs[q] == rhs[q] by {
        lemma_at(after, n);
        if q != k {
            let c = choose|c: int| 0 <= c < after.len() && (#[trigger] after[c]).id@ == q;
            assert(c != n);
            assert(before[c] == after[c]);
            lemma_at(after, c);
            lemma_at(before, c);
        }
    }
    assert(lhs =~= rhs);
}

/// The background jobs, each kept under its id.
pub struct JobStore {
    jobs: Vec<ProcessingJob>,
}

impl View for JobStore {
    type V = Map<Seq<char>, JobRecord>;

    /// The jobs, by id.
    closed spec fn view(&self) -> Map<Seq<char>, JobRecord> {
        jobs_by_id(self.jobs@)
    }
}

impl JobStore {
    /// No two jobs have the same id.
    #[verifier::type_invariant]
    spec fn well_formed(self) -> bool {
        ids_distinct(self.jobs@)
    }

    /// Every job is kept under its own id.
    pub proof fn lemma_keyed(self)
        ensures
            forall|k: Seq<char>| #[trigger] self.view().contains_key(k) ==> self.view()[k].id == k,
    {
        assert forall|k: Seq<char>| #[trigger] self.view().contains_key(k) implies self.view()[k].id
            == k by {
            let c = choose|c: int| 0 <= c < self.jobs@.len() && (#[trigger] self.jobs@[c]).id@ == k;
        }
    }

    /// An empty store.
    pub fn new() -> (r: Self)
        ensures
            r.view() == Map::<Seq<char>, JobRecord>::empty(),
    {
        let r = JobStore { jobs: Vec::new() };
        assert(r.view() =~= Map::<Seq<char>, JobRecord>::empty());
        r
    }

    /// The position of the job with id `id`, if any.
    fn position(&self, id: &str) -> (r: Option<usize>)
        ensures
            match r {
                Some(i) => i < self.jobs@.len() && self.jobs@[i as int].id@ == id@,
                None => forall|i: int|
                    0 <= i < self.jobs@.len() ==> (#[trigger] self.jobs@[i]).id@ != id@,
            },
    {
        let mut i: usize = 0;
        while i < self.jobs.len()
            invariant
                i <= self.jobs@.len(),
                forall|k: int| 0 <= k < i ==> (#[trigger] self.jobs@[k]).id@ != id@,
            decreases self.jobs@.len() - i,
        {
            if str_equal(self.jobs[i].id.as_str(), id) {
                return Some(i);
            }
            i = i + 1;
        }
        None
    }

    /// The job with id `id`, if any.
    pub fn get(&self, id: &str) -> (r: Option<&ProcessingJob>)
        ensures
            match r {
                Some(job) => self.view().contains_key(id@) && self.view()[id@] == job.record(),
                None => !self.view().contains_key(id@),
            },
    {
        proof {
            use_type_invariant(self);
        }
        match self.position(id) {
            Some(i) => {
                proof {
                    lemma_at(self.jobs@, i as int);
                }
                Some(&self.jobs[i])
            },
            None => None,
        }
    }

    /// Keeps `job` under its id, replacing any job with the same id.
    pub fn insert(&mut self, job: ProcessingJob)
        ensures
            final(self).view() == old(self).view().insert(job.id@, job.record()),
    {
        proof {
            use_type_invariant(&*self);
        }
        let pos = self.position(job.id.as_str());
        let mut jobs: Vec<ProcessingJob> = Vec::new();
        std::mem::swap(&mut jobs, &mut self.jobs);
        let ghost before = jobs@;
        match pos {
            Some(i) => {
                proof {
                    lemma_replaced(before, i as int, job);
                }
                jobs.set(i, job);
            },
            None => {
                proof {
                    lemma_appended(before, job);
                }
                jobs.push(job);
            },
        }
        self.jobs = jobs;
    }

    /// Puts `job` at position `i`, in place of the job with the same id.
    fn put_at(&mut self, i: usize, job: ProcessingJob)
        requires
            i < old(self).jobs@.len(),
            job.id@ == old(self).jobs@[i as int].id@,
        ensures
            final(self).view() == old(self).view().insert(job.id@, job.record()),
    {
        proof {
            use_type_invariant(&*self);
        }
        let mut jobs: Vec<ProcessingJob> = Vec::new();
        std::mem::swap(&mut jobs, &mut self.jobs);
        proof {
            lemma_replaced(jobs@, i as int, job);
        }
        jobs.set(i, job);
        self.jobs = jobs;
    }

    /// Creates the job `job_id`: pending, "Job created", no progress.
    pub fn create_job(&mut self, job_id: String)
        ensures
            final(self).view() == old(self).view().insert(job_id@, pending_job(job_id@)),
    {
        let job = ProcessingJob {
            id: job_id,
            status: JobState::Pending,
            message: String::from_str("Job created"),
            result_path: None,
            progress: 0,
        };
        self.insert(job);
    }

    /// Creates a job under a fresh random id, and returns the id.
    pub fn submit_job(&mut self) -> (id: String)
        ensures
            uuid_v4_text(id@),
            final(self).view() == old(self).view().insert(id@, pending_job(id@)),
    {
        let id = random_uuid();
        let key = id.clone();
        self.create_job(key);
        id
    }

    /// The job at position `i`, with a new status, message, result and
    /// progress where they are given.
    fn changed_job(
        &self,
        i: usize,
        status: Option<JobState>,
        message: String,
        result_path: Option<String>,
        progress: Option<u8>,
    ) -> (r: ProcessingJob)
        requires
            i < self.jobs@.len(),
        ensures
            r.id@ == self.jobs@[i as int].id@,
            r.status == match status {
                Some(st) => st,
                None => self.jobs@[i as int].status,
            },
            r.message@ == message@,
            opt_view(r.result_path) == match result_path {
                Some(p) => Some(p@),
                None => opt_view(self.jobs@[i as int].result_path),
            },
            r.progress == match progress {
                Some(p) => p,
                None => self.jobs@[i as int].progress,
            },
    {
        let old_job = &self.jobs[i];
        let path = match result_path {
            Some(p) => Some(p),
            None => match &old_job.result_path {
                Some(p) => Some(p.clone()),
                None => None,
            },
        };
        ProcessingJob {
            id: old_job.id.clone(),
            status: match status {
                Some(st) => st,
                None => old_job.status,
            },
            message,
            result_path: path,
            progress: match progress {
                Some(p) => p,
                None => old_job.progress,
            },
        }
    }

    /// Changes the job `job_id`, if there is one.
    fn change_job(
        &mut self,
        job_id: &str,
        status: Option<JobState>,
        message: String,
        result_path: Option<String>,
        progress: Option<u8>,
    )
        ensures
            old(self).view().contains_key(job_id@) ==> final(self).view() == old(self).view().insert(
                job_id@,
                JobRecord {
                    id: old(self).view()[job_id@].id,
                    status: match status {
                        Some(st) => st,
                        None => old(self).view()[job_id@].status,
                    },
                    message: message@,
                    result_path: match result_path {
                        Some(p) => Some(p@),
                        None => old(self).view()[job_id@].result_path,
                    },
                    progress: match progress {
                        Some(p) => p,
                        None => old(self).view()[job_id@].progress,
                    },
                },
            ),
            !old(self).view().contains_key(job_id@) ==> final(self).view() == old(self).view(),
    {
        proof {
            use_type_invariant(&*self);
        }
        match self.position(job_id) {
            Some(i) => {
                proof {
                    lemma_at(self.jobs@, i as int);
                }
                let job = self.changed_job(i, status, message, result_path, progress);
                self.put_at(i, job);
            },
            None => {},
        }
    }

    /// Marks the job `job_id` as being processed: "Processing file", 10%.
    pub fn mark_processing(&mut self, job_id: &str)
        ensures
            final(self).view() == revise(
                old(self).view(),
                job_id@,
                processing_job(old(self).view()[job_id@]),
            ),
    {
        self.change_job(
            job_id,
            Some(JobState::Processing),
            String::from_str("Processing file"),
            None,
            Some(10),
        );
    }

    /// Notes that the job `job_id` is downloading its input: "Downloading
    /// file", 20%.
    pub fn mark_downloading(&mut self, job_id: &str)
        ensures
            final(self).view() == revise(
                old(self).view(),
                job_id@,
                downloading_job(old(self).view()[job_id@]),
            ),
    {
        self.change_job(job_id, None, String::from_str("Downloading file"), None, Some(20));
    }

    /// Notes how the job `job_id` reads its input: an input that must be
    /// downloaded is noted as "Downloading file", 20%; other inputs leave
    /// the job as it is.
    pub fn note_input_source(&mut self, job_id: &str, source: InputSource)
        ensures
            source == InputSource::RemoteUrl ==> final(self).view() == revise(
                old(self).view(),
                job_id@,
                downloading_job(old(self).view()[job_id@]),
            ),
            source != InputSource::RemoteUrl ==> final(self).view() == old(self).view(),
    {
        match source {
            InputSource::RemoteUrl => self.mark_downloading(job_id),
            _ => {},
        }
    }

    /// Notes that the job `job_id` is generating its preview: "Generating
    /// preview", 50%.
    pub fn mark_generating(&mut self, job_id: &str)
        ensures
            final(self).view() == revise(
                old(self).view(),
                job_id@,
                generating_job(old(self).view()[job_id@]),
            ),
    {
        self.change_job(job_id, None, String::from_str("Generating preview"), None, Some(50));
    }

    /// Marks the job `job_id` as completed with its result file:
    /// "Preview generated successfully", 100%.
    pub fn mark_completed(&mut self, job_id: &str, result_path: String)
        ensures
            final(self).view() == revise(
                old(self).view(),
                job_id@,
                completed_job(old(self).view()[job_id@], result_path@),
            ),
    {
        self.change_job(
            job_id,
            Some(JobState::Completed),
            String::from_str("Preview generated successfully"),
            Some(result_path),
            Some(100),
        );
    }

    /// Marks the job `job_id` as failed with the text of its error.
    pub fn mark_failed(&mut self, job_id: &str, message: String)
        ensures
            final(self).view() == revise(
                old(self).view(),
                job_id@,
                failed_job(old(self).view()[job_id@], message@),
            ),
    {
        self.change_job(job_id, Some(JobState::Failed), message, None, None);
    }

    /// The status of the job `job_id`: its stage, message and progress,
    /// and once it is completed the URL its result is downloaded from.
    /// An unknown job is refused as not found.
    pub fn job_status(&self, job_id: &str) -> (r: Result<JobStatus, PreviewError>)
        ensures
            match r {
                Ok(s) => status_of(self.view(), job_id@) == Some(s.record()) && s.job_id@
                    == job_id@,
                Err(e) => status_of(self.view(), job_id@) is None && (e matches PreviewError::JobNotFound(
                    m,
                ) && m@ == job_id@),
            },
    {
        proof {
            self.lemma_keyed();
        }
        match self.get(job_id) {
            None => Err(PreviewError::JobNotFound(String::from_str(job_id))),
            Some(job) => {
                let result_url = if job.status == JobState::Completed {
                    match &job.result_path {
                        Some(p) => Some(download_url(p.as_str())),
                        None => None,
                    }
                } else {
                    None
                };
                let status = JobStatus {
                    job_id: job.id.clone(),
                    status: job.status,
                    message: job.message.clone(),
                    result_url,
                    progress: job.progress,
                };
                Ok(status)
            },
        }
    }
}

/// A job just created reads as pending, with the message "Job
/// created", no result URL and no progress.
pub proof fn law_created_job_is_pending(m: Map<Seq<char>, JobRecord>, id: Seq<char>)
    ensures
        status_of(m.insert(id, pending_job(id)), id) == Some(
            StatusRecord {
                job_id: id,
                status: JobState::Pending,
                message: "Job created"@,
                result_url: None,
                progress: 0,
            },
        ),
{
}

/// A completed job reads as completed at 100%, with the URL its result
/// file is downloaded from.
pub proof fn law_completed_job_links_result(
    m: Map<Seq<char>, JobRecord>,
    id: Seq<char>,
    result_path: Seq<char>,
)
    requires
        m.contains_key(id),
    ensures
        status_of(revise(m, id, completed_job(m[id], result_path)), id) == Some(
            StatusRecord {
                job_id: m[id].id,
                status: JobState::Completed,
                message: "Preview generated successfully"@,
                result_url: Some(download_link(result_path)),
                progress: 100,
            },
        ),
{
}

/// A failed job reads as failed with the text of its error, no result
/// URL, and the progress it had reached.
pub proof fn law_failed_job_reports_error(
    m: Map<Seq<char>, JobRecord>,
    id: Seq<char>,
    message: Seq<char>,
)
    requires
        m.contains_key(id),
    ensures
        status_of(revise(m, id, failed_job(m[id], message)), id) == Some(
            StatusRecord {
                job_id: m[id].id,
                status: JobState::Failed,
                message,
                result_url: None,
                progress: m[id].progress,
            },
        ),
{
}

/// Changing one job leaves what every other job reads as unchanged.
pub proof fn law_jobs_are_isolated(
    m: Map<Seq<char>, JobRecord>,
    id: Seq<char>,
    new: JobRecord,
    other: Seq<char>,
)
    requires
        other != id,
    ensures
        status_of(revise(m, id, new), other) == status_of(m, other),
        status_of(m.insert(id, new), other) == status_of(m, other),
{
}

/// A change to a job that does not exist changes nothing, and such a
/// job has no status.
pub proof fn law_unknown_job(m: Map<Seq<char>, JobRecord>, id: Seq<char>, new: JobRecord)
    requires
        !m.contains_key(id),
    ensures
        revise(m, id, new) == m,
        status_of(m, id) is None,
{
}

/// Along its normal course (created, processing, downloading,
/// generating, completed) a job reads with progress 0, 10, 20, 50 and
/// 100, and ends completed with its result's download URL.
pub proof fn law_job_lifecycle(m: Map<Seq<char>, JobRecord>, id: Seq<char>, result_path: Seq<char>)
    ensures
        ({
            let m1 = m.insert(id, pending_job(id));
            let m2 = revise(m1, id, processing_job(m1[id]));
            let m3 = revise(m2, id, downloading_job(m2[id]));
            let m4 = revise(m3, id, generating_job(m3[id]));
            let m5 = revise(m4, id, completed_job(m4[id], result_path));
            &&& status_of(m1, id).unwrap().progress == 0
            &&& status_of(m2, id).unwrap().progress == 10
            &&& status_of(m3, id).unwrap().progress == 20
            &&& status_of(m4, id).unwrap().progress == 50
            &&& status_of(m5, id) == Some(
                StatusRecord {
                    job_id: id,
                    status: JobState::Completed,
                    message: "Preview generated successfully"@,
                    result_url: Some(download_link(result_path)),
                    progress: 100,
                },
            )
        }),
{
}

/// Every job's progress is a percentage (at most 100).
pub open spec fn progress_in_range(m: Map<Seq<char>, JobRecord>) -> bool {
    forall|k: Seq<char>| #[trigger] m.contains_key(k) ==> m[k].progress <= 100
}

/// Creating a job and moving it through its stages keep every job's
/// progress a percentage.
pub proof fn law_progress_is_a_percentage(
    m: Map<Seq<char>, JobRecord>,
    id: Seq<char>,
    result_path: Seq<char>,
    message: Seq<char>,
)
    requires
        progress_in_range(m),
    ensures
        progress_in_range(m.insert(id, pending_job(id))),
        progress_in_range(revise(m, id, processing_job(m[id]))),
        progress_in_range(revise(m, id, downloading_job(m[id]))),
        progress_in_range(revise(m, id, generating_job(m[id]))),
        progress_in_range(revise(m, id, completed_job(m[id], result_path))),
        progress_in_range(revise(m, id, failed_job(m[id], message))),
{
}

/// A job's status shows a download URL only when the job is completed.
pub proof fn law_result_url_only_when_completed(r: JobRecord)
    ensures
        status_record(r).result_url is Some ==> r.status == JobState::Completed,
        (r.status == JobState::Completed && r.result_path is Some) ==> status_record(
            r,
        ).result_url is Some,
{
}

} // verus!
