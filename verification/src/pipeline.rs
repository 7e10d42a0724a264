//! The two-phase run: downloads, a barrier, then installs.
//!
//! A run fans out one download job per selected application. Each job is
//! owned by its task and its outcome is recorded back here; recording one
//! outcome never touches a sibling job. The install phase opens only once
//! every download job — done or failed alike — is terminal, so no install
//! work ever observes a disk image whose download is still in flight.

use vstd::prelude::*;
use crate::progress::{DownloadJob, JobStatus};

verus! {

/// Where the run stands: fanning out downloads, fanning out installs, or
/// finished.
#[derive(Clone, Copy, PartialEq, Eq, Structural, Debug)]
pub enum Phase {
    Downloading,
    Installing,
    Finished,
}

/// Every job has reached `Done` or `Failed`.
pub open spec fn all_terminal(jobs: Seq<DownloadJob>) -> bool {
    forall|i: int| 0 <= i < jobs.len() ==> (#[trigger] jobs[i]).is_terminal()
}

/// Every job's progress state is valid.
pub open spec fn all_wf(jobs: Seq<DownloadJob>) -> bool {
    forall|i: int| 0 <= i < jobs.len() ==> (#[trigger] jobs[i]).wf()
}

/// One run of the pipeline.
pub struct PipelineRun {
    pub phase: Phase,
    pub downloads: Vec<DownloadJob>,
}

impl PipelineRun {
    /// Validity of a run: valid jobs, and — the barrier — a run past its
    /// download phase has only terminal download jobs.
    pub open spec fn wf(self) -> bool {
        &&& all_wf(self.downloads@)
        &&& !(self.phase is Downloading) ==> all_terminal(self.downloads@)
    }

    /// Fan out: one pending download job per selected application.
    pub fn new(app_ids: &Vec<Vec<u8>>) -> (r: Self)
        ensures
            r.wf(),
            r.phase is Downloading,
            r.downloads@.len() == app_ids@.len(),
            forall|i: int| 0 <= i < app_ids@.len() ==> {
                &&& (#[trigger] r.downloads@[i]).app_id@ == app_ids@[i]@
                &&& r.downloads@[i].status is Pending
            },
    {
        let mut downloads: Vec<DownloadJob> = Vec::new();
        let mut i: usize = 0;
        while i < app_ids.len()
            invariant
                i <= app_ids@.len(),
                downloads@.len() == i,
                forall|k: int| 0 <= k < i ==> {
                    &&& (#[trigger] downloads@[k]).app_id@ == app_ids@[k]@
                    &&& downloads@[k].status is Pending
                    &&& downloads@[k].wf()
                },
            decreases app_ids@.len() - i,
        {
            let id = app_ids[i].clone();
            assert(id@ =~= app_ids@[i as int]@);
            downloads.push(DownloadJob::new(id));
            i += 1;
        }
        PipelineRun { phase: Phase::Downloading, downloads }
    }

    /// Record one job's terminal outcome. Every sibling job is left
    /// exactly as it was: one job's failure cannot touch another.
    pub fn record_outcome(&mut self, i: usize, job: DownloadJob)
        requires
            old(self).wf(),
            old(self).phase is Downloading,
            i < old(self).downloads@.len(),
            job.wf(),
            job.is_terminal(),
        ensures
            final(self).wf(),
            final(self).phase is Downloading,
            final(self).downloads@ == old(self).downloads@.update(i as int, job),
            final(self).downloads@[i as int] == job,
            forall|k: int| 0 <= k < old(self).downloads@.len() && k != i
                ==> final(self).downloads@[k] == old(self).downloads@[k],
    {
        self.downloads[i] = job;
    }

    /// The barrier: open the install phase exactly when every download job
    /// is terminal, failed ones included. A run with a job still in flight
    /// stays in the download phase, unchanged.
    pub fn begin_install_phase(&mut self) -> (r: bool)
        requires
            old(self).wf(),
            old(self).phase is Downloading,
        ensures
            final(self).wf(),
            final(self).downloads == old(self).downloads,
            r == all_terminal(old(self).downloads@),
            r ==> final(self).phase is Installing,
            !r ==> *final(self) == *old(self),
    {
        let mut i: usize = 0;
        while i < self.downloads.len()
            invariant
                i <= self.downloads@.len(),
                self.phase is Downloading,
                self.wf(),
                forall|k: int| 0 <= k < i ==> (#[trigger] self.downloads@[k]).is_terminal(),
            decreases self.downloads@.len() - i,
        {
            if !self.downloads[i].has_terminated() {
                return false;
            }
            i += 1;
        }
        self.phase = Phase::Installing;
        true
    }

    /// Close the run once the install phase has joined.
    pub fn finish(&mut self)
        requires
            old(self).wf(),
            old(self).phase is Installing,
        ensures
            final(self).wf(),
            final(self).phase is Finished,
            final(self).downloads == old(self).downloads,
    {
        self.phase = Phase::Finished;
    }

    /// How many download jobs ended `Done`.
    pub fn count_done(&self) -> (r: usize)
        ensures
            r as int == count_done_jobs(self.downloads@),
    {
        let mut r: usize = 0;
        let mut i: usize = 0;
        proof {
            assert(self.downloads@.subrange(0, 0) =~= Seq::<DownloadJob>::empty());
        }
        while i < self.downloads.len()
            invariant
                i <= self.downloads@.len(),
                r as int == count_done_jobs(self.downloads@.subrange(0, i as int)),
                r <= i,
            decreases self.downloads@.len() - i,
        {
            let is_done = match self.downloads[i].status {
                JobStatus::Done => true,
                _ => false,
            };
            if is_done {
                r += 1;
            }
            i += 1;
            proof {
                let dv = self.downloads@;
                assert(dv.subrange(0, i as int).drop_last() =~= dv.subrange(0, i as int - 1));
                assert(dv.subrange(0, i as int).last() == dv[i as int - 1]);
            }
        }
        proof {
            assert(self.downloads@.subrange(0, self.downloads@.len() as int)
                =~= self.downloads@);
        }
        r
    }
}

/// How many jobs in the sequence are `Done`.
pub open spec fn count_done_jobs(jobs: Seq<DownloadJob>) -> int
    decreases jobs.len(),
{
    if jobs.len() == 0 {
        0
    } else {
        count_done_jobs(jobs.drop_last()) + if jobs.last().status is Done {
            1int
        } else {
            0int
        }
    }
}

/// Phase barrier: a run past its download phase has no download job still
/// in flight, so no install task can observe an unfinished download.
pub proof fn lemma_phase_barrier(run: PipelineRun)
    requires
        run.wf(),
        !(run.phase is Downloading),
    ensures
        all_terminal(run.downloads@),
{
}

/// Partial-failure isolation: recording one job's outcome — a failure as
/// much as a success — leaves every sibling job unchanged.
pub proof fn lemma_sibling_isolation(jobs: Seq<DownloadJob>, i: int, job: DownloadJob)
    requires
        0 <= i < jobs.len(),
    ensures
        forall|k: int| 0 <= k < jobs.len() && k != i
            ==> jobs.update(i, job)[k] == jobs[k],
{
}

} // verus!
