//! Per-download progress accounting.
//!
//! A [`DownloadJob`] tracks one download's bytes, its last reported
//! percentage and its status. The reported percentage is proved
//! non-decreasing over the job's lifetime and equal to 100 exactly on
//! success.

use vstd::prelude::*;
use crate::resolve::ResolutionError;
use vstd::arithmetic::div_mod::{lemma_fundamental_div_mod, lemma_div_is_ordered};
use vstd::arithmetic::mul::{lemma_mul_inequality, lemma_mul_strict_inequality};

verus! {

/// Why a download failed.
#[derive(Clone, Copy, PartialEq, Eq, Structural, Debug)]
pub enum DownloadError {
    /// A network failure while fetching the body.
    Network,
    /// A file-system failure while writing the destination file.
    FileIo,
    /// The server reported no content length, so progress cannot be
    /// tracked; the job ends with a single terminal failure report.
    UntrackedLength,
}

/// The terminal reason a download job failed: either its record could not
/// be resolved, or the transfer itself failed.
#[derive(Clone, Copy, PartialEq, Eq, Structural, Debug)]
pub enum DownloadFailure {
    Resolution(ResolutionError),
    Download(DownloadError),
}

/// The lifecycle of one download job.
#[derive(Clone, Copy, PartialEq, Eq, Structural, Debug)]
pub enum JobStatus {
    Pending,
    InProgress,
    Done,
    Failed(DownloadFailure),
}

/// The progress percentage for `done` bytes out of `total`: the integer
/// part of `done / total * 100`, clamped to `[0, 100]`. A download whose
/// byte count has reached (or passed) its total is at 100.
pub open spec fn percent_of(done: u64, total: u64) -> u64 {
    if done >= total {
        100u64
    } else {
        ((done as int) * 100 / (total as int)) as u64
    }
}

/// For `0 <= d < t` the quotient `d * 100 / t` lies strictly below 100.
proof fn lemma_div_percent_bound(d: int, t: int)
    requires
        0 <= d < t,
    ensures
        0 <= d * 100 / t < 100,
{
    let q = d * 100 / t;
    lemma_fundamental_div_mod(d * 100, t);
    lemma_div_is_ordered(0, d * 100, t);
    if q >= 100 {
        lemma_mul_inequality(100, q, t);
        lemma_mul_strict_inequality(d, t, 100);
        assert(d * 100 == 100 * d) by (nonlinear_arith);
        assert(t * 100 == 100 * t) by (nonlinear_arith);
        assert(q * t == t * q) by (nonlinear_arith);
        assert(false);
    }
}

/// The percentage is never above 100.
pub proof fn lemma_percent_le_100(done: u64, total: u64)
    ensures
        percent_of(done, total) <= 100,
{
    if done < total {
        lemma_div_percent_bound(done as int, total as int);
    }
}

/// Reported progress is monotone: more bytes never lower the percentage.
pub proof fn lemma_percent_monotonic(d1: u64, d2: u64, total: u64)
    requires
        d1 <= d2,
    ensures
        percent_of(d1, total) <= percent_of(d2, total),
{
    if d1 < total && d2 < total {
        lemma_div_percent_bound(d1 as int, total as int);
        lemma_div_percent_bound(d2 as int, total as int);
        lemma_mul_inequality(d1 as int, d2 as int, 100);
        lemma_div_is_ordered(d1 as int * 100, d2 as int * 100, total as int);
    } else if d1 < total {
        lemma_div_percent_bound(d1 as int, total as int);
    }
}

/// A download at its full byte count reports exactly 100.
pub proof fn lemma_percent_complete(total: u64)
    ensures
        percent_of(total, total) == 100,
{
}

/// Compute the clamped progress percentage.
pub fn percent(done: u64, total: u64) -> (r: u64)
    ensures
        r == percent_of(done, total),
        r <= 100,
{
    if done >= total {
        100
    } else {
        proof {
            lemma_div_percent_bound(done as int, total as int);
        }
        let wide: u128 = (done as u128) * 100 / (total as u128);
        proof {
            assert(wide == (done as int) * 100 / (total as int));
            assert(wide < 100);
        }
        wide as u64
    }
}

/// Mutable progress state for one download, owned by the task running it.
pub struct DownloadJob {
    pub app_id: Vec<u8>,
    pub bytes_downloaded: u64,
    pub total_bytes: u64,
    pub last_percent: u64,
    pub status: JobStatus,
}

impl DownloadJob {
    /// Validity of a job's progress state: the last reported percentage
    /// never runs ahead of the bytes received, and a finished job has
    /// reported exactly 100.
    pub open spec fn wf(self) -> bool {
        &&& self.last_percent <= 100
        &&& self.status is Pending ==> self.bytes_downloaded == 0 && self.last_percent == 0
        &&& self.status is InProgress
            ==> self.last_percent <= percent_of(self.bytes_downloaded, self.total_bytes)
        &&& self.status is Done ==> self.last_percent == 100
    }

    /// A job is terminal once it is `Done` or `Failed`.
    pub open spec fn is_terminal(self) -> bool {
        self.status is Done || self.status is Failed
    }

    /// A fresh job for one selected application.
    pub fn new(app_id: Vec<u8>) -> (r: Self)
        ensures
            r.wf(),
            r.app_id@ == app_id@,
            r.status is Pending,
            r.bytes_downloaded == 0,
            r.last_percent == 0,
    {
        DownloadJob {
            app_id,
            bytes_downloaded: 0,
            total_bytes: 0,
            last_percent: 0,
            status: JobStatus::Pending,
        }
    }

    /// Whether the job has reached `Done` or `Failed`.
    pub fn has_terminated(&self) -> (r: bool)
        ensures
            r == self.is_terminal(),
    {
        match self.status {
            JobStatus::Done => true,
            JobStatus::Failed(_) => true,
            _ => false,
        }
    }

    /// The transfer began. With a known content length the job enters
    /// `InProgress`; without one, progress cannot be tracked and the job
    /// ends at once with its single terminal failure report.
    pub fn start(&mut self, content_length: Option<u64>)
        requires
            old(self).wf(),
            old(self).status is Pending,
        ensures
            final(self).wf(),
            final(self).app_id == old(self).app_id,
            final(self).bytes_downloaded == 0,
            final(self).last_percent == old(self).last_percent,
            match content_length {
                Some(t) => final(self).status is InProgress && final(self).total_bytes == t,
                None => final(self).status
                    == JobStatus::Failed(DownloadFailure::Download(DownloadError::UntrackedLength)),
            },
    {
        match content_length {
            Some(t) => {
                self.total_bytes = t;
                self.status = JobStatus::InProgress;
            },
            None => {
                self.status =
                    JobStatus::Failed(DownloadFailure::Download(DownloadError::UntrackedLength));
            },
        }
    }

    /// Account one received chunk and report the new percentage. The
    /// report never decreases from the previous one.
    pub fn on_chunk(&mut self, chunk_len: u64) -> (p: u64)
        requires
            old(self).wf(),
            old(self).status is InProgress,
            old(self).bytes_downloaded + chunk_len <= u64::MAX,
        ensures
            final(self).wf(),
            final(self).status is InProgress,
            final(self).app_id == old(self).app_id,
            final(self).total_bytes == old(self).total_bytes,
            final(self).bytes_downloaded == old(self).bytes_downloaded + chunk_len,
            p == percent_of(final(self).bytes_downloaded, final(self).total_bytes),
            final(self).last_percent == p,
            p >= old(self).last_percent,
    {
        proof {
            lemma_percent_monotonic(
                self.bytes_downloaded,
                (self.bytes_downloaded + chunk_len) as u64,
                self.total_bytes,
            );
        }
        self.bytes_downloaded = self.bytes_downloaded + chunk_len;
        let p = percent(self.bytes_downloaded, self.total_bytes);
        self.last_percent = p;
        p
    }

    /// The body ended without error: the job is done and reports exactly
    /// 100, never less than any earlier report.
    pub fn finish(&mut self)
        requires
            old(self).wf(),
            old(self).status is InProgress,
        ensures
            final(self).wf(),
            final(self).status is Done,
            final(self).app_id == old(self).app_id,
            final(self).bytes_downloaded == old(self).bytes_downloaded,
            final(self).last_percent == 100,
            final(self).last_percent >= old(self).last_percent,
    {
        self.last_percent = 100;
        self.status = JobStatus::Done;
    }

    /// Record a failure. The bytes and the last report stay as they were:
    /// the destination file is left in whatever partial state exists.
    pub fn fail(&mut self, reason: DownloadFailure)
        requires
            old(self).wf(),
            !old(self).is_terminal(),
        ensures
            final(self).wf(),
            final(self).status == JobStatus::Failed(reason),
            final(self).app_id == old(self).app_id,
            final(self).bytes_downloaded == old(self).bytes_downloaded,
            final(self).last_percent == old(self).last_percent,
    {
        self.status = JobStatus::Failed(reason);
    }
}

} // verus!
