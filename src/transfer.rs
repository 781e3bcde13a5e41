//! One file's resumable transfer: skip check, resume planning, progress,
//! size verification and the retry budget.
use vstd::prelude::*;
use crate::paths::LocalFileStorage;

verus! {

/// Where a file's transfer stands.
#[derive(Debug, Clone, Copy, PartialEq, Eq, Structural)]
pub enum DownloadStatus {
    NotStarted,
    Downloading,
    Completed,
    Failed,
}

/// What went wrong, at the level where it is contained.
#[derive(Debug, Clone, Copy, PartialEq, Eq, Structural)]
pub enum DownloadError {
    /// Connecting or the protocol handshake failed.
    Connection,
    /// The credentials were rejected.
    Auth,
    /// The remote file-system subsystem could not be opened.
    Subsystem,
    /// A remote directory could not be listed.
    List,
    /// The remote file could not be examined.
    Stat,
    /// The remote file could not be opened or positioned.
    Open,
    /// Reading the remote stream failed.
    Read,
    /// The stream ended with a byte count other than the remote size.
    SizeMismatch { expected: u64, actual: u64 },
    /// A local directory, write, sync or rename failed.
    LocalIo,
    /// The worker count is zero.
    PartitionConfig,
}

impl DownloadError {
    /// Errors that another attempt may overcome; local I/O errors are not.
    pub open spec fn is_transient(self) -> bool {
        !(self is LocalIo)
    }

    pub fn is_transient_exec(&self) -> (r: bool)
        ensures
            r == self.is_transient(),
    {
        !matches!(self, DownloadError::LocalIo)
    }
}

/// Where the next attempt starts.
#[derive(Debug, Clone, Copy, PartialEq, Eq, Structural)]
pub struct ResumePlan {
    /// Byte offset in the remote file to read from, and bytes already held locally.
    pub offset: u64,
    /// The temporary file must be removed (or truncated) before writing.
    pub discard_temp: bool,
}

/// A file already present at its final path with some content is complete.
pub open spec fn already_complete(final_size: Option<u64>) -> bool {
    final_size matches Some(k) && k > 0
}

/// Resume from a shorter temporary file; otherwise start over, discarding a
/// temporary file that is as long as the remote file or longer.
pub open spec fn resume_plan(remote_size: u64, temp_size: Option<u64>) -> ResumePlan {
    match temp_size {
        Some(k) => if k < remote_size {
            ResumePlan { offset: k, discard_temp: false }
        } else {
            ResumePlan { offset: 0, discard_temp: true }
        },
        None => ResumePlan { offset: 0, discard_temp: false },
    }
}

/// Whether a file is complete given the size at its final path (`None`
/// when nothing is there).
pub fn is_already_complete(final_size: Option<u64>) -> (r: bool)
    ensures
        r == already_complete(final_size),
{
    match final_size {
        Some(k) => k > 0,
        None => false,
    }
}

/// Plans where a transfer starts, given the remote size and the size of the
/// temporary file (`None` when there is none).
pub fn plan_resume(remote_size: u64, temp_size: Option<u64>) -> (r: ResumePlan)
    ensures
        r == resume_plan(remote_size, temp_size),
        r.offset < remote_size || r.offset == 0,
{
    match temp_size {
        Some(k) => if k < remote_size {
            ResumePlan { offset: k, discard_temp: false }
        } else {
            ResumePlan { offset: 0, discard_temp: true }
        },
        None => ResumePlan { offset: 0, discard_temp: false },
    }
}

/// What the local temporary file holds once the plan's preparation is done:
/// the resumed prefix, or nothing.
pub open spec fn kept_prefix(temp: Seq<u8>, plan: ResumePlan) -> Seq<u8> {
    if plan.discard_temp {
        Seq::empty()
    } else {
        temp.take(plan.offset as int)
    }
}

/// Resuming is transparent: whatever the temporary file holds, appending the
/// remote bytes from the planned offset to what the plan keeps yields the
/// remote file exactly, provided a temporary file shorter than the remote
/// one holds a prefix of it (it was written by an earlier pass). A temporary
/// file as long as the remote one or longer is discarded and the transfer
/// restarts from offset zero.
pub proof fn lemma_resume_reconstructs(remote: Seq<u8>, temp: Seq<u8>)
    requires
        remote.len() <= u64::MAX,
        temp.len() <= u64::MAX,
        temp.len() < remote.len() ==> temp == remote.take(temp.len() as int),
    ensures
        ({
            let plan = resume_plan(remote.len() as u64, Some(temp.len() as u64));
            &&& kept_prefix(temp, plan) + remote.skip(plan.offset as int) == remote
            &&& (temp.len() >= remote.len() ==> plan.offset == 0 && plan.discard_temp)
            &&& (temp.len() < remote.len() ==> plan.offset == temp.len() && !plan.discard_temp)
        }),
{
    let plan = resume_plan(remote.len() as u64, Some(temp.len() as u64));
    if temp.len() < remote.len() {
        assert(temp.take(plan.offset as int) == temp);
        assert(temp + remote.skip(temp.len() as int) =~= remote);
    } else {
        assert(Seq::<u8>::empty() + remote.skip(0) =~= remote);
    }
}

/// The state of one file's transfer across its attempts.
#[derive(Debug, Clone)]
pub struct FileDownloadRecord {
    pub remote_path: String,
    pub local_path: String,
    pub temp_path: String,
    /// The remote size reported by the last attempt, if any.
    pub expected_size: Option<u64>,
    /// Bytes held in the temporary file, the resumed prefix included.
    pub downloaded_size: u64,
    pub status: DownloadStatus,
    /// Attempts that have failed so far.
    pub retry_count: usize,
    pub last_error: Option<DownloadError>,
    pub last_modified: Option<String>,
}

impl FileDownloadRecord {
    /// The size the stream must reach: the remote size. A server that
    /// reports no size is taken to report zero, so that any temporary file
    /// is discarded and only an empty stream passes the size check.
    pub open spec fn target_size(&self) -> u64 {
        match self.expected_size {
            Some(s) => s,
            None => 0,
        }
    }

    /// A record for `remote_path` with its paths resolved under `storage`.
    pub fn new(storage: &LocalFileStorage, remote_path: &str) -> (r: FileDownloadRecord)
        ensures
            r.remote_path@ == remote_path@,
            r.local_path@ == storage.local_path(remote_path@),
            r.temp_path@ == storage.temp_path(storage.local_path(remote_path@)),
            r.expected_size is None,
            r.downloaded_size == 0,
            r.status == DownloadStatus::NotStarted,
            r.retry_count == 0,
            r.last_error is None,
            r.last_modified is None,
    {
        let local_path = storage.generate_local_path(remote_path);
        let temp_path = storage.generate_temp_path(local_path.as_str());
        FileDownloadRecord {
            remote_path: String::from_str(remote_path),
            local_path,
            temp_path,
            expected_size: None,
            downloaded_size: 0,
            status: DownloadStatus::NotStarted,
            retry_count: 0,
            last_error: None,
            last_modified: None,
        }
    }

    /// Checks the final path before any transfer: a non-empty file there
    /// completes the record with nothing transferred.
    pub fn check_existing(&mut self, final_size: Option<u64>) -> (skip: bool)
        requires
            old(self).status == DownloadStatus::NotStarted,
        ensures
            skip == already_complete(final_size),
            skip ==> *final(self) == (FileDownloadRecord {
                status: DownloadStatus::Completed,
                ..*old(self)
            }),
            !skip ==> *final(self) == *old(self),
    {
        let skip = is_already_complete(final_size);
        if skip {
            self.status = DownloadStatus::Completed;
        }
        skip
    }

    /// Starts an attempt once the remote size (`None` when the server gave
    /// none) and the temporary file's size are known: the first attempt, or
    /// a new one after a failure.
    pub fn begin_attempt(&mut self, remote_size: Option<u64>, temp_size: Option<u64>) -> (r:
        ResumePlan)
        requires
            old(self).status == DownloadStatus::NotStarted || old(self).status
                == DownloadStatus::Failed,
        ensures
            r == resume_plan(final(self).target_size(), temp_size),
            *final(self) == (FileDownloadRecord {
                expected_size: remote_size,
                downloaded_size: r.offset,
                status: DownloadStatus::Downloading,
                ..*old(self)
            }),
    {
        self.expected_size = remote_size;
        let size = match remote_size {
            Some(s) => s,
            None => 0,
        };
        let plan = plan_resume(size, temp_size);
        self.downloaded_size = plan.offset;
        self.status = DownloadStatus::Downloading;
        plan
    }

    /// Records `n` more bytes written to the temporary file.
    pub fn add_chunk(&mut self, n: u64)
        requires
            old(self).status == DownloadStatus::Downloading,
            old(self).downloaded_size + n <= u64::MAX,
        ensures
            *final(self) == (FileDownloadRecord {
                downloaded_size: (old(self).downloaded_size + n) as u64,
                ..*old(self)
            }),
    {
        self.downloaded_size = self.downloaded_size + n;
    }

    /// At the end of the stream: `Ok` with the byte count when it equals the
    /// expected size, else the mismatch.
    pub fn finish_stream(&self) -> (r: Result<u64, DownloadError>)
        ensures
            self.downloaded_size == self.target_size() ==> r == Ok::<u64, DownloadError>(
                self.downloaded_size,
            ),
            self.downloaded_size != self.target_size() ==> r == Err::<u64, DownloadError>(
                DownloadError::SizeMismatch {
                    expected: self.target_size(),
                    actual: self.downloaded_size,
                },
            ),
    {
        let expected = match self.expected_size {
            Some(s) => s,
            None => 0,
        };
        if self.downloaded_size == expected {
            Ok(self.downloaded_size)
        } else {
            Err(DownloadError::SizeMismatch { expected, actual: self.downloaded_size })
        }
    }

    /// The temporary file, holding exactly the expected size (as
    /// `finish_stream` confirmed), has been renamed to the final path.
    pub fn mark_completed(&mut self) -> (bytes: u64)
        requires
            old(self).status == DownloadStatus::Downloading,
            old(self).downloaded_size == old(self).target_size(),
        ensures
            bytes == old(self).downloaded_size,
            bytes == old(self).target_size(),
            *final(self) == (FileDownloadRecord {
                status: DownloadStatus::Completed,
                ..*old(self)
            }),
    {
        self.status = DownloadStatus::Completed;
        self.downloaded_size
    }

    /// Records a failed attempt; returns whether another attempt is due.
    /// Local I/O errors are never retried, nor is anything after
    /// `max_attempts` attempts.
    pub fn fail_attempt(&mut self, error: DownloadError, max_attempts: usize) -> (retry: bool)
        requires
            old(self).status != DownloadStatus::Completed,
            old(self).retry_count < max_attempts,
        ensures
            *final(self) == (FileDownloadRecord {
                status: DownloadStatus::Failed,
                retry_count: (old(self).retry_count + 1) as usize,
                last_error: Some(error),
                ..*old(self)
            }),
            retry == retry_allowed(error, final(self).retry_count as nat, max_attempts as nat),
    {
        self.status = DownloadStatus::Failed;
        self.retry_count = self.retry_count + 1;
        self.last_error = Some(error);
        error.is_transient_exec() && self.retry_count < max_attempts
    }
}

/// After `failures` failed attempts, the last with `error`, another attempt
/// is due.
pub open spec fn retry_allowed(error: DownloadError, failures: nat, max_attempts: nat) -> bool {
    error.is_transient() && failures < max_attempts
}

/// A file whose every attempt fails with a transient error is attempted
/// exactly `max_attempts` times: each failure but the last grants another
/// attempt, and the last one ends the file's transfer.
pub proof fn lemma_retry_budget(errors: Seq<DownloadError>, max_attempts: nat)
    requires
        max_attempts >= 1,
        errors.len() == max_attempts,
        forall|i: int| 0 <= i < errors.len() ==> (#[trigger] errors[i]).is_transient(),
    ensures
        forall|k: int| 0 <= k < max_attempts - 1 ==> retry_allowed(
            #[trigger] errors[k],
            (k + 1) as nat,
            max_attempts,
        ),
        !retry_allowed(errors[max_attempts - 1], max_attempts, max_attempts),
{
}

} // verus!
