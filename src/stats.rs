use vstd::prelude::*;

verus! {

/// Counters describing the outcome of one run (or one worker's share of it).
#[derive(Debug, Clone, Copy, PartialEq, Eq, Structural)]
pub struct DownloadStats {
    pub total_files: usize,
    pub downloaded_files: usize,
    pub failed_files: usize,
    pub skipped_files: usize,
    pub total_bytes: u64,
    /// Wall-clock duration of the run, in milliseconds.
    pub elapsed_ms: u64,
}

impl DownloadStats {
    /// The statistics are all zero.
    pub open spec fn is_zero(&self) -> bool {
        &&& self.total_files == 0
        &&& self.downloaded_files == 0
        &&& self.failed_files == 0
        &&& self.skipped_files == 0
        &&& self.total_bytes == 0
        &&& self.elapsed_ms == 0
    }

    /// Adding `other` to `self` stays within the integer ranges.
    pub open spec fn can_merge(&self, other: &DownloadStats) -> bool {
        &&& self.total_files + other.total_files <= usize::MAX
        &&& self.downloaded_files + other.downloaded_files <= usize::MAX
        &&& self.failed_files + other.failed_files <= usize::MAX
        &&& self.skipped_files + other.skipped_files <= usize::MAX
        &&& self.total_bytes + other.total_bytes <= u64::MAX
    }

    /// The counter-wise sum of `a` and `b`, keeping `a`'s elapsed time.
    pub open spec fn merged(a: DownloadStats, b: DownloadStats) -> DownloadStats {
        DownloadStats {
            total_files: (a.total_files + b.total_files) as usize,
            downloaded_files: (a.downloaded_files + b.downloaded_files) as usize,
            failed_files: (a.failed_files + b.failed_files) as usize,
            skipped_files: (a.skipped_files + b.skipped_files) as usize,
            total_bytes: (a.total_bytes + b.total_bytes) as u64,
            elapsed_ms: a.elapsed_ms,
        }
    }

    pub fn new() -> (r: DownloadStats)
        ensures
            r.is_zero(),
    {
        DownloadStats {
            total_files: 0,
            downloaded_files: 0,
            failed_files: 0,
            skipped_files: 0,
            total_bytes: 0,
            elapsed_ms: 0,
        }
    }

    /// Folds one worker's statistics into the shared accumulator.
    pub fn merge(&mut self, other: &DownloadStats)
        requires
            old(self).can_merge(other),
        ensures
            *final(self) == DownloadStats::merged(*old(self), *other),
    {
        self.total_files = self.total_files + other.total_files;
        self.downloaded_files = self.downloaded_files + other.downloaded_files;
        self.failed_files = self.failed_files + other.failed_files;
        self.skipped_files = self.skipped_files + other.skipped_files;
        self.total_bytes = self.total_bytes + other.total_bytes;
    }

    /// Average throughput in bytes per second over the whole seconds elapsed;
    /// `None` when less than one second elapsed.
    pub fn throughput(&self) -> (r: Option<u64>)
        ensures
            self.elapsed_ms < 1000 ==> r is None,
            self.elapsed_ms >= 1000 ==> r == Some(
                (self.total_bytes / (self.elapsed_ms / 1000)) as u64,
            ),
    {
        let secs = self.elapsed_ms / 1000;
        if secs == 0 {
            None
        } else {
            Some(self.total_bytes / secs)
        }
    }
}

} // verus!
