//! One worker's session over its partition: per-file outcomes and their
//! statistics.
use vstd::prelude::*;
use crate::stats::DownloadStats;
use crate::transfer::DownloadError;

verus! {

/// How one task ended.
#[derive(Debug, Clone, Copy, PartialEq, Eq, Structural)]
pub enum FileOutcome {
    /// Transferred and promoted to its final path, with the byte count.
    Downloaded(u64),
    /// Already complete at its final path; nothing was transferred.
    Skipped,
    /// Given up, with the last error and the number of attempts made.
    Failed { error: DownloadError, attempts: usize },
}

/// Totals over a sequence of outcomes: `(downloaded, skipped, failed, bytes)`.
pub open spec fn tally(outcomes: Seq<FileOutcome>) -> (nat, nat, nat, nat)
    decreases outcomes.len(),
{
    if outcomes.len() == 0 {
        (0, 0, 0, 0)
    } else {
        let t = tally(outcomes.drop_last());
        match outcomes.last() {
            FileOutcome::Downloaded(b) => (t.0 + 1, t.1, t.2, t.3 + b as nat),
            FileOutcome::Skipped => (t.0, t.1 + 1, t.2, t.3),
            FileOutcome::Failed { .. } => (t.0, t.1, t.2 + 1, t.3),
        }
    }
}

/// Each outcome increments exactly one of the three file counters.
pub proof fn lemma_tally_counts(outcomes: Seq<FileOutcome>)
    ensures
        tally(outcomes).0 + tally(outcomes).1 + tally(outcomes).2 == outcomes.len(),
    decreases outcomes.len(),
{
    if outcomes.len() > 0 {
        lemma_tally_counts(outcomes.drop_last());
    }
}

/// Outcomes are counted independently: the totals of two runs of outcomes
/// side by side are the sums of their totals, so no file's outcome changes
/// what any other file contributes.
pub proof fn lemma_tally_append(a: Seq<FileOutcome>, b: Seq<FileOutcome>)
    ensures
        tally(a + b).0 == tally(a).0 + tally(b).0,
        tally(a + b).1 == tally(a).1 + tally(b).1,
        tally(a + b).2 == tally(a).2 + tally(b).2,
        tally(a + b).3 == tally(a).3 + tally(b).3,
    decreases b.len(),
{
    if b.len() > 0 {
        lemma_tally_append(a, b.drop_last());
        assert((a + b).drop_last() =~= a + b.drop_last());
    } else {
        assert(a + b =~= a);
    }
}

/// A worker's progress through its partition, in partition order.
pub struct WorkerSession {
    pub tasks: Vec<String>,
    /// The outcome of each task handled so far: task `i` is handled `i`-th.
    pub outcomes: Vec<FileOutcome>,
    pub stats: DownloadStats,
}

impl WorkerSession {
    /// The statistics are those of the outcomes so far, over all the tasks.
    pub open spec fn wf(&self) -> bool {
        let t = tally(self.outcomes@);
        &&& self.outcomes@.len() <= self.tasks@.len()
        &&& self.stats.total_files == self.tasks@.len()
        &&& self.stats.downloaded_files == t.0
        &&& self.stats.skipped_files == t.1
        &&& self.stats.failed_files == t.2
        &&& self.stats.total_bytes == t.3
        &&& self.stats.elapsed_ms == 0
    }

    /// Every task has been handled.
    pub open spec fn finished(&self) -> bool {
        self.outcomes@.len() == self.tasks@.len()
    }

    pub fn new(tasks: Vec<String>) -> (r: WorkerSession)
        ensures
            r.wf(),
            r.tasks@ == tasks@,
            r.outcomes@.len() == 0,
    {
        let n = tasks.len();
        let mut stats = DownloadStats::new();
        stats.total_files = n;
        WorkerSession { tasks, outcomes: Vec::new(), stats }
    }

    /// The next task to handle, if any.
    pub fn current_task(&self) -> (r: Option<&String>)
        requires
            self.wf(),
        ensures
            self.finished() ==> r is None,
            !self.finished() ==> r == Some(&self.tasks@[self.outcomes@.len() as int]),
    {
        if self.outcomes.len() < self.tasks.len() {
            Some(&self.tasks[self.outcomes.len()])
        } else {
            None
        }
    }

    /// Records how the current task ended and moves to the next one.
    pub fn record_outcome(&mut self, outcome: FileOutcome)
        requires
            old(self).wf(),
            !old(self).finished(),
            outcome matches FileOutcome::Downloaded(b) ==> old(self).stats.total_bytes + b
                <= u64::MAX,
        ensures
            final(self).wf(),
            final(self).tasks == old(self).tasks,
            final(self).outcomes@ == old(self).outcomes@.push(outcome),
    {
        proof {
            lemma_tally_counts(self.outcomes@);
            assert(self.outcomes@.push(outcome).drop_last() == self.outcomes@);
        }
        match outcome {
            FileOutcome::Downloaded(b) => {
                self.stats.downloaded_files = self.stats.downloaded_files + 1;
                self.stats.total_bytes = self.stats.total_bytes + b;
            },
            FileOutcome::Skipped => {
                self.stats.skipped_files = self.stats.skipped_files + 1;
            },
            FileOutcome::Failed { .. } => {
                self.stats.failed_files = self.stats.failed_files + 1;
            },
        }
        self.outcomes.push(outcome);
    }

    /// The connection could not be set up: every task of the partition fails
    /// with `error`, and none of them is attempted.
    pub fn fail_all(&mut self, error: DownloadError)
        requires
            old(self).wf(),
            old(self).outcomes@.len() == 0,
        ensures
            final(self).wf(),
            final(self).finished(),
            final(self).tasks == old(self).tasks,
            forall|i: int|
                0 <= i < final(self).outcomes@.len() ==> #[trigger] final(self).outcomes@[i]
                    == (FileOutcome::Failed { error, attempts: 0 }),
            final(self).stats.failed_files == old(self).tasks@.len(),
            final(self).stats.downloaded_files == 0,
            final(self).stats.skipped_files == 0,
            final(self).stats.total_bytes == 0,
    {
        let n = self.tasks.len();
        let ghost tasks0 = self.tasks;
        let mut i: usize = 0;
        while i < n
            invariant
                self.wf(),
                self.tasks == tasks0,
                n == self.tasks@.len(),
                i == self.outcomes@.len(),
                i <= n,
                forall|j: int|
                    0 <= j < i ==> #[trigger] self.outcomes@[j] == (FileOutcome::Failed {
                        error,
                        attempts: 0,
                    }),
                tally(self.outcomes@).0 == 0,
                tally(self.outcomes@).1 == 0,
                tally(self.outcomes@).2 == i,
                tally(self.outcomes@).3 == 0,
            decreases n - i,
        {
            let ghost before = self.outcomes@;
            self.record_outcome(FileOutcome::Failed { error, attempts: 0 });
            proof {
                assert(self.outcomes@.drop_last() == before);
            }
            i = i + 1;
        }
    }
}

} // verus!
