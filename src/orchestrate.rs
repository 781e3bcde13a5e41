//! Run-level decisions: which bands, and which workers get which tasks.
use vstd::prelude::*;
use vstd::string::*;
use crate::partition::{lemma_share_bounds, partition_tasks, parts_view, share_len, tasks_view};
use crate::transfer::DownloadError;

verus! {

/// The visible bands: `B01`, `B02`, `B03`.
pub fn visible_bands() -> (r: Vec<String>)
    ensures
        tasks_view(r@) == seq!["B01"@, "B02"@, "B03"@],
{
    let r = vec![String::from_str("B01"), String::from_str("B02"), String::from_str("B03")];
    assert(tasks_view(r@) =~= seq!["B01"@, "B02"@, "B03"@]);
    r
}

/// How a run begins.
#[derive(Debug, Clone, Copy, PartialEq, Eq, Structural)]
pub enum RunStart {
    /// There is work: clean up, audit, list and transfer.
    Proceed,
    /// No target time: the run ends at once with empty statistics and opens
    /// no connection.
    NoWork,
}

/// Decides how a run over `num_times` target times with `num_threads`
/// workers begins. Zero workers is rejected before anything else happens.
pub fn start_run(num_times: usize, num_threads: usize) -> (r: Result<RunStart, DownloadError>)
    ensures
        num_threads == 0 ==> r == Err::<RunStart, DownloadError>(DownloadError::PartitionConfig),
        num_threads > 0 && num_times == 0 ==> r == Ok::<RunStart, DownloadError>(
            RunStart::NoWork,
        ),
        num_threads > 0 && num_times > 0 ==> r == Ok::<RunStart, DownloadError>(RunStart::Proceed),
{
    if num_threads == 0 {
        Err(DownloadError::PartitionConfig)
    } else if num_times == 0 {
        Ok(RunStart::NoWork)
    } else {
        Ok(RunStart::Proceed)
    }
}

/// The task lists of the workers to start: the non-empty round-robin
/// partitions of `tasks` over `num_threads` workers, that is the first
/// `min(n, num_threads)` of them. No task means no worker. Zero workers is a
/// configuration error, reported before anything else happens.
pub fn worker_partitions(tasks: &Vec<String>, num_threads: usize) -> (r: Result<
    Vec<Vec<String>>,
    DownloadError,
>)
    ensures
        num_threads == 0 ==> r == Err::<Vec<Vec<String>>, DownloadError>(
            DownloadError::PartitionConfig,
        ),
        num_threads > 0 ==> (r matches Ok(ws) && {
            let n = tasks@.len() as int;
            let w = num_threads as int;
            &&& ws@.len() == if n < w {
                n
            } else {
                w
            }
            &&& forall|p: int|
                0 <= p < ws@.len() ==> #[trigger] ws@[p]@.len() > 0 && share_len(
                    n,
                    w,
                    p,
                    ws@[p]@.len() as int,
                )
            &&& forall|p: int, j: int|
                0 <= p < ws@.len() && 0 <= j < ws@[p]@.len() ==> #[trigger] ws@[p]@[j]@
                    == tasks@[p + j * w]@
        }),
{
    let mut ws = match partition_tasks(tasks, num_threads) {
        Ok(parts) => parts,
        Err(e) => return Err(e),
    };
    let ghost pv = parts_view(ws@);
    let n = tasks.len();
    let w = num_threads;
    let count = if n < w {
        n
    } else {
        w
    };
    let ghost whole = ws@;
    ws.truncate(count);
    assert forall|p: int|
        0 <= p < ws@.len() implies #[trigger] ws@[p]@.len() > 0 && share_len(
            n as int,
            w as int,
            p,
            ws@[p]@.len() as int,
        ) by {
        assert(ws@[p] == whole[p]);
        assert(pv[p] == whole[p]@.map_values(|s: String| s@));
        assert(share_len(n as int, w as int, p, pv[p].len() as int));
        assert(pv[p].len() == ws@[p]@.len());
        assert(0 * (w as int) == 0);
    }
    assert forall|p: int, j: int|
        0 <= p < ws@.len() && 0 <= j < ws@[p]@.len() implies #[trigger] ws@[p]@[j]@
            == tasks@[p + j * w]@ by {
        assert(ws@[p] == whole[p]);
        assert(pv[p] == whole[p]@.map_values(|s: String| s@));
        assert(share_len(n as int, w as int, p, pv[p].len() as int));
        lemma_share_bounds(n as int, w as int, p, pv[p].len() as int, j);
        assert(pv[p][j] == tasks_view(tasks@)[p + j * w]);
    }
    Ok(ws)
}

} // verus!
