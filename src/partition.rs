//! Round-robin partitioning of tasks across workers: task `i` goes to
//! partition `i % w`, in order. This balances uniform, unpredictable task
//! costs across workers.
use vstd::prelude::*;
use crate::transfer::DownloadError;

verus! {

/// `len` is the size of round-robin partition `p` of `n` tasks over `w`
/// workers: the positions `p, p + w, p + 2w, ...` below `n`.
pub open spec fn share_len(n: int, w: int, p: int, len: int) -> bool {
    &&& len >= 0
    &&& p + len * w >= n
    &&& (len == 0 || p + (len - 1) * w < n)
}

/// The task index held at position `j` of partition `p`.
pub open spec fn slot_index(w: int, p: int, j: int) -> int {
    p + j * w
}

/// Task `i` sits in partition `i % w`, at position `i / w`.
pub open spec fn placed(tasks: Seq<Seq<char>>, w: int, parts: Seq<Seq<Seq<char>>>, i: int) -> bool {
    i / w < parts[i % w].len() && parts[i % w][i / w] == tasks[i]
}

/// `parts` is the round-robin partition of `tasks` over `w` workers.
pub open spec fn is_round_robin(tasks: Seq<Seq<char>>, w: int, parts: Seq<Seq<Seq<char>>>) -> bool {
    &&& parts.len() == w
    &&& forall|p: int| 0 <= p < w ==> share_len(tasks.len() as int, w, p, #[trigger] parts[p].len() as int)
    &&& forall|p: int, j: int|
        0 <= p < w && 0 <= j < parts[p].len() ==> #[trigger] parts[p][j] == tasks[p + j * w]
}

/// The views of a vector of partitions.
pub open spec fn parts_view(parts: Seq<Vec<String>>) -> Seq<Seq<Seq<char>>> {
    parts.map_values(|v: Vec<String>| v@.map_values(|s: String| s@))
}

/// The views of a vector of tasks.
pub open spec fn tasks_view(tasks: Seq<String>) -> Seq<Seq<char>> {
    tasks.map_values(|s: String| s@)
}

/// Splits `tasks` into exactly `num_threads` partitions, task `i` going to
/// partition `i % num_threads`; zero workers is a configuration error.
pub fn partition_tasks(tasks: &Vec<String>, num_threads: usize) -> (r: Result<
    Vec<Vec<String>>,
    DownloadError,
>)
    ensures
        num_threads == 0 ==> r == Err::<Vec<Vec<String>>, DownloadError>(
            DownloadError::PartitionConfig,
        ),
        num_threads > 0 ==> (r matches Ok(parts) && is_round_robin(
            tasks_view(tasks@),
            num_threads as int,
            parts_view(parts@),
        )),
{
    if num_threads == 0 {
        return Err(DownloadError::PartitionConfig);
    }
    let n = tasks.len();
    let w = num_threads;
    let mut parts: Vec<Vec<String>> = Vec::new();
    let mut p: usize = 0;
    while p < w
        invariant
            n == tasks@.len(),
            w > 0,
            p <= w,
            parts@.len() == p,
            forall|q: int| 0 <= q < p ==> share_len(n as int, w as int, q, #[trigger] parts@[q]@.len() as int),
            forall|q: int, j: int|
                0 <= q < p && 0 <= j < parts@[q]@.len() ==> #[trigger] parts@[q]@[j]@ == tasks@[q + j * w]@,
        decreases w - p,
    {
        let mut part: Vec<String> = Vec::new();
        let mut i: usize = p;
        let mut done = p >= n;
        proof {
            assert(p + 0 * w == p) by (nonlinear_arith);
        }
        while !done
            invariant
                n == tasks@.len(),
                w > 0,
                p < w,
                !done ==> i == p + part@.len() * w && i < n,
                done ==> p + part@.len() * w >= n,
                part@.len() == 0 || p + (part@.len() - 1) * w < n,
                forall|j: int| 0 <= j < part@.len() ==> #[trigger] part@[j]@ == tasks@[p + j * w]@,
            decreases n - i + (if done { 0int } else { 1int }),
        {
            part.push(tasks[i].clone());
            proof {
                assert(p + (part@.len() - 1) * w == i) by (nonlinear_arith)
                    requires
                        i == p + (part@.len() - 1) * w,
                ;
                assert(p + part@.len() * w == i + w) by (nonlinear_arith)
                    requires
                        i == p + (part@.len() - 1) * w,
                ;
            }
            if w >= n - i {
                done = true;
            } else {
                i = i + w;
            }
        }
        parts.push(part);
        p = p + 1;
    }
    let ghost pv = parts_view(parts@);
    let ghost tv = tasks_view(tasks@);
    assert forall|q: int, j: int|
        0 <= q < w && 0 <= j < pv[q].len() implies #[trigger] pv[q][j] == tv[q + j * w] by {
        assert(parts@[q]@[j]@ == tasks@[q + j * w]@);
        assert(0 <= q + j * w < n) by (nonlinear_arith)
            requires
                0 <= q,
                0 <= j < parts@[q]@.len(),
                w > 0,
                parts@[q]@.len() == 0 || q + (parts@[q]@.len() - 1) * w < n,
        ;
    }
    Ok(parts)
}

pub(crate) proof fn lemma_share_bounds(n: int, w: int, p: int, len: int, j: int)
    requires
        w > 0,
        0 <= p < w,
        share_len(n, w, p, len),
        0 <= j < len,
    ensures
        0 <= p + j * w < n,
{
    assert(p + j * w <= p + (len - 1) * w) by (nonlinear_arith)
        requires
            w > 0,
            j <= len - 1,
    ;
    assert(j * w >= 0) by (nonlinear_arith)
        requires
            w > 0,
            j >= 0,
    ;
}

proof fn lemma_slot_distinct(w: int, p: int, j: int, q: int, k: int)
    requires
        w > 0,
        0 <= p < w,
        0 <= q < w,
        0 <= j,
        0 <= k,
        p + j * w == q + k * w,
    ensures
        p == q,
        j == k,
{
    if j < k {
        assert(q + k * w >= w + j * w) by (nonlinear_arith)
            requires
                j + 1 <= k,
                w > 0,
                q >= 0,
        ;
    } else if k < j {
        assert(p + j * w >= w + k * w) by (nonlinear_arith)
            requires
                k + 1 <= j,
                w > 0,
                p >= 0,
        ;
    }
}

proof fn lemma_index_slot(tasks: Seq<Seq<char>>, w: int, parts: Seq<Seq<Seq<char>>>, i: int)
    requires
        w >= 1,
        is_round_robin(tasks, w, parts),
        0 <= i < tasks.len(),
    ensures
        placed(tasks, w, parts, i),
{
    let n = tasks.len() as int;
    let p = i % w;
    let j = i / w;
    assert(i == p + j * w && 0 <= p < w && j >= 0) by (nonlinear_arith)
        requires
            p == i % w,
            j == i / w,
            w > 0,
            i >= 0,
    ;
    let len = parts[p].len() as int;
    assert(share_len(n, w, p, len));
    if j >= len {
        assert(p + j * w >= p + len * w) by (nonlinear_arith)
            requires
                j >= len,
                w > 0,
        ;
        assert(false);
    }
    assert(parts[p][j] == tasks[p + j * w]);
}

/// Round-robin partitioning loses and duplicates nothing and is balanced:
/// every task index `i < n` is held by exactly one slot (partition
/// `i % w`, position `i / w`), every slot holds an index below `n`, and any
/// two partitions differ in size by at most one.
pub proof fn lemma_round_robin_exact(tasks: Seq<Seq<char>>, w: int, parts: Seq<Seq<Seq<char>>>)
    requires
        w >= 1,
        is_round_robin(tasks, w, parts),
    ensures
        forall|p: int, j: int|
            0 <= p < w && 0 <= j < parts[p].len() ==> 0 <= #[trigger] slot_index(w, p, j)
                < tasks.len(),
        forall|i: int| 0 <= i < tasks.len() ==> #[trigger] placed(tasks, w, parts, i),
        forall|p: int, j: int, q: int, k: int|
            0 <= p < w && 0 <= q < w && 0 <= j < parts[p].len() && 0 <= k < parts[q].len()
                && #[trigger] slot_index(w, p, j) == #[trigger] slot_index(w, q, k) ==> p == q && j
                == k,
        forall|p: int, q: int|
            0 <= p < w && 0 <= q < w ==> #[trigger] parts[p].len() <= #[trigger] parts[q].len() + 1,
{
    let n = tasks.len() as int;
    assert forall|p: int, j: int|
        0 <= p < w && 0 <= j < parts[p].len() implies 0 <= #[trigger] slot_index(w, p, j)
            < tasks.len() by {
        lemma_share_bounds(n, w, p, parts[p].len() as int, j);
    }
    assert forall|i: int| 0 <= i < tasks.len() implies #[trigger] placed(tasks, w, parts, i) by {
        lemma_index_slot(tasks, w, parts, i);
    }
    assert forall|p: int, j: int, q: int, k: int|
        0 <= p < w && 0 <= q < w && 0 <= j < parts[p].len() && 0 <= k < parts[q].len()
            && #[trigger] slot_index(w, p, j) == #[trigger] slot_index(w, q, k) implies p == q && j
            == k by {
        lemma_slot_distinct(w, p, j, q, k);
    }
    assert forall|p: int, q: int| 0 <= p < w && 0 <= q < w implies #[trigger] parts[p].len()
        <= #[trigger] parts[q].len() + 1 by {
        let lp = parts[p].len() as int;
        let lq = parts[q].len() as int;
        assert(share_len(n, w, p, lp));
        assert(share_len(n, w, q, lq));
        if lp > lq + 1 {
            assert(p + (lp - 1) * w >= p + (lq + 1) * w) by (nonlinear_arith)
                requires
                    lp - 1 >= lq + 1,
                    w > 0,
            ;
            assert(p + (lq + 1) * w == p + lq * w + w) by (nonlinear_arith);
        }
    }
}

} // verus!
