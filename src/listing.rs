//! Choosing what to transfer: the wanted files of a remote directory
//! listing, and those not already complete locally.
use vstd::prelude::*;
use crate::partition::tasks_view;
use crate::text::{basename, contains, ends_with, path_basename, str_contains, str_ends_with};
use crate::timestamp::Timestamp;
use crate::transfer::{already_complete, is_already_complete};
use crate::worker::{tally, FileOutcome};

verus! {

/// A full-disk data file of `ts` in one of `bands` (any band when `bands`
/// is empty), judged by its file name.
pub open spec fn is_wanted(name: Seq<char>, ts: Timestamp, bands: Seq<Seq<char>>) -> bool {
    &&& contains(name, "FLDK"@)
    &&& contains(name, ts.compact())
    &&& ends_with(name, ".DAT.bz2"@)
    &&& (bands.len() == 0 || exists|j: int| 0 <= j < bands.len() && contains(name, #[trigger] bands[j]))
}

/// The entries of a listing whose file names are wanted, in listing order.
pub open spec fn wanted_entries(entries: Seq<Seq<char>>, ts: Timestamp, bands: Seq<Seq<char>>) -> Seq<
    Seq<char>,
> {
    entries.filter(|e: Seq<char>| is_wanted(basename(e), ts, bands))
}

fn names_any_band(name: &str, bands: &Vec<String>) -> (r: bool)
    ensures
        r == (exists|j: int| 0 <= j < bands@.len() && contains(name@, #[trigger] bands@[j]@)),
{
    let mut j: usize = 0;
    while j < bands.len()
        invariant
            j <= bands@.len(),
            forall|q: int| 0 <= q < j ==> !contains(name@, #[trigger] bands@[q]@),
        decreases bands@.len() - j,
    {
        if str_contains(name, bands[j].as_str()) {
            return true;
        }
        j = j + 1;
    }
    false
}

/// Whether the file `name` is wanted for `ts` and `bands`.
pub fn is_wanted_file(name: &str, target_time: &Timestamp, bands: &Vec<String>) -> (r: bool)
    ensures
        r == is_wanted(name@, *target_time, tasks_view(bands@)),
{
    let stamp = target_time.format_compact();
    let any_band = bands.len() == 0 || names_any_band(name, bands);
    proof {
        let bv = tasks_view(bands@);
        if exists|j: int| 0 <= j < bands@.len() && contains(name@, #[trigger] bands@[j]@) {
            let j = choose|j: int| 0 <= j < bands@.len() && contains(name@, #[trigger] bands@[j]@);
            assert(bv[j] == bands@[j]@);
        }
        if exists|j: int| 0 <= j < bv.len() && contains(name@, #[trigger] bv[j]) {
            let j = choose|j: int| 0 <= j < bv.len() && contains(name@, #[trigger] bv[j]);
            assert(bv[j] == bands@[j]@);
        }
    }
    str_contains(name, "FLDK") && str_contains(name, stamp.as_str()) && str_ends_with(
        name,
        ".DAT.bz2",
    ) && any_band
}

/// The entries of a remote directory listing (full paths) that are wanted
/// full-disk files of `target_time` and `bands`, in listing order.
pub fn select_fldk_files(entries: &Vec<String>, target_time: &Timestamp, bands: &Vec<String>) -> (r:
    Vec<String>)
    ensures
        tasks_view(r@) == wanted_entries(tasks_view(entries@), *target_time, tasks_view(bands@)),
{
    let ghost ev = tasks_view(entries@);
    let ghost bv = tasks_view(bands@);
    let ghost pred = |e: Seq<char>| is_wanted(basename(e), *target_time, bv);
    let mut r: Vec<String> = Vec::new();
    let mut i: usize = 0;
    while i < entries.len()
        invariant
            i <= entries@.len(),
            ev == tasks_view(entries@),
            bv == tasks_view(bands@),
            pred == (|e: Seq<char>| is_wanted(basename(e), *target_time, bv)),
            tasks_view(r@) == ev.take(i as int).filter(pred),
        decreases entries@.len() - i,
    {
        let e = &entries[i];
        proof {
            reveal(Seq::filter);
            assert(ev.take(i + 1).drop_last() == ev.take(i as int));
            assert(ev.take(i + 1).last() == e@);
        }
        if is_wanted_file(path_basename(e.as_str()), target_time, bands) {
            r.push(e.clone());
            assert(tasks_view(r@) == tasks_view(r@).drop_last().push(e@));
            assert(tasks_view(r@).drop_last() =~= tasks_view(r@.drop_last()));
        }
        i = i + 1;
    }
    assert(ev.take(entries@.len() as int) == ev);
    r
}

/// The files that still need a transfer: those whose final path does not
/// already hold a non-empty file (`final_sizes[i]` is the size found at
/// the final path of `files[i]`, `None` where nothing is there).
pub open spec fn pending(files: Seq<Seq<char>>, final_sizes: Seq<Option<u64>>) -> Seq<Seq<char>>
    decreases files.len(),
{
    if files.len() == 0 || final_sizes.len() == 0 {
        Seq::empty()
    } else {
        let p = pending(files.drop_last(), final_sizes.drop_last());
        if already_complete(final_sizes.last()) {
            p
        } else {
            p.push(files.last())
        }
    }
}

/// The files that still need a transfer, in order.
pub fn pending_files(files: &Vec<String>, final_sizes: &Vec<Option<u64>>) -> (r: Vec<String>)
    requires
        files@.len() == final_sizes@.len(),
    ensures
        tasks_view(r@) == pending(tasks_view(files@), final_sizes@),
{
    let ghost fv = tasks_view(files@);
    let mut r: Vec<String> = Vec::new();
    let mut i: usize = 0;
    while i < files.len()
        invariant
            files@.len() == final_sizes@.len(),
            i <= files@.len(),
            fv == tasks_view(files@),
            tasks_view(r@) == pending(fv.take(i as int), final_sizes@.take(i as int)),
        decreases files@.len() - i,
    {
        proof {
            assert(fv.take(i + 1).drop_last() == fv.take(i as int));
            assert(final_sizes@.take(i + 1).drop_last() == final_sizes@.take(i as int));
            assert(fv.take(i + 1).last() == files@[i as int]@);
            assert(final_sizes@.take(i + 1).last() == final_sizes@[i as int]);
        }
        if !is_already_complete(final_sizes[i]) {
            r.push(files[i].clone());
            assert(tasks_view(r@) =~= tasks_view(r@.drop_last()).push(files@[i as int]@));
        }
        i = i + 1;
    }
    assert(fv.take(files@.len() as int) == fv);
    assert(final_sizes@.take(files@.len() as int) == final_sizes@);
    r
}

/// A second run over files that are all complete locally transfers
/// nothing: no file is pending, and handling them anyway only skips them,
/// which adds no download and no byte to the statistics.
pub proof fn lemma_rerun_transfers_nothing(files: Seq<Seq<char>>, final_sizes: Seq<Option<u64>>)
    requires
        files.len() == final_sizes.len(),
        forall|i: int| 0 <= i < final_sizes.len() ==> already_complete(#[trigger] final_sizes[i]),
    ensures
        pending(files, final_sizes).len() == 0,
        tally(Seq::new(files.len(), |i: int| FileOutcome::Skipped)) == (
            0nat,
            files.len(),
            0nat,
            0nat,
        ),
    decreases files.len(),
{
    if files.len() > 0 {
        let fs = final_sizes.drop_last();
        assert forall|i: int| 0 <= i < fs.len() implies already_complete(#[trigger] fs[i]) by {
            assert(fs[i] == final_sizes[i]);
        }
        lemma_rerun_transfers_nothing(files.drop_last(), fs);
        assert(already_complete(final_sizes[final_sizes.len() - 1]));
        let all = Seq::new(files.len(), |i: int| FileOutcome::Skipped);
        assert(all.drop_last() =~= Seq::new(files.drop_last().len(), |i: int| FileOutcome::Skipped));
    } else {
        assert(Seq::new(files.len(), |i: int| FileOutcome::Skipped).len() == 0);
    }
}

} // verus!
