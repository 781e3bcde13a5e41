//! Completeness audit: for each (timestamp, band) pair, the expected file,
//! where it lands locally, and whether it is there.
use vstd::prelude::*;
use vstd::string::*;
use crate::paths::LocalFileStorage;
use crate::timestamp::Timestamp;

verus! {

/// The name of the first full-disk segment file of `band` at `ts`:
/// `HS_H09_YYYYMMDD_HHMM_<band>_FLDK_R05_S0101.DAT.bz2`.
pub open spec fn expected_name(ts: Timestamp, band: Seq<char>) -> Seq<char> {
    "HS_H09_"@ + ts.compact() + "_"@ + band + "_FLDK_R05_S0101.DAT.bz2"@
}

pub fn expected_filename(datetime: &Timestamp, band: &str) -> (r: String)
    ensures
        r@ == expected_name(*datetime, band@),
{
    let mut out = String::from_str("HS_H09_");
    out.append(datetime.format_compact().as_str());
    out.append("_");
    out.append(band);
    out.append("_FLDK_R05_S0101.DAT.bz2");
    out
}

/// Presence of one band's file at one timestamp.
#[derive(Debug, Clone)]
pub struct BandStatus {
    pub band: String,
    pub exists: bool,
    pub size: u64,
    pub path: String,
}

/// The bands of one timestamp.
#[derive(Debug, Clone)]
pub struct TimeSlotReport {
    pub datetime: Timestamp,
    pub bands: Vec<BandStatus>,
}

/// The audit of a set of timestamps against a set of bands.
#[derive(Debug, Clone)]
pub struct BandCompletenessReport {
    pub time_slots: Vec<TimeSlotReport>,
}

/// The number of entries over all time slots.
pub open spec fn entry_count(slots: Seq<TimeSlotReport>) -> nat
    decreases slots.len(),
{
    if slots.len() == 0 {
        0
    } else {
        entry_count(slots.drop_last()) + slots.last().bands@.len()
    }
}

/// `local_sizes` has one row per timestamp and one entry per band.
pub open spec fn sizes_shape(local_sizes: Seq<Vec<Option<u64>>>, nt: nat, nb: nat) -> bool {
    &&& local_sizes.len() == nt
    &&& forall|i: int| 0 <= i < nt ==> (#[trigger] local_sizes[i])@.len() == nb
}

impl BandCompletenessReport {
    pub fn new() -> (r: BandCompletenessReport)
        ensures
            r.time_slots@.len() == 0,
    {
        BandCompletenessReport { time_slots: Vec::new() }
    }
}

impl LocalFileStorage {
    /// The local paths to examine: row `i`, entry `j` is where the expected
    /// file of `download_list[i]` and `bands[j]` lands.
    pub fn completeness_targets(&self, download_list: &Vec<Timestamp>, bands: &Vec<String>) -> (r:
        Vec<Vec<String>>)
        ensures
            r@.len() == download_list@.len(),
            forall|i: int|
                0 <= i < r@.len() ==> (#[trigger] r@[i])@.len() == bands@.len(),
            forall|i: int, j: int|
                0 <= i < r@.len() && 0 <= j < bands@.len() ==> (#[trigger] r@[i]@[j])@
                    == self.local_path(expected_name(download_list@[i], bands@[j]@)),
    {
        let mut r: Vec<Vec<String>> = Vec::new();
        let mut i: usize = 0;
        while i < download_list.len()
            invariant
                i <= download_list@.len(),
                r@.len() == i,
                forall|q: int| 0 <= q < i ==> (#[trigger] r@[q])@.len() == bands@.len(),
                forall|q: int, j: int|
                    0 <= q < i && 0 <= j < bands@.len() ==> (#[trigger] r@[q]@[j])@
                        == self.local_path(expected_name(download_list@[q], bands@[j]@)),
            decreases download_list@.len() - i,
        {
            let mut row: Vec<String> = Vec::new();
            let mut j: usize = 0;
            while j < bands.len()
                invariant
                    i < download_list@.len(),
                    j <= bands@.len(),
                    row@.len() == j,
                    forall|k: int|
                        0 <= k < j ==> (#[trigger] row@[k])@ == self.local_path(
                            expected_name(download_list@[i as int], bands@[k]@),
                        ),
                decreases bands@.len() - j,
            {
                let name = expected_filename(&download_list[i], bands[j].as_str());
                row.push(self.generate_local_path(name.as_str()));
                j = j + 1;
            }
            r.push(row);
            i = i + 1;
        }
        r
    }

    /// Builds the report from the sizes found at the target paths
    /// (`local_sizes[i][j]`, `None` where no file exists). A missing file is
    /// reported absent with size zero; one entry per (timestamp, band) pair.
    pub fn check_band_completeness(
        &self,
        download_list: &Vec<Timestamp>,
        bands: &Vec<String>,
        local_sizes: &Vec<Vec<Option<u64>>>,
    ) -> (r: BandCompletenessReport)
        requires
            sizes_shape(local_sizes@, download_list@.len(), bands@.len()),
        ensures
            r.time_slots@.len() == download_list@.len(),
            forall|i: int|
                0 <= i < r.time_slots@.len() ==> (#[trigger] r.time_slots@[i]).datetime
                    == download_list@[i] && r.time_slots@[i].bands@.len() == bands@.len(),
            forall|i: int, j: int|
                0 <= i < r.time_slots@.len() && 0 <= j < bands@.len() ==> {
                    let e = #[trigger] r.time_slots@[i].bands@[j];
                    &&& e.band@ == bands@[j]@
                    &&& e.exists == local_sizes@[i]@[j] is Some
                    &&& e.size == match local_sizes@[i]@[j] {
                        Some(k) => k,
                        None => 0,
                    }
                    &&& e.path@ == self.local_path(expected_name(download_list@[i], bands@[j]@))
                },
    {
        let mut report = BandCompletenessReport::new();
        let mut i: usize = 0;
        while i < download_list.len()
            invariant
                sizes_shape(local_sizes@, download_list@.len(), bands@.len()),
                i <= download_list@.len(),
                report.time_slots@.len() == i,
                forall|q: int|
                    0 <= q < i ==> (#[trigger] report.time_slots@[q]).datetime == download_list@[q]
                        && report.time_slots@[q].bands@.len() == bands@.len(),
                forall|q: int, j: int|
                    0 <= q < i && 0 <= j < bands@.len() ==> {
                        let e = #[trigger] report.time_slots@[q].bands@[j];
                        &&& e.band@ == bands@[j]@
                        &&& e.exists == local_sizes@[q]@[j] is Some
                        &&& e.size == match local_sizes@[q]@[j] {
                            Some(k) => k,
                            None => 0,
                        }
                        &&& e.path@ == self.local_path(
                            expected_name(download_list@[q], bands@[j]@),
                        )
                    },
            decreases download_list@.len() - i,
        {
            let datetime = download_list[i];
            let row = &local_sizes[i];
            assert(row@.len() == bands@.len());
            let mut slot = TimeSlotReport { datetime, bands: Vec::new() };
            let mut j: usize = 0;
            while j < bands.len()
                invariant
                    i < download_list@.len(),
                    datetime == download_list@[i as int],
                    row == local_sizes@[i as int],
                    row@.len() == bands@.len(),
                    slot.datetime == datetime,
                    j <= bands@.len(),
                    slot.bands@.len() == j,
                    forall|k: int|
                        0 <= k < j ==> {
                            let e = #[trigger] slot.bands@[k];
                            &&& e.band@ == bands@[k]@
                            &&& e.exists == row@[k] is Some
                            &&& e.size == match row@[k] {
                                Some(s) => s,
                                None => 0,
                            }
                            &&& e.path@ == self.local_path(expected_name(datetime, bands@[k]@))
                        },
                decreases bands@.len() - j,
            {
                let name = expected_filename(&datetime, bands[j].as_str());
                let path = self.generate_local_path(name.as_str());
                let (exists, size) = match row[j] {
                    Some(s) => (true, s),
                    None => (false, 0),
                };
                slot.bands.push(BandStatus { band: bands[j].clone(), exists, size, path });
                j = j + 1;
            }
            report.time_slots.push(slot);
            i = i + 1;
        }
        report
    }
}

/// The audit reports exactly one entry per (timestamp, band) pair.
pub proof fn lemma_report_entries(slots: Seq<TimeSlotReport>, nb: nat)
    requires
        forall|i: int| 0 <= i < slots.len() ==> (#[trigger] slots[i]).bands@.len() == nb,
    ensures
        entry_count(slots) == slots.len() * nb,
    decreases slots.len(),
{
    if slots.len() > 0 {
        let s = slots.drop_last();
        assert forall|i: int| 0 <= i < s.len() implies (#[trigger] s[i]).bands@.len() == nb by {
            assert(s[i] == slots[i]);
        }
        lemma_report_entries(s, nb);
        assert(slots.last() == slots[slots.len() - 1]);
        assert(s.len() * nb + nb == slots.len() * nb) by (nonlinear_arith)
            requires
                s.len() + 1 == slots.len(),
        ;
    }
}

} // verus!
