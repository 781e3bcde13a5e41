//! Download orchestration engine for partitioned satellite data files:
//! local path resolution, resumable transfer planning, retry policy,
//! task partitioning, completeness auditing and statistics aggregation.
//!
//! All network and filesystem access is performed by the caller; this crate
//! decides what to do and proves that the decisions keep the invariants.

mod audit;
mod config;
mod listing;
mod orchestrate;
mod partition;
mod paths;
mod stats;
pub mod text;
mod timestamp;
mod transfer;
mod worker;

pub use audit::{
    entry_count, expected_filename, expected_name, lemma_report_entries, sizes_shape,
    BandCompletenessReport, BandStatus, TimeSlotReport,
};
pub use config::{
    digit_value, digits_value, unsigned_text_value, Config, DownloadConfig, ServerConfig,
};
pub use listing::{
    is_wanted, is_wanted_file, lemma_rerun_transfers_nothing, pending, pending_files,
    select_fldk_files, wanted_entries,
};
pub use orchestrate::{start_run, visible_bands, worker_partitions, RunStart};
pub use partition::{
    is_round_robin, lemma_round_robin_exact, partition_tasks, parts_view, placed, share_len,
    slot_index, tasks_view,
};
pub use paths::{filename_parts, FilenameParts, LocalFileStorage};
pub use stats::DownloadStats;
pub use timestamp::{get_remote_directory_path, remote_directory, Timestamp};
pub use transfer::{
    already_complete, is_already_complete, kept_prefix, lemma_resume_reconstructs,
    lemma_retry_budget, plan_resume, resume_plan, retry_allowed, DownloadError, DownloadStatus,
    FileDownloadRecord, ResumePlan,
};
pub use worker::{lemma_tally_append, lemma_tally_counts, tally, FileOutcome, WorkerSession};
