use himawari_hsd_downloader::text::{split_fields, str_contains, str_ends_with};
use himawari_hsd_downloader::{
    expected_filename, get_remote_directory_path, is_already_complete, pending_files,
    partition_tasks, plan_resume, select_fldk_files, start_run, visible_bands, worker_partitions,
    Config, RunStart,
    DownloadConfig, DownloadError, DownloadStats, DownloadStatus, FileDownloadRecord, FileOutcome,
    LocalFileStorage, ServerConfig, Timestamp, WorkerSession,
};

const NAME: &str = "HS_H09_20250717_0900_B03_FLDK_R05_S0101.DAT.bz2";

fn ts(y: u32, mo: u32, d: u32, h: u32, mi: u32) -> Timestamp {
    Timestamp::new(y, mo, d, h, mi).unwrap()
}

fn strings(v: &[&str]) -> Vec<String> {
    v.iter().map(|s| s.to_string()).collect()
}

#[test]
fn local_path_organized_by_time() {
    let storage = LocalFileStorage::new("./himawari_data");
    let remote = format!("/jma/hsd/202507/17/09/{}", NAME);
    assert_eq!(
        storage.generate_local_path(&remote),
        format!("./himawari_data/2025/07/17/09/{}", NAME)
    );
}

#[test]
fn local_path_flat_when_not_organized() {
    let storage = LocalFileStorage::new("data/").with_time_organization(false);
    assert_eq!(storage.generate_local_path(&format!("/x/{}", NAME)), format!("data/{}", NAME));
}

#[test]
fn local_path_falls_back_on_malformed_name() {
    let storage = LocalFileStorage::new("base");
    assert_eq!(storage.generate_local_path("/r/HS_H09_2025071_0900_B03.DAT"), "base/HS_H09_2025071_0900_B03.DAT");
    assert_eq!(storage.generate_local_path("/r/HS_H09_2025AB17_0900_B03.DAT"), "base/HS_H09_2025AB17_0900_B03.DAT");
    assert_eq!(storage.generate_local_path("short_name.bin"), "base/short_name.bin");
}

#[test]
fn local_path_mirrors_remote_structure() {
    let storage = LocalFileStorage::new("base").with_original_structure(true);
    assert_eq!(
        storage.generate_local_path(&format!("/jma/hsd/{}", NAME)),
        format!("base/jma/hsd/{}", NAME)
    );
}

#[test]
fn local_path_is_deterministic() {
    let storage = LocalFileStorage::new("d");
    let remote = format!("/a/{}", NAME);
    assert_eq!(storage.generate_local_path(&remote), storage.generate_local_path(&remote));
}

#[test]
fn temp_path_appends_suffix() {
    let storage = LocalFileStorage::new("d");
    assert_eq!(storage.generate_temp_path("d/x.bz2"), "d/x.bz2.downloading");
    let storage = storage.with_temp_suffix(".part");
    assert_eq!(storage.generate_temp_path("d/x.bz2"), "d/x.bz2.part");
    assert!(storage.is_incomplete_download("x.bz2.part"));
    assert!(!storage.is_incomplete_download("x.bz2"));
}

#[test]
fn parse_filename_components() {
    let storage = LocalFileStorage::new("d");
    let p = storage.parse_filename(NAME).unwrap();
    assert_eq!((p.year.as_str(), p.month.as_str(), p.day.as_str(), p.hour.as_str()), ("2025", "07", "17", "09"));
    assert!(storage.parse_filename("HS_H09_20250717").is_none());
    assert!(storage.parse_filename("HS_H09_20250717_09000_B03").is_none());
}

#[test]
fn split_fields_like_str_split() {
    let f = split_fields("a__b_", '_');
    assert_eq!(f, vec!["a", "", "b", ""]);
    assert_eq!(split_fields("", '_'), vec![""]);
    assert!(str_contains("abcde", "cd"));
    assert!(!str_contains("abcde", "ce"));
    assert!(str_contains("abc", ""));
    assert!(str_ends_with("x.DAT.bz2", ".DAT.bz2"));
    assert!(!str_ends_with("bz2", ".DAT.bz2"));
}

#[test]
fn timestamp_forms() {
    let t = ts(2025, 7, 17, 9, 0);
    assert_eq!(t.format_compact(), "20250717_0900");
    assert_eq!(get_remote_directory_path("/jma/hsd/", &t), "/jma/hsd/202507/17/09/");
    assert!(Timestamp::new(2025, 13, 1, 0, 0).is_none());
    assert!(Timestamp::new(2025, 1, 1, 24, 0).is_none());
    assert!(Timestamp::new(10000, 1, 1, 0, 0).is_none());
}

#[test]
fn expected_filename_follows_grammar() {
    assert_eq!(expected_filename(&ts(2025, 7, 17, 9, 0), "B03"), NAME);
}

#[test]
fn resume_from_shorter_temp_file() {
    // remote size 1000, temp size 400: resume at 400 and end at 1000.
    let storage = LocalFileStorage::new("d");
    let mut rec = FileDownloadRecord::new(&storage, NAME);
    assert_eq!(rec.status, DownloadStatus::NotStarted);
    assert!(!rec.check_existing(None));
    let plan = rec.begin_attempt(Some(1000), Some(400));
    assert_eq!(plan.offset, 400);
    assert!(!plan.discard_temp);
    assert_eq!(rec.downloaded_size, 400);
    rec.add_chunk(300);
    rec.add_chunk(300);
    assert_eq!(rec.finish_stream(), Ok(1000));
    assert_eq!(rec.mark_completed(), 1000);
    assert_eq!(rec.status, DownloadStatus::Completed);
    assert_eq!(rec.temp_path, format!("{}.downloading", rec.local_path));
}

#[test]
fn restart_when_temp_not_shorter() {
    let plan = plan_resume(1000, Some(1000));
    assert_eq!((plan.offset, plan.discard_temp), (0, true));
    let plan = plan_resume(1000, Some(1500));
    assert_eq!((plan.offset, plan.discard_temp), (0, true));
    let plan = plan_resume(1000, None);
    assert_eq!((plan.offset, plan.discard_temp), (0, false));
}

#[test]
fn resumed_bytes_equal_single_pass() {
    let remote: Vec<u8> = (0..1000u32).map(|i| (i * 7 % 251) as u8).collect();
    let temp = remote[..400].to_vec();
    let plan = plan_resume(remote.len() as u64, Some(temp.len() as u64));
    let mut local = if plan.discard_temp { Vec::new() } else { temp[..plan.offset as usize].to_vec() };
    local.extend_from_slice(&remote[plan.offset as usize..]);
    assert_eq!(local, remote);
}

#[test]
fn existing_final_file_is_skipped() {
    let storage = LocalFileStorage::new("d");
    let mut rec = FileDownloadRecord::new(&storage, NAME);
    assert!(rec.check_existing(Some(5)));
    assert_eq!(rec.status, DownloadStatus::Completed);
    assert_eq!(rec.downloaded_size, 0);
    let mut w = WorkerSession::new(strings(&[NAME]));
    w.record_outcome(FileOutcome::Skipped);
    assert_eq!(w.stats.skipped_files, 1);
    assert_eq!(w.stats.total_bytes, 0);
    assert_eq!(w.stats.downloaded_files, 0);
}

#[test]
fn empty_final_file_is_not_complete() {
    assert!(!is_already_complete(Some(0)));
    assert!(!is_already_complete(None));
    assert!(is_already_complete(Some(1)));
}

#[test]
fn size_mismatch_is_reported() {
    let storage = LocalFileStorage::new("d");
    let mut rec = FileDownloadRecord::new(&storage, NAME);
    rec.begin_attempt(Some(10), None);
    rec.add_chunk(7);
    assert_eq!(rec.finish_stream(), Err(DownloadError::SizeMismatch { expected: 10, actual: 7 }));
}

#[test]
fn unknown_remote_size_expects_zero_bytes() {
    let storage = LocalFileStorage::new("d");
    let mut rec = FileDownloadRecord::new(&storage, NAME);
    let plan = rec.begin_attempt(None, Some(3));
    assert_eq!((plan.offset, plan.discard_temp), (0, true));
    assert_eq!(rec.finish_stream(), Ok(0));
}

#[test]
fn retry_budget_is_exhausted_exactly() {
    let storage = LocalFileStorage::new("d");
    let mut rec = FileDownloadRecord::new(&storage, NAME);
    let mut attempts = 0;
    loop {
        rec.begin_attempt(Some(10), None);
        attempts += 1;
        if !rec.fail_attempt(DownloadError::Read, 3) {
            break;
        }
    }
    assert_eq!(attempts, 3);
    assert_eq!(rec.retry_count, 3);
    assert_eq!(rec.status, DownloadStatus::Failed);
    assert_eq!(rec.last_error, Some(DownloadError::Read));
}

#[test]
fn local_io_error_is_not_retried() {
    let storage = LocalFileStorage::new("d");
    let mut rec = FileDownloadRecord::new(&storage, NAME);
    rec.begin_attempt(Some(10), None);
    assert!(!rec.fail_attempt(DownloadError::LocalIo, 3));
    assert_eq!(rec.retry_count, 1);
}

#[test]
fn failed_file_leaves_other_counters_alone() {
    let mut w = WorkerSession::new(strings(&["a", "b", "c"]));
    assert_eq!(w.current_task().map(|s| s.as_str()), Some("a"));
    w.record_outcome(FileOutcome::Downloaded(100));
    w.record_outcome(FileOutcome::Failed { error: DownloadError::Read, attempts: 3 });
    w.record_outcome(FileOutcome::Downloaded(50));
    assert!(w.current_task().is_none());
    assert_eq!(w.stats.total_files, 3);
    assert_eq!(w.stats.downloaded_files, 2);
    assert_eq!(w.stats.failed_files, 1);
    assert_eq!(w.stats.skipped_files, 0);
    assert_eq!(w.stats.total_bytes, 150);
}

#[test]
fn connection_failure_fails_whole_partition() {
    let mut w = WorkerSession::new(strings(&["a", "b", "c", "d"]));
    w.fail_all(DownloadError::Auth);
    assert_eq!(w.stats.failed_files, 4);
    assert_eq!(w.stats.downloaded_files + w.stats.skipped_files, 0);
    assert!(w.current_task().is_none());
    for o in &w.outcomes {
        assert_eq!(*o, FileOutcome::Failed { error: DownloadError::Auth, attempts: 0 });
    }
}

#[test]
fn round_robin_ten_over_four() {
    let tasks: Vec<String> = (0..10).map(|i| i.to_string()).collect();
    let parts = partition_tasks(&tasks, 4).unwrap();
    let sizes: Vec<usize> = parts.iter().map(|p| p.len()).collect();
    assert_eq!(sizes, vec![3, 3, 2, 2]);
    assert_eq!(parts[0], strings(&["0", "4", "8"]));
    assert_eq!(parts[1], strings(&["1", "5", "9"]));
    assert_eq!(parts[2], strings(&["2", "6"]));
    assert_eq!(parts[3], strings(&["3", "7"]));
}

#[test]
fn partition_covers_each_task_once() {
    let tasks: Vec<String> = (0..23).map(|i| i.to_string()).collect();
    for w in 1..9 {
        let parts = partition_tasks(&tasks, w).unwrap();
        assert_eq!(parts.len(), w);
        let mut all: Vec<usize> = parts.iter().flatten().map(|s| s.parse().unwrap()).collect();
        all.sort();
        assert_eq!(all, (0..23).collect::<Vec<usize>>());
        let max = parts.iter().map(|p| p.len()).max().unwrap();
        let min = parts.iter().map(|p| p.len()).min().unwrap();
        assert!(max - min <= 1);
    }
}

#[test]
fn zero_workers_is_rejected() {
    assert_eq!(partition_tasks(&strings(&["a"]), 0), Err(DownloadError::PartitionConfig));
    assert_eq!(worker_partitions(&Vec::new(), 0), Err(DownloadError::PartitionConfig));
}

#[test]
fn run_start_decisions() {
    assert_eq!(start_run(0, 0), Err(DownloadError::PartitionConfig));
    assert_eq!(start_run(5, 0), Err(DownloadError::PartitionConfig));
    assert_eq!(start_run(0, 4), Ok(RunStart::NoWork));
    assert_eq!(start_run(5, 4), Ok(RunStart::Proceed));
}

#[test]
fn empty_task_list_starts_no_worker() {
    let ws = worker_partitions(&Vec::new(), 4).unwrap();
    assert!(ws.is_empty());
    let stats = DownloadStats::new();
    assert_eq!(
        (stats.total_files, stats.downloaded_files, stats.skipped_files, stats.failed_files, stats.total_bytes),
        (0, 0, 0, 0, 0)
    );
}

#[test]
fn fewer_tasks_than_workers() {
    let ws = worker_partitions(&strings(&["a", "b"]), 4).unwrap();
    assert_eq!(ws, vec![strings(&["a"]), strings(&["b"])]);
}

#[test]
fn stats_merge_and_throughput() {
    let mut total = DownloadStats::new();
    let mut a = DownloadStats::new();
    a.total_files = 3;
    a.downloaded_files = 2;
    a.failed_files = 1;
    a.total_bytes = 4000;
    let mut b = DownloadStats::new();
    b.total_files = 2;
    b.skipped_files = 2;
    total.merge(&a);
    total.merge(&b);
    assert_eq!((total.total_files, total.downloaded_files, total.skipped_files, total.failed_files, total.total_bytes), (5, 2, 2, 1, 4000));
    assert_eq!(total.throughput(), None);
    total.elapsed_ms = 999;
    assert_eq!(total.throughput(), None);
    total.elapsed_ms = 2500;
    assert_eq!(total.throughput(), Some(2000));
}

#[test]
fn audit_reports_every_pair() {
    let storage = LocalFileStorage::new("d");
    let times = vec![ts(2025, 7, 17, 9, 0), ts(2025, 7, 17, 9, 10)];
    let bands = strings(&["B01", "B02", "B03"]);
    let targets = storage.completeness_targets(&times, &bands);
    assert_eq!(targets.len(), 2);
    assert_eq!(targets[0][2], format!("d/2025/07/17/09/{}", NAME));
    let sizes = vec![vec![Some(10), None, Some(0)], vec![None, None, Some(7)]];
    let report = storage.check_band_completeness(&times, &bands, &sizes);
    let entries: usize = report.time_slots.iter().map(|s| s.bands.len()).sum();
    assert_eq!(entries, 6);
    assert_eq!(report.time_slots[1].datetime, times[1]);
    let e = &report.time_slots[0].bands[0];
    assert!(e.exists && e.size == 10 && e.band == "B01");
    let e = &report.time_slots[0].bands[1];
    assert!(!e.exists && e.size == 0);
    let e = &report.time_slots[0].bands[2];
    assert!(e.exists && e.size == 0);
    assert_eq!(report.time_slots[1].bands[2].path, targets[1][2]);
}

#[test]
fn listing_selection() {
    let t = ts(2025, 7, 17, 9, 0);
    let entries = strings(&[
        "/r/HS_H09_20250717_0900_B01_FLDK_R10_S0101.DAT.bz2",
        "/r/HS_H09_20250717_0900_B04_FLDK_R10_S0101.DAT.bz2",
        "/r/HS_H09_20250717_0900_B03_JP01_R05_S0101.DAT.bz2",
        "/r/HS_H09_20250717_0910_B03_FLDK_R05_S0101.DAT.bz2",
        "/r/HS_H09_20250717_0900_B03_FLDK_R05_S0101.DAT",
        "/r/HS_H09_20250717_0900_B03_FLDK_R05_S0110.DAT.bz2",
    ]);
    let picked = select_fldk_files(&entries, &t, &visible_bands());
    assert_eq!(picked, vec![entries[0].clone(), entries[5].clone()]);
    let all = select_fldk_files(&entries, &t, &Vec::new());
    assert_eq!(all, vec![entries[0].clone(), entries[1].clone(), entries[5].clone()]);
}

#[test]
fn second_run_has_nothing_pending() {
    let files = strings(&["a", "b", "c"]);
    assert_eq!(pending_files(&files, &vec![Some(1), None, Some(0)]), strings(&["b", "c"]));
    assert!(pending_files(&files, &vec![Some(1), Some(2), Some(3)]).is_empty());
}

#[test]
fn visible_bands_list() {
    assert_eq!(visible_bands(), strings(&["B01", "B02", "B03"]));
}

fn config(host: &str, user: &str, pass: &str, threads: usize) -> Config {
    Config {
        server: ServerConfig {
            host: host.to_string(),
            username: user.to_string(),
            password: pass.to_string(),
            port: 2222,
        },
        download: DownloadConfig {
            num_threads: threads,
            base_path: "b".to_string(),
            organize_by_time: true,
            keep_original_structure: false,
        },
    }
}

#[test]
fn config_validation() {
    assert_eq!(config("h", "u", "p", 1).validate(), Ok(()));
    assert_eq!(config("", "u", "p", 1).validate(), Err("服务器地址不能为空".to_string()));
    assert_eq!(config("h", "", "", 0).validate(), Err("用户名不能为空".to_string()));
    assert_eq!(config("h", "u", "", 0).validate(), Err("密码不能为空".to_string()));
    assert_eq!(config("h", "u", "p", 0).validate(), Err("线程数必须大于0".to_string()));
}

#[test]
fn config_host_with_port() {
    assert_eq!(config("example.org", "u", "p", 1).get_host_with_port(), "example.org:2222");
    let d = Config::default();
    assert_eq!(d.get_host_with_port(), "your_server.com:22");
    assert_eq!(d.download.num_threads, 4);
    assert_eq!(d.download.base_path, "./himawari_data");
}

#[test]
fn config_from_answers_defaults() {
    let c = Config::from_answers("h", "", "u", "p", "", "").unwrap();
    assert_eq!(c.server.port, 22);
    assert_eq!(c.download.num_threads, 4);
    assert_eq!(c.download.base_path, "./himawari_data");
    assert!(c.download.organize_by_time && !c.download.keep_original_structure);
    assert_eq!((c.server.host.as_str(), c.server.username.as_str(), c.server.password.as_str()), ("h", "u", "p"));
}

#[test]
fn config_from_answers_parses_numbers() {
    let c = Config::from_answers("h", "2222", "u", "p", "+8", "/data").unwrap();
    assert_eq!(c.server.port, 2222);
    assert_eq!(c.download.num_threads, 8);
    assert_eq!(c.download.base_path, "/data");
}

#[test]
fn config_from_answers_rejects_bad_numbers() {
    assert_eq!(Config::from_answers("h", "70000", "u", "p", "", "").err(), Some("无效的端口号".to_string()));
    assert_eq!(Config::from_answers("h", "-1", "u", "p", "", "").err(), Some("无效的端口号".to_string()));
    assert_eq!(Config::from_answers("h", "22", "u", "p", "four", "").err(), Some("无效的线程数".to_string()));
    assert_eq!(Config::from_answers("h", "x", "u", "p", "four", "").err(), Some("无效的端口号".to_string()));
}

#[test]
fn local_path_ignores_trailing_slash() {
    let storage = LocalFileStorage::new("base");
    assert_eq!(storage.generate_local_path("a/b/"), "base/b");
    assert_eq!(storage.generate_local_path(&format!("/r/{}//", NAME)), format!("base/2025/07/17/09/{}", NAME));
}
