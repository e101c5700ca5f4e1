use bvs_core::logs::{excess_log_files, is_log_file_name, log_file_name, log_stamp};
use bvs_core::platform::{pick_worker_core, LogLines};

#[test]
fn log_lines_come_out_when_complete() {
    let mut log = LogLines::new();
    assert!(log.write(b"first par").is_empty());
    assert_eq!(log.write(b"t  \nsecond\nthi"), vec!["first part".to_string(), "second".to_string()]);
    assert_eq!(log.write(b"rd\r\n"), vec!["third".to_string()]);
    assert_eq!(log.flush(), None);
}

#[test]
fn log_flush_gives_the_unfinished_line() {
    let mut log = LogLines::new();
    assert!(log.write(b"no end ").is_empty());
    assert_eq!(log.flush(), Some("no end ".to_string()));
    assert_eq!(log.flush(), None);
}

#[test]
fn log_lines_are_read_leniently() {
    let mut log = LogLines::new();
    assert_eq!(log.write(b"a\xffb\n\n"), vec!["a\u{fffd}b".to_string(), String::new()]);
}

#[test]
fn worker_core_avoids_the_main_core() {
    assert_eq!(pick_worker_core(0b0111, 0), Some(1));
    assert_eq!(pick_worker_core(0b0111, 1), Some(0));
    assert_eq!(pick_worker_core(0b0001, 0), None);
    assert_eq!(pick_worker_core(0, -1), None);
    assert_eq!(pick_worker_core(1u64 << 63, -1), Some(63));
}

#[test]
fn log_files_are_named_bvs_dash_and_end_in_log() {
    assert!(is_log_file_name("bvs-2024.01.02-03.04.05.log"));
    assert!(is_log_file_name("bvs-.log"));
    assert!(!is_log_file_name("bvs.log"));
    assert!(!is_log_file_name("bvs-2024.txt"));
    assert!(!is_log_file_name("old-bvs-1.log"));
    assert!(!is_log_file_name(""));
}

#[test]
fn at_most_ten_logs_are_kept_with_the_new_one() {
    assert_eq!(excess_log_files(0), 0);
    assert_eq!(excess_log_files(9), 0);
    assert_eq!(excess_log_files(10), 1);
    assert_eq!(excess_log_files(15), 6);
}

#[test]
fn log_stamps_and_names() {
    assert_eq!(log_stamp(2024, 1, 2, 3, 4, 5), "2024.01.02-03.04.05");
    assert_eq!(log_stamp(2024, 12, 31, 23, 59, 59), format!("{:04}.{:02}.{:02}-{:02}.{:02}.{:02}", 2024, 12, 31, 23, 59, 59));
    assert_eq!(log_stamp(-5, 1, 1, 0, 0, 0), format!("{:04}.{:02}.{:02}-{:02}.{:02}.{:02}", -5, 1, 1, 0, 0, 0));
    assert_eq!(log_stamp(-5, 1, 1, 0, 0, 0), "-005.01.01-00.00.00");
    assert_eq!(log_stamp(12345, 6, 7, 8, 9, 10), "12345.06.07-08.09.10");
    assert_eq!(log_file_name("2024.01.02-03.04.05", None), "bvs-2024.01.02-03.04.05.log");
    assert_eq!(log_file_name("2024.01.02-03.04.05", Some(4321)), "bvs-2024.01.02-03.04.05-4321.log");
}

#[test]
fn new_log_files_count_among_the_logs() {
    let stamp = log_stamp(2025, 3, 4, 5, 6, 7);
    assert!(is_log_file_name(&log_file_name(&stamp, None)));
    assert!(is_log_file_name(&log_file_name(&stamp, Some(17))));
}
