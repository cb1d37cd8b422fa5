use chrono::{Datelike, NaiveDate};
use versalogrs::text::{decimal_text, is_log_file_name, remove_all};
use versalogrs::{
    expired_logs, is_expired_log, log_entry, log_file_name, today_log_file_name, NewVersaLog,
};

fn day(y: i32, m: u32, d: u32) -> i32 {
    NaiveDate::from_ymd_opt(y, m, d).unwrap().num_days_from_ce()
}

#[test]
fn decimal_numbers() {
    assert_eq!(decimal_text(0), "0");
    assert_eq!(decimal_text(7), "7");
    assert_eq!(decimal_text(10), "10");
    assert_eq!(decimal_text(4294967295), "4294967295");
    assert_eq!(decimal_text(u64::MAX), u64::MAX.to_string());
}

#[test]
fn removing_every_occurrence() {
    assert_eq!(remove_all("2024-01-01.log", ".log"), "2024-01-01");
    assert_eq!(remove_all("a.log.log", ".log"), "a");
    assert_eq!(remove_all(".lo.log", ".log"), ".lo");
    assert_eq!(remove_all("plain", ".log"), "plain");
    assert_eq!(remove_all("aaa", ""), "aaa");
    assert_eq!(remove_all("aaaa", "aa"), "");
    assert_eq!(remove_all("héllo.log", ".log"), "héllo");
}

#[test]
fn log_file_names() {
    assert!(is_log_file_name("2024-01-01.log"));
    assert!(is_log_file_name("a.log"));
    assert!(is_log_file_name("..log"));
    assert!(!is_log_file_name(".log"));
    assert!(!is_log_file_name("log"));
    assert!(!is_log_file_name("a.txt"));
    assert!(!is_log_file_name("a.log.txt"));
    assert!(!is_log_file_name("a.LOG"));
}

#[test]
fn day_file_name_and_entry() {
    assert_eq!(log_file_name("2024-05-01"), "2024-05-01.log");
    assert_eq!(log_entry("[+] x"), "[+] x\n");
    let today = today_log_file_name();
    assert_eq!(today.len(), "2024-05-01.log".len());
    assert!(today.ends_with(".log"));
    assert!(NaiveDate::parse_from_str(&today[..10], "%Y-%m-%d").is_ok());
    assert_ne!(today, ".log");
}

#[test]
fn expiry_of_old_files() {
    let today = day(2020, 1, 10);
    assert!(is_expired_log("2020-01-01.log", today, 7));
    assert!(is_expired_log("2020-01-03.log", today, 7));
    assert!(!is_expired_log("2020-01-04.log", today, 7));
    assert!(!is_expired_log("2020-01-10.log", today, 7));
    assert!(!is_expired_log("2020-01-01.txt", today, 7));
    assert!(!is_expired_log("notes.log", today, 7));
    assert!(!is_expired_log("2020-02-30.log", today, 7));
    assert!(is_expired_log("2019-12-31.log", today, 10));
    assert!(!is_expired_log("2019-12-31.log", today, 11));
}

#[test]
fn file_written_today_is_kept() {
    let today = day(2021, 3, 4);
    let name = log_file_name("2021-03-04");
    assert!(!is_expired_log(&name, today, 1));
    assert!(is_expired_log(&name, today, 0));
}

#[test]
fn expired_positions_in_order() {
    let today = day(2020, 1, 10);
    let names = vec![
        "2020-01-09.log".to_string(),
        "2019-01-01.log".to_string(),
        "readme.md".to_string(),
        "2020-01-01.log".to_string(),
    ];
    assert_eq!(expired_logs(&names, today, 7), vec![1, 3]);
    assert_eq!(expired_logs(&vec![], today, 7), Vec::<usize>::new());
}

#[test]
fn cleanup_of_directory_listing() {
    let logger = NewVersaLog("simple", false, false, "V", false, false, false, vec![], false);
    let names = vec!["1999-01-01.log".to_string(), "other".to_string()];
    let (today, expired) = logger.cleanup_old_logs(&names, 7);
    assert_eq!(expired, vec![0]);
    assert_eq!(today, chrono::Local::now().date_naive().num_days_from_ce());
}

#[test]
fn cleanup_messages() {
    let mut logger = NewVersaLog("simple", false, false, "V", false, false, false, vec![], false);
    assert_eq!(
        logger.cleanup_notice("log/a.log", None).unwrap(),
        "[LOG CLEANUP] removed: log/a.log"
    );
    assert_eq!(
        logger.cleanup_notice("log/a.log", Some("denied")).unwrap(),
        "[LOG CLEANUP WARNING] log/a.log cannot be removed: denied"
    );
    logger.set_silent(true);
    assert!(logger.cleanup_notice("log/a.log", None).is_none());
}
