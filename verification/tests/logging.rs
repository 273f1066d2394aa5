use renxin_core::archive::{
    build_archive, Compression, Entry, ExportError, LONG_NAME_TEXT, NAME_LIMIT,
};
use renxin_core::clock::{date_stamp, timestamp, Moment};
use renxin_core::logging::{
    create_diagnostic_zip, diagnostic_zip_name, format_record, log_line, mask_sensitive_info,
    mask_with_home, MaskError,
};
use std::io::Read;

#[test]
fn test_mask_sensitive_info() {
    if let Some(home) = dirs::home_dir() {
        let home_str = home.to_str().unwrap();
        let user_path = format!("Error accessing {}/some/file.txt", home_str);
        let masked_path = mask_sensitive_info(&user_path).unwrap();
        assert!(masked_path.contains("[MASKED]"));
    }
    let ip_addr = "Connected to 192.168.1.100 successfully";
    let masked_ip = mask_sensitive_info(ip_addr).unwrap();
    assert_eq!(masked_ip, "Connected to [MASKED_IP] successfully");
}

#[test]
fn home_rule_masks_first_segment_only() {
    let masked = mask_with_home("Error accessing /home/alice/some/file.txt", Some("/home/alice"));
    assert_eq!(masked, Ok("Error accessing /home/alice/[MASKED]/file.txt".to_string()));
}

#[test]
fn home_rule_keeps_the_separator_it_met() {
    let masked = mask_with_home("open C:\\Users\\bob\\notes\\a.txt", Some("C:\\Users\\bob"));
    assert_eq!(masked, Ok("open C:\\Users\\bob\\[MASKED]\\a.txt".to_string()));
}

#[test]
fn home_with_meta_characters_is_taken_literally() {
    let masked = mask_with_home("see /home/a.b+c/docs", Some("/home/a.b+c"));
    assert_eq!(masked, Ok("see /home/a.b+c/[MASKED]".to_string()));
    let other = mask_with_home("see /home/abc/docs", Some("/home/a.c"));
    assert_eq!(other, Ok("see /home/abc/docs".to_string()));
    let dollar = mask_with_home("in /srv/$1/x/y", Some("/srv/$1"));
    assert_eq!(dollar, Ok("in /srv/$1/[MASKED]/y".to_string()));
}

#[test]
fn without_home_only_addresses_are_masked() {
    let masked = mask_with_home("/home/alice/x from 10.0.0.1", None);
    assert_eq!(masked, Ok("/home/alice/x from [MASKED_IP]".to_string()));
}

#[test]
fn addresses_are_not_range_checked() {
    let masked = mask_with_home("peer 999.999.999.999 and 1.2.3.4", None);
    assert_eq!(masked, Ok("peer [MASKED_IP] and [MASKED_IP]".to_string()));
}

#[test]
fn addresses_are_found_inside_longer_words() {
    assert_eq!(mask_with_home("v1.2.3.4", None), Ok("v[MASKED_IP]".to_string()));
    assert_eq!(mask_with_home("1234.5.6.7890", None), Ok("1[MASKED_IP]0".to_string()));
}

#[test]
fn text_without_matches_is_unchanged() {
    assert_eq!(
        mask_with_home("nothing to hide 1.2.3", Some("/root")),
        Ok("nothing to hide 1.2.3".to_string())
    );
    assert_ne!(mask_with_home("x", None), Err(MaskError::AddressRule));
}

#[test]
fn date_stamp_pads_month_and_day() {
    let day = Moment { year: 2024, month: 3, day: 7, hour: 9, minute: 5, second: 0 };
    assert_eq!(date_stamp(&day), "20240307");
    assert_eq!(timestamp(&day), "2024-03-07 09:05:00");
    assert_eq!(diagnostic_zip_name(&day), "darts_diag_20240307.zip");
}

#[test]
fn years_outside_four_digits_carry_a_sign() {
    let early = Moment { year: -5, month: 12, day: 31, hour: 23, minute: 59, second: 59 };
    assert_eq!(date_stamp(&early), "-00051231");
    let late = Moment { year: 12345, month: 1, day: 1, hour: 0, minute: 0, second: 0 };
    assert_eq!(date_stamp(&late), "+123450101");
    let first = Moment { year: 0, month: 1, day: 1, hour: 0, minute: 0, second: 0 };
    assert_eq!(date_stamp(&first), "00000101");
}

#[test]
fn log_line_has_timestamp_level_and_message() {
    let at = Moment { year: 2025, month: 11, day: 2, hour: 14, minute: 30, second: 9 };
    assert_eq!(log_line(&at, "INFO", "ready"), "[2025-11-02 14:30:09] [INFO] ready");
}

fn entry_text(archive: &mut zip::ZipArchive<std::io::Cursor<Vec<u8>>>, name: &str) -> String {
    let mut file = archive.by_name(name).unwrap();
    let mut contents = String::new();
    file.read_to_string(&mut contents).unwrap();
    contents
}

#[test]
fn test_create_diagnostic_zip() {
    let bytes = create_diagnostic_zip(
        Some(b"test_config = true".to_vec()),
        Some(b"test log entry".to_vec()),
    )
    .unwrap();
    let mut archive = zip::ZipArchive::new(std::io::Cursor::new(bytes)).unwrap();
    assert_eq!(archive.len(), 2);
    assert_eq!(entry_text(&mut archive, "config.toml"), "test_config = true");
    assert_eq!(entry_text(&mut archive, "renxin.log"), "test log entry");
}

#[test]
fn bundle_leaves_out_a_file_that_is_absent() {
    let bytes = create_diagnostic_zip(Some(b"test_config = true".to_vec()), None).unwrap();
    let mut archive = zip::ZipArchive::new(std::io::Cursor::new(bytes)).unwrap();
    assert_eq!(archive.len(), 1);
    assert_eq!(entry_text(&mut archive, "config.toml"), "test_config = true");
    assert!(archive.by_name("renxin.log").is_err());

    let bytes = create_diagnostic_zip(None, Some(b"test log entry".to_vec())).unwrap();
    let mut archive = zip::ZipArchive::new(std::io::Cursor::new(bytes)).unwrap();
    assert_eq!(archive.len(), 1);
    assert_eq!(entry_text(&mut archive, "renxin.log"), "test log entry");

    let bytes = create_diagnostic_zip(None, None).unwrap();
    let archive = zip::ZipArchive::new(std::io::Cursor::new(bytes)).unwrap();
    assert_eq!(archive.len(), 0);
}

#[test]
fn bundle_entries_are_deflated_and_world_readable() {
    let log = vec![b'a'; 4096];
    let bytes = create_diagnostic_zip(Some(Vec::new()), Some(log.clone())).unwrap();
    assert!(bytes.len() < log.len());
    let mut archive = zip::ZipArchive::new(std::io::Cursor::new(bytes)).unwrap();
    let names: Vec<String> = archive.file_names().map(|name| name.to_string()).collect();
    assert_eq!(names, vec!["config.toml", "renxin.log"]);
    for index in 0..archive.len() {
        let file = archive.by_index(index).unwrap();
        assert_eq!(file.compression(), zip::CompressionMethod::Deflated);
        assert_eq!(file.unix_mode().map(|mode| mode & 0o777), Some(0o644));
    }
    let mut data = Vec::new();
    archive.by_name("renxin.log").unwrap().read_to_end(&mut data).unwrap();
    assert_eq!(data, log);
}

#[test]
fn same_day_same_bundle_name() {
    let morning = Moment { year: 2026, month: 1, day: 9, hour: 6, minute: 0, second: 0 };
    let evening = Moment { year: 2026, month: 1, day: 9, hour: 22, minute: 15, second: 40 };
    assert_eq!(diagnostic_zip_name(&morning), diagnostic_zip_name(&evening));
    assert_eq!(diagnostic_zip_name(&morning), "darts_diag_20260109.zip");
}

#[test]
fn clock_reads_a_calendar_date() {
    let now = Moment::now();
    assert!(1 <= now.month && now.month <= 12);
    assert!(1 <= now.day && now.day <= 31);
    assert!(now.hour <= 23 && now.minute <= 59 && now.second <= 59);
    assert_eq!(timestamp(&now).len(), 19);
}

#[test]
fn home_that_makes_no_pattern_is_reported() {
    let home = "a".repeat(4_000_000);
    assert_eq!(mask_with_home("10.0.0.1", Some(&home)), Err(MaskError::HomeRule));
}

#[test]
fn every_match_of_the_home_rule_is_masked() {
    let masked = mask_with_home("cp /home/u/a/b /home/u/c/d", Some("/home/u"));
    assert_eq!(masked, Ok("cp /home/u/[MASKED]/b /home/u/[MASKED]/d".to_string()));
}

fn entry(name: &str, mode: u32, compression: Compression, data: &[u8]) -> Entry {
    Entry { name: name.to_string(), mode, compression, data: data.to_vec() }
}

#[test]
fn archive_keeps_entries_in_order_with_their_permission_bits() {
    let entries = vec![
        entry("b.txt", 0o100755, Compression::Stored, b"second"),
        entry("a.txt", 0o600, Compression::Deflated, b"first"),
    ];
    let bytes = build_archive(&entries).unwrap();
    let mut archive = zip::ZipArchive::new(std::io::Cursor::new(bytes)).unwrap();
    let names: Vec<String> = archive.file_names().map(|name| name.to_string()).collect();
    assert_eq!(names, vec!["b.txt", "a.txt"]);
    {
        let first = archive.by_index(0).unwrap();
        assert_eq!(first.compression(), zip::CompressionMethod::Stored);
        assert_eq!(first.unix_mode().map(|mode| mode & 0o7777), Some(0o755));
    }
    {
        let second = archive.by_index(1).unwrap();
        assert_eq!(second.compression(), zip::CompressionMethod::Deflated);
        assert_eq!(second.unix_mode().map(|mode| mode & 0o7777), Some(0o600));
    }
    assert_eq!(entry_text(&mut archive, "b.txt"), "second");
    assert_eq!(entry_text(&mut archive, "a.txt"), "first");
}

#[test]
fn archive_refuses_a_name_twice() {
    let entries = vec![
        entry("a.txt", 0o644, Compression::Deflated, b"one"),
        entry("a.txt", 0o644, Compression::Deflated, b"two"),
    ];
    match build_archive(&entries) {
        Err(ExportError::Archive(report)) => {
            assert_eq!(ExportError::Archive(report.clone()).message(), report)
        }
        other => panic!("a second entry of one name is refused, got {:?}", other),
    }
    assert_eq!(ExportError::Io("gone".to_string()).message(), "gone");
}

#[test]
fn same_entries_same_bytes() {
    let first = create_diagnostic_zip(Some(b"a = 1".to_vec()), Some(b"line".to_vec())).unwrap();
    let second = create_diagnostic_zip(Some(b"a = 1".to_vec()), Some(b"line".to_vec())).unwrap();
    assert_eq!(first, second);
}

#[test]
fn every_meta_character_of_a_home_is_escaped() {
    let home = "/h \\.+*?()|[]{}^$#&-~";
    let line = format!("at {}/secret/rest", home);
    assert_eq!(mask_with_home(&line, Some(home)), Ok(format!("at {}/[MASKED]/rest", home)));
}

#[test]
fn record_is_masked_and_stamped() {
    let line = format_record("WARN", "peer 10.1.2.3 left").unwrap();
    assert_eq!(line.len(), "[2026-01-01 00:00:00] [WARN] peer [MASKED_IP] left".len());
    assert!(line.starts_with('['));
    assert!(line.ends_with("] [WARN] peer [MASKED_IP] left"));
}

fn moment(year: i32, month: u32, day: u32, hour: u32, minute: u32, second: u32) -> Moment {
    Moment { year, month, day, hour, minute, second }
}

#[test]
fn stamps_agree_with_the_calendar_library() {
    let cases = [
        moment(2024, 2, 29, 0, 0, 0),
        moment(1999, 12, 31, 23, 59, 59),
        moment(999, 1, 1, 1, 1, 1),
        moment(0, 6, 15, 12, 0, 0),
        moment(9999, 12, 31, 23, 59, 59),
        moment(10000, 1, 1, 0, 0, 0),
        moment(-1, 3, 4, 5, 6, 7),
        moment(-12345, 10, 20, 9, 8, 7),
        moment(262142, 7, 8, 19, 20, 21),
    ];
    for case in cases {
        let date = chrono::NaiveDate::from_ymd_opt(case.year, case.month, case.day).unwrap();
        let time = date.and_hms_opt(case.hour, case.minute, case.second).unwrap();
        assert_eq!(date_stamp(&case), time.format("%Y%m%d").to_string());
        assert_eq!(timestamp(&case), time.format("%Y-%m-%d %H:%M:%S").to_string());
    }
}

fn report_of(outcome: Result<Vec<u8>, ExportError>) -> String {
    match outcome {
        Err(ExportError::Archive(report)) => report,
        other => panic!("the archive is refused, got {:?}", other.map(|bytes| bytes.len())),
    }
}

#[test]
fn archive_refuses_a_name_that_is_too_long() {
    assert_eq!(NAME_LIMIT, 65535);
    let long = "a".repeat(NAME_LIMIT + 1);
    let entries = vec![entry(&long, 0o644, Compression::Deflated, b"x")];
    assert_eq!(report_of(build_archive(&entries)), LONG_NAME_TEXT);
    assert_eq!(LONG_NAME_TEXT, "entry name is longer than 65535 bytes");

    let wide = "\u{e9}".repeat(32768);
    assert_eq!(wide.chars().count(), 32768);
    let entries = vec![
        entry("first.txt", 0o644, Compression::Deflated, b"x"),
        entry(&wide, 0o644, Compression::Stored, b"y"),
    ];
    assert_eq!(report_of(build_archive(&entries)), LONG_NAME_TEXT);
}

#[test]
fn archive_takes_a_name_of_the_longest_kind() {
    let longest = "a".repeat(NAME_LIMIT);
    let wide = format!("{}b", "\u{e9}".repeat(32767));
    assert_eq!(wide.len(), NAME_LIMIT);
    let entries = vec![
        entry(&longest, 0o644, Compression::Deflated, b"one"),
        entry(&wide, 0o644, Compression::Deflated, b"two"),
    ];
    let bytes = build_archive(&entries).unwrap();
    let mut archive = zip::ZipArchive::new(std::io::Cursor::new(bytes)).unwrap();
    assert_eq!(archive.len(), 2);
    assert_eq!(entry_text(&mut archive, &longest), "one");
    assert_eq!(entry_text(&mut archive, &wide), "two");
}

#[test]
fn a_repeated_name_is_reported_by_the_writer() {
    let entries = vec![
        entry("a.txt", 0o644, Compression::Deflated, b"one"),
        entry("a.txt", 0o644, Compression::Deflated, b"two"),
        entry(&"a".repeat(NAME_LIMIT + 1), 0o644, Compression::Deflated, b"three"),
    ];
    assert_ne!(report_of(build_archive(&entries)), LONG_NAME_TEXT);
}
