use file_explorer::file_item::{ChildRecord, FileItem};
use file_explorer::metadata::{dated_metadata_line, decimal, metadata_line, seconds_since_epoch};
use file_explorer::platform::Platform;

fn item(size: Option<u64>, modified: Option<i64>) -> FileItem {
    FileItem::new(
        Platform::Unix,
        "/tmp",
        &ChildRecord { name: "f".to_string(), is_directory: false, size_bytes: size, modified_at: modified },
    )
}

#[test]
fn decimal_of_small_numbers() {
    assert_eq!(decimal(0), "0");
    assert_eq!(decimal(7), "7");
    assert_eq!(decimal(9), "9");
    assert_eq!(decimal(10), "10");
    assert_eq!(decimal(1024), "1024");
    assert_eq!(decimal(1_000_000), "1000000");
    assert_eq!(decimal(9_876_543_210), "9876543210");
}

#[test]
fn decimal_of_the_largest_number() {
    assert_eq!(decimal(u64::MAX), "18446744073709551615");
}

#[test]
fn decimal_agrees_with_the_standard_rendering() {
    let samples: Vec<u64> = vec![1, 11, 99, 100, 101, 4095, 4096, 65_535, 123_456_789, u64::MAX - 1];
    for n in samples {
        assert_eq!(decimal(n), format!("{}", n));
    }
}

#[test]
fn metadata_line_has_size_then_stamp() {
    assert_eq!(
        metadata_line(1024, "2024-05-01 12:00:00"),
        "1024 bytes, modified: 2024-05-01 12:00:00"
    );
    assert_eq!(metadata_line(0, ""), "0 bytes, modified: ");
}

#[test]
fn format_metadata_at_the_epoch() {
    assert_eq!(
        item(Some(0), Some(0)).format_metadata(),
        Some("0 bytes, modified: 1970-01-01 00:00:00".to_string())
    );
}

#[test]
fn format_metadata_of_a_known_instant() {
    assert_eq!(
        item(Some(2048), Some(1_700_000_000)).format_metadata(),
        Some("2048 bytes, modified: 2023-11-14 22:13:20".to_string())
    );
    assert_eq!(
        item(Some(5), Some(951_782_400)).format_metadata(),
        Some("5 bytes, modified: 2000-02-29 00:00:00".to_string())
    );
}

#[test]
fn format_metadata_before_the_epoch() {
    assert_eq!(
        item(Some(1), Some(-1)).format_metadata(),
        Some("1 bytes, modified: 1969-12-31 23:59:59".to_string())
    );
}

#[test]
fn format_metadata_without_a_time_uses_the_epoch() {
    assert_eq!(
        item(Some(77), None).format_metadata(),
        Some("77 bytes, modified: 1970-01-01 00:00:00".to_string())
    );
}

#[test]
fn format_metadata_without_a_size_gives_no_line() {
    assert_eq!(item(None, Some(1_700_000_000)).format_metadata(), None);
    assert_eq!(item(None, None).format_metadata(), None);
}

#[test]
fn format_metadata_outside_the_calendar_gives_no_line() {
    assert_eq!(item(Some(1), Some(i64::MAX)).format_metadata(), None);
    assert_eq!(item(Some(1), Some(i64::MIN)).format_metadata(), None);
}

#[test]
fn dated_metadata_line_differs_with_the_time() {
    let early = dated_metadata_line(3, Some(59));
    let late = dated_metadata_line(3, Some(60));
    assert_eq!(early, Some("3 bytes, modified: 1970-01-01 00:00:59".to_string()));
    assert_eq!(late, Some("3 bytes, modified: 1970-01-01 00:01:00".to_string()));
}

#[test]
fn dated_metadata_line_of_a_far_year() {
    assert_eq!(
        dated_metadata_line(1, Some(253_402_300_799)),
        Some("1 bytes, modified: 9999-12-31 23:59:59".to_string())
    );
}

#[test]
fn seconds_since_epoch_after_the_epoch_drops_the_fraction() {
    assert_eq!(seconds_since_epoch(false, 0, 0), Some(0));
    assert_eq!(seconds_since_epoch(false, 1_700_000_000, 999_999_999), Some(1_700_000_000));
    assert_eq!(seconds_since_epoch(false, 59, 1), Some(59));
}

#[test]
fn seconds_since_epoch_before_the_epoch_counts_toward_the_past() {
    assert_eq!(seconds_since_epoch(true, 0, 0), Some(0));
    assert_eq!(seconds_since_epoch(true, 10, 0), Some(-10));
    assert_eq!(seconds_since_epoch(true, 10, 1), Some(-11));
    assert_eq!(seconds_since_epoch(true, 0, 500_000_000), Some(-1));
}

#[test]
fn seconds_since_epoch_at_the_limits() {
    let most: u64 = i64::MAX as u64;
    assert_eq!(seconds_since_epoch(false, most, 0), Some(i64::MAX));
    assert_eq!(seconds_since_epoch(false, most + 1, 0), None);
    assert_eq!(seconds_since_epoch(false, u64::MAX, 0), None);
    assert_eq!(seconds_since_epoch(true, most, 0), Some(-i64::MAX));
    assert_eq!(seconds_since_epoch(true, most, 1), Some(i64::MIN));
    assert_eq!(seconds_since_epoch(true, most + 1, 0), Some(i64::MIN));
    assert_eq!(seconds_since_epoch(true, most + 1, 1), None);
    assert_eq!(seconds_since_epoch(true, u64::MAX, 0), None);
}
