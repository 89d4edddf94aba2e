use srv::fmt::{human_readable_size, u64_to_string};
use srv::timestamp::{decompose_timestamp, format_timestamp};

#[test]
fn test_u64_to_string() {
    assert_eq!(u64_to_string(0), "0");
    assert_eq!(u64_to_string(7), "7");
    assert_eq!(u64_to_string(10), "10");
    assert_eq!(u64_to_string(65535), "65535");
    assert_eq!(u64_to_string(u64::MAX), "18446744073709551615");
}

#[test]
fn test_human_readable_size_bytes() {
    assert_eq!(human_readable_size(0), "0 B");
    assert_eq!(human_readable_size(500), "500 B");
    assert_eq!(human_readable_size(1023), "1023 B");
}

#[test]
fn test_human_readable_size_units() {
    assert_eq!(human_readable_size(1024), "1.00 KB");
    assert_eq!(human_readable_size(1536), "1.50 KB");
    assert_eq!(human_readable_size(2048), "2.00 KB");
    assert_eq!(human_readable_size(1000000), "976.56 KB");
    assert_eq!(human_readable_size(1048576), "1.00 MB");
    assert_eq!(human_readable_size(1073741824), "1.00 GB");
    assert_eq!(human_readable_size(1099511627776), "1.00 TB");
    assert_eq!(human_readable_size(1125899906842624), "1.00 PB");
}

#[test]
fn test_human_readable_size_rounds_ties_to_even() {
    // 1152 / 1024 = 1.125 exactly: the shown value rounds down to the
    // even hundredth, 1408 / 1024 = 1.375 rounds up to it.
    assert_eq!(human_readable_size(1152), "1.12 KB");
    assert_eq!(human_readable_size(1408), "1.38 KB");
}

#[test]
fn test_format_timestamp_epoch() {
    assert_eq!(format_timestamp(0), "1970-01-01 00:00:00");
    assert_eq!(format_timestamp(86399), "1970-01-01 23:59:59");
    assert_eq!(format_timestamp(86400), "1970-01-02 00:00:00");
}

#[test]
fn test_format_timestamp_months_and_years() {
    // 31 days in: February the 1st in the fixed 365-day calendar.
    assert_eq!(format_timestamp(31 * 86400), "1970-02-01 00:00:00");
    // 365 days in: the next year begins.
    assert_eq!(format_timestamp(365 * 86400), "1971-01-01 00:00:00");
    // Last day of the fixed year.
    assert_eq!(format_timestamp(364 * 86400), "1970-12-31 00:00:00");
}

#[test]
fn test_decompose_timestamp_fields() {
    let t = decompose_timestamp(3 * 86400 + 4 * 3600 + 25 * 60 + 9);
    assert_eq!(t.year, 1970);
    assert_eq!(t.month, 1);
    assert_eq!(t.day, 4);
    assert_eq!(t.hour, 4);
    assert_eq!(t.minute, 25);
    assert_eq!(t.second, 9);
}
