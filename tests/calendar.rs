use rs_meta_cleaner::{chrono_lite, is_leap_year, NEUTRAL_UNIX_SECS};

#[test]
fn epoch_formats() {
    assert_eq!(chrono_lite(0), "1970-01-01 00:00:00");
}

#[test]
fn neutral_instant_formats() {
    assert_eq!(chrono_lite(NEUTRAL_UNIX_SECS), "2000-01-01 00:00:00");
}

#[test]
fn leap_day_and_time_of_day() {
    assert_eq!(chrono_lite(951782400), "2000-02-29 00:00:00");
    assert_eq!(chrono_lite(1700000000), "2023-11-14 22:13:20");
    assert_eq!(chrono_lite(86399), "1970-01-01 23:59:59");
}

#[test]
fn five_digit_year() {
    assert_eq!(chrono_lite(253402300800), "10000-01-01 00:00:00");
}

#[test]
fn leap_years() {
    assert!(is_leap_year(2000));
    assert!(is_leap_year(2024));
    assert!(!is_leap_year(1900));
    assert!(!is_leap_year(2023));
}
