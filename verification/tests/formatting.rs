use todo_client::account::todo_count_text;
use todo_client::datetime::{format_timestamp, Timestamp};
use todo_client::decimal::{u64_to_decimal, u64_zero_padded};

#[test]
fn decimal_of_zero_and_large_numbers() {
    assert_eq!(u64_to_decimal(0), "0");
    assert_eq!(u64_to_decimal(7), "7");
    assert_eq!(u64_to_decimal(10), "10");
    assert_eq!(u64_to_decimal(120), "120");
    assert_eq!(u64_to_decimal(u64::MAX), "18446744073709551615");
}

#[test]
fn zero_padding_fills_to_width_only() {
    assert_eq!(u64_zero_padded(5, 2), "05");
    assert_eq!(u64_zero_padded(42, 2), "42");
    assert_eq!(u64_zero_padded(123, 2), "123");
    assert_eq!(u64_zero_padded(7, 4), "0007");
    assert_eq!(u64_zero_padded(0, 0), "0");
}

#[test]
fn todo_count_line() {
    assert_eq!(todo_count_text(0), "You have 0 todos");
    assert_eq!(todo_count_text(3), "You have 3 todos");
    assert_eq!(todo_count_text(1024), "You have 1024 todos");
}

#[test]
fn timestamp_is_shown_as_hours_minutes_day_month_year() {
    let t = Timestamp { year: 2022, month: 4, day: 3, hour: 9, minute: 5 };
    assert_eq!(format_timestamp(&t), "09:05 - 03/04/2022");
    let t = Timestamp { year: 1999, month: 12, day: 31, hour: 23, minute: 59 };
    assert_eq!(format_timestamp(&t), "23:59 - 31/12/1999");
}

#[test]
fn timestamp_year_is_padded_and_signed() {
    let t = Timestamp { year: 33, month: 1, day: 1, hour: 0, minute: 0 };
    assert_eq!(format_timestamp(&t), "00:00 - 01/01/0033");
    let t = Timestamp { year: -44, month: 3, day: 15, hour: 12, minute: 30 };
    assert_eq!(format_timestamp(&t), "12:30 - 15/03/-0044");
    let t = Timestamp { year: 12345, month: 6, day: 7, hour: 8, minute: 9 };
    assert_eq!(format_timestamp(&t), "08:09 - 07/06/12345");
    let t = Timestamp { year: i32::MIN, month: 1, day: 1, hour: 0, minute: 0 };
    assert_eq!(format_timestamp(&t), "00:00 - 01/01/-2147483648");
}

#[test]
fn timestamp_with_regular_fields_has_fixed_width() {
    let t = Timestamp { year: 2000, month: 1, day: 1, hour: 0, minute: 0 };
    assert_eq!(format_timestamp(&t).chars().count(), 18);
}
