use kiwi_mcp_tools::text::{duration_text, u64_text};
use kiwi_mcp_tools::time::timestamp_display;

#[test]
fn decimal_text_of_zero() {
    assert_eq!(u64_text(0), "0");
}

#[test]
fn decimal_text_of_a_large_number() {
    assert_eq!(u64_text(1234567890), "1234567890");
}

#[test]
fn duration_125_minutes() {
    assert_eq!(duration_text(125), "2h 5m");
}

#[test]
fn duration_zero_minutes() {
    assert_eq!(duration_text(0), "0h 0m");
}

#[test]
fn duration_exact_hours() {
    assert_eq!(duration_text(60), "1h 0m");
}

#[test]
fn duration_under_one_hour() {
    assert_eq!(duration_text(45), "0h 45m");
}

#[test]
fn duration_negative_minutes_round_toward_zero() {
    assert_eq!(duration_text(-125), format!("{}h {}m", -125i64 / 60, -125i64 % 60));
    assert_eq!(duration_text(-5), format!("{}h {}m", -5i64 / 60, -5i64 % 60));
}

#[test]
fn valid_rfc3339_timestamp_is_re_rendered() {
    assert_eq!(
        timestamp_display("2024-03-05T14:30:00.000+01:00"),
        "05 Mar 2024, 14:30"
    );
}

#[test]
fn utc_timestamp_is_re_rendered_in_its_own_offset() {
    assert_eq!(timestamp_display("2023-12-31T23:59:00Z"), "31 Dec 2023, 23:59");
}

#[test]
fn non_parseable_timestamp_passes_through_verbatim() {
    assert_eq!(timestamp_display("tomorrow morning"), "tomorrow morning");
    assert_eq!(timestamp_display("Unknown"), "Unknown");
    assert_eq!(timestamp_display(""), "");
}

#[test]
fn date_only_text_is_not_rfc3339_and_passes_through() {
    assert_eq!(timestamp_display("2024-03-05"), "2024-03-05");
}
