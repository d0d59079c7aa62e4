use siege_reminder::text::{decimal, magnitude_to_hms, sec_to_hms};

#[test]
fn hms_of_one_hour() {
    assert_eq!(sec_to_hms(3600), "1h ");
    assert_eq!(sec_to_hms(-3600), "1h ");
}

#[test]
fn hms_of_zero_is_empty() {
    assert_eq!(sec_to_hms(0), "");
}

#[test]
fn hms_with_all_parts() {
    assert_eq!(sec_to_hms(3661), "1h 1m 1s ");
    assert_eq!(sec_to_hms(-3661), "1h 1m 1s ");
    assert_eq!(sec_to_hms(86_399), "23h 59m 59s ");
}

#[test]
fn hms_leaves_out_parts_that_are_zero() {
    assert_eq!(sec_to_hms(59), "59s ");
    assert_eq!(sec_to_hms(60), "1m ");
    assert_eq!(sec_to_hms(61), "1m 1s ");
    assert_eq!(sec_to_hms(3601), "1h 1s ");
    assert_eq!(sec_to_hms(3660), "1h 1m ");
    assert_eq!(sec_to_hms(7200), "2h ");
}

#[test]
fn hms_of_large_amounts() {
    assert_eq!(sec_to_hms(360_000), "100h ");
    assert_eq!(sec_to_hms(i64::MAX), "2562047788015215h 30m 7s ");
    assert_eq!(sec_to_hms(i64::MIN), "2562047788015215h 30m 8s ");
    assert_eq!(magnitude_to_hms(u64::MAX), "5124095576030431h 15s ");
}

#[test]
fn decimal_numerals() {
    assert_eq!(decimal(0), "0");
    assert_eq!(decimal(7), "7");
    assert_eq!(decimal(10), "10");
    assert_eq!(decimal(1234567890), "1234567890");
    assert_eq!(decimal(u64::MAX), u64::MAX.to_string());
}
