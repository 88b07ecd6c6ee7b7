use condor::time_display::seconds_to_hms;

#[test]
fn seconds_only() {
    assert_eq!(seconds_to_hms(5, false), "00:05");
}

#[test]
fn minutes_and_seconds() {
    assert_eq!(seconds_to_hms(130, false), "02:10");
}

#[test]
fn hours_minutes_seconds() {
    assert_eq!(seconds_to_hms(3661, false), "01:01:01");
}

#[test]
fn zero() {
    assert_eq!(seconds_to_hms(0, false), "00:00");
}

#[test]
fn always_include_hours_true() {
    assert_eq!(seconds_to_hms(5, true), "00:00:05");
}

#[test]
fn always_include_hours_false() {
    assert_eq!(seconds_to_hms(5, false), "00:05");
}

#[test]
fn large_values() {
    assert_eq!(seconds_to_hms(90061, false), "25:01:01");
}

#[test]
fn hours_field_grows_past_two_digits() {
    assert_eq!(seconds_to_hms(360_000, false), "100:00:00");
    assert_eq!(seconds_to_hms(3599, false), "59:59");
    assert_eq!(seconds_to_hms(3600, false), "01:00:00");
}

#[test]
fn largest_input() {
    assert_eq!(seconds_to_hms(u64::MAX, false), "5124095576030431:00:15");
}
