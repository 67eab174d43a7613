use dioxus_inspector::{decimal_string, format_uptime};

#[test]
fn test_format_uptime_zero() {
    assert_eq!(format_uptime(0), "0s");
}

#[test]
fn test_format_uptime_seconds() {
    assert_eq!(format_uptime(45), "45s");
}

#[test]
fn test_format_uptime_exactly_one_minute() {
    assert_eq!(format_uptime(60), "1m 0s");
}

#[test]
fn test_format_uptime_minutes() {
    assert_eq!(format_uptime(125), "2m 5s");
}

#[test]
fn test_format_uptime_exactly_one_hour() {
    assert_eq!(format_uptime(3600), "1h 0m");
}

#[test]
fn test_format_uptime_hours() {
    assert_eq!(format_uptime(3665), "1h 1m");
}

#[test]
fn test_format_uptime_many_hours() {
    assert_eq!(format_uptime(86400), "24h 0m");
}

#[test]
fn uptime_boundaries() {
    assert_eq!(format_uptime(59), "59s");
    assert_eq!(format_uptime(3599), "59m 59s");
}

#[test]
fn uptime_largest_value() {
    let secs = u64::MAX;
    let expected = format!("{}h {}m", secs / 3600, (secs % 3600) / 60);
    assert_eq!(format_uptime(secs), expected);
}

#[test]
fn decimal_matches_std() {
    for n in [0u64, 7, 10, 99, 100, 1234567890, u64::MAX] {
        assert_eq!(decimal_string(n), n.to_string());
    }
}
