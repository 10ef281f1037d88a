use scrolls::timefmt::format_duration;

#[test]
fn format_seconds() {
    let formatted = format_duration(45);
    assert_eq!(formatted, "00:00:45");
}

#[test]
fn format_minutes() {
    let formatted = format_duration(125);
    assert_eq!(formatted, "00:02:05");
}

#[test]
fn format_hours() {
    let formatted = format_duration(3665);
    assert_eq!(formatted, "01:01:05");
}

#[test]
fn format_days() {
    let formatted = format_duration(90065);
    assert_eq!(formatted, "1d 01:01:05");
}

#[test]
fn format_multiple_days() {
    let formatted = format_duration(200065);
    assert_eq!(formatted, "2d 07:34:25");
}

#[test]
fn format_edge_case() {
    let formatted = format_duration(86400); // Exactly one day
    assert_eq!(formatted, "1d 00:00:00");
}

#[test]
fn format_zero() {
    let formatted = format_duration(0);
    assert_eq!(formatted, "00:00:00");
}

#[test]
fn format_many_days() {
    let formatted = format_duration(86400 * 365 + 1);
    assert_eq!(formatted, "365d 00:00:01");
}
