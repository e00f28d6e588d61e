use raytracing::elapsed::get_elapsed_time_message;

#[test]
fn test_message_seconds_only() {
    assert_eq!(get_elapsed_time_message(0, 5), "0.005 seconds.");
    assert_eq!(get_elapsed_time_message(42, 0), "42.000 seconds.");
    assert_eq!(get_elapsed_time_message(59, 999), "59.999 seconds.");
}

#[test]
fn test_message_with_minutes() {
    assert_eq!(get_elapsed_time_message(60, 0), "1 minutes, and 0.000 seconds.");
    assert_eq!(get_elapsed_time_message(125, 250), "2 minutes, and 5.250 seconds.");
}

#[test]
fn test_message_with_hours() {
    assert_eq!(
        get_elapsed_time_message(3725, 42),
        "1 hours, 2 minutes, and 5.042 seconds."
    );
    // A whole number of hours leaves the minutes out entirely.
    assert_eq!(get_elapsed_time_message(7200, 999), "2 hours, 0.999 seconds.");
}

#[test]
fn test_message_large_durations() {
    assert_eq!(
        get_elapsed_time_message(360_000, 1),
        "100 hours, 0.001 seconds."
    );
    assert_eq!(
        get_elapsed_time_message(3661, 100),
        "1 hours, 1 minutes, and 1.100 seconds."
    );
}
