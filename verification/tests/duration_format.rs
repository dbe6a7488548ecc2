use elapsed_time::DurationComponents;
use elapsed_time::format_duration;
use elapsed_time::format_duration_calculate;
use elapsed_time::format_duration_format;

#[test]
fn test_duration_components_calculation() {
    // 1 day, 1 hour, 1 minute, 1 second
    let components = format_duration_calculate(90061, 0);

    assert_eq!(components.weeks, 0);
    assert_eq!(components.remaining_days, 1);
    assert_eq!(components.remaining_hours, 1);
    assert_eq!(components.minutes, 1);
    assert_eq!(components.seconds, 1);
    assert_eq!(components.milliseconds, 0);
}

#[test]
fn test_format_duration_format() {
    let test_cases: Vec<(DurationComponents, &str)> = vec![
        (
            DurationComponents {
                weeks: 1,
                remaining_days: 2,
                remaining_hours: 3,
                minutes: 4,
                seconds: 5,
                milliseconds: 6,
            },
            "1w 2d 3h 4m 5.006s",
        ),
        (
            DurationComponents {
                weeks: 0,
                remaining_days: 2,
                remaining_hours: 3,
                minutes: 4,
                seconds: 5,
                milliseconds: 6,
            },
            "2d 3h 4m 5.006s",
        ),
        (
            DurationComponents {
                weeks: 0,
                remaining_days: 0,
                remaining_hours: 3,
                minutes: 4,
                seconds: 5,
                milliseconds: 6,
            },
            "3h 4m 5.006s",
        ),
        (
            DurationComponents {
                weeks: 0,
                remaining_days: 0,
                remaining_hours: 0,
                minutes: 4,
                seconds: 5,
                milliseconds: 6,
            },
            "4m 5.006s",
        ),
        (
            DurationComponents {
                weeks: 0,
                remaining_days: 0,
                remaining_hours: 0,
                minutes: 0,
                seconds: 5,
                milliseconds: 6,
            },
            "5.006s",
        ),
        (
            DurationComponents {
                weeks: 0,
                remaining_days: 0,
                remaining_hours: 0,
                minutes: 0,
                seconds: 0,
                milliseconds: 6,
            },
            "0.006s",
        ),
        (
            DurationComponents {
                weeks: 0,
                remaining_days: 0,
                remaining_hours: 0,
                minutes: 0,
                seconds: 0,
                milliseconds: 500,
            },
            "0.500s",
        ),
    ];

    for (components, expected) in test_cases {
        assert_eq!(format_duration_format(&components), expected);
    }
}

#[test]
fn test_format_duration() {
    // Exact minutes
    assert_eq!(format_duration(120, 0), "2m");
    assert_eq!(format_duration(180, 0), "3m");

    // Minutes with seconds
    assert_eq!(format_duration(185, 0), "3m 5s");

    // 486.774785112 seconds, truncated to millisecond resolution
    let duration_ms: u64 = (486.774785112 * 1000.0) as u64;
    assert_eq!(format_duration(duration_ms / 1000, (duration_ms % 1000) as u32), "8m 6.774s");

    // Various minute-second combinations
    assert_eq!(format_duration(90, 500), "1m 30.500s");
    assert_eq!(format_duration(45, 100), "45.100s");

    // Edge cases
    assert_eq!(format_duration(59, 999), "59.999s");
    assert_eq!(format_duration(60, 0), "1m");
    assert_eq!(format_duration(60, 1), "1m 0.001s");

    let test_cases: Vec<(u64, u32, &str)> = vec![
        (60 * 60 + 60 + 1, 0, "1h 1m 1s"),
        (61, 0, "1m 1s"),
        (1, 0, "1s"),
        (0, 500, "0.500s"),
        (0, 100, "0.100s"),
        (0, 1, "0.001s"),
    ];

    for (total_seconds, subsec_millis, expected) in test_cases {
        assert_eq!(format_duration(total_seconds, subsec_millis), expected);
    }

    // Weeks and days
    let week_in_secs: u64 = 7 * 24 * 60 * 60;
    assert_eq!(format_duration(week_in_secs, 0), "1w 0d 0h 0m 0s");
    assert_eq!(format_duration(week_in_secs + 24 * 60 * 60 + 65, 0), "1w 1d 0h 1m 5s");

    // A complex duration with all units
    let complex_duration: u64 = 2 * 7 * 24 * 60 * 60 // 2 weeks
        + 3 * 24 * 60 * 60 // 3 days
        + 4 * 60 * 60 // 4 hours
        + 5 * 60 // 5 minutes
        + 6; // 6 seconds
    assert_eq!(format_duration(complex_duration, 0), "2w 3d 4h 5m 6s");
}

#[test]
fn zero_duration_formats_as_bare_zero_seconds() {
    assert_eq!(format_duration(0, 0), "0s");
}

#[test]
fn subsecond_durations_keep_three_digit_padding() {
    assert_eq!(format_duration(0, 6), "0.006s");
    assert_eq!(format_duration(0, 42), "0.042s");
    assert_eq!(format_duration(0, 500), "0.500s");
}

#[test]
fn seconds_minutes_and_hours_drop_leading_zero_units() {
    assert_eq!(format_duration(5, 0), "5s");
    assert_eq!(format_duration(125, 0), "2m 5s");
    assert_eq!(format_duration(3665, 0), "1h 1m 5s");
}

#[test]
fn all_units_appear_from_weeks_down() {
    // 1 week + 2 days + 3 hours + 4 minutes + 5 seconds
    let total_seconds: u64 = 604800 + 2 * 86400 + 3 * 3600 + 4 * 60 + 5;
    assert_eq!(format_duration(total_seconds, 0), "1w 2d 3h 4m 5s");
}

#[test]
fn calculation_reconstructs_and_stays_in_range_at_the_extremes() {
    let test_cases: Vec<(u64, u32)> = vec![(0, 0), (59, 999), (604800, 0), (u64::MAX, 999)];

    for (total_seconds, subsec_millis) in test_cases {
        let c = format_duration_calculate(total_seconds, subsec_millis);
        assert!(c.remaining_days <= 6);
        assert!(c.remaining_hours <= 23);
        assert!(c.minutes <= 59);
        assert!(c.seconds <= 59);
        assert!(c.milliseconds <= 999);
        let rebuilt: u128 = c.weeks as u128 * 604800
            + c.remaining_days as u128 * 86400
            + c.remaining_hours as u128 * 3600
            + c.minutes as u128 * 60
            + c.seconds as u128;
        assert_eq!(rebuilt, total_seconds as u128);
        assert_eq!(c.milliseconds, subsec_millis);
    }
}
