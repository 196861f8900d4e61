use spa_server::logs::{debug, error, format_log_line, format_timestamp, info, log, subsec_millis, warn};

#[test]
fn timestamp_is_zero_padded() {
    let ts = format_timestamp(7, 5, 3, 42);
    assert_eq!(ts, "07:05:03.042");
}

#[test]
fn timestamp_at_day_edges() {
    assert_eq!(format_timestamp(0, 0, 0, 0), "00:00:00.000");
    assert_eq!(format_timestamp(23, 59, 59, 999), "23:59:59.999");
}

#[test]
fn timestamp_matches_pattern() {
    let ts = format_timestamp(12, 34, 56, 789);
    let chars: Vec<char> = ts.chars().collect();
    assert_eq!(chars.len(), 12);
    for (i, c) in chars.iter().enumerate() {
        match i {
            2 | 5 => assert_eq!(*c, ':'),
            8 => assert_eq!(*c, '.'),
            _ => assert!(c.is_ascii_digit()),
        }
    }
}

#[test]
fn log_line_holds_color_timestamp_message_reset() {
    let line = format_log_line("\x1b[31m", 12, 34, 56, 789, "hello");
    assert_eq!(line, "\x1b[31m12:34:56.789 hello\x1b[0m");
}

#[test]
fn log_line_shape_regardless_of_level_color() {
    let colors = ["\x1b[0m", "\x1b[38;5;208m", "\x1b[31m", "\x1b[35m"];
    for color in colors {
        let line = format_log_line(color, 1, 2, 3, 4, "the message");
        assert!(line.starts_with(color));
        assert!(line.ends_with("the message\x1b[0m"));
        assert!(line.contains("01:02:03.004 "));
        assert!(!line.contains('\n'));
    }
}

#[test]
fn subsec_millis_truncates_nanoseconds() {
    assert_eq!(subsec_millis(0), 0);
    assert_eq!(subsec_millis(1_500_000), 1);
    assert_eq!(subsec_millis(999_999_999), 999);
}

#[test]
fn subsec_millis_clamps_leap_second() {
    assert_eq!(subsec_millis(1_000_000_000), 999);
    assert_eq!(subsec_millis(1_999_999_999), 999);
}

#[test]
fn every_level_writes_without_panicking() {
    info("info line");
    warn("warn line");
    error("error line");
    debug("debug line");
    log("custom line", "\x1b[0m");
}
