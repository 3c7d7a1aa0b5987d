use chronorust::session_log::{
    lap_log_line, log_filename, reset_log_line, session_separator, session_start_line,
};

#[test]
fn filename_comes_from_the_session_start_timestamp() {
    assert_eq!(log_filename(0), "ChronoRust-01-01-70-00-00-00-log.txt");
    assert_eq!(log_filename(1_431_648_000), "ChronoRust-15-05-15-00-00-00-log.txt");
}

#[test]
fn session_start_marker_is_timestamped() {
    assert_eq!(session_start_line(0), "ChronoRust Session Started: 1970-01-01 00:00:00");
    assert_eq!(
        session_start_line(1_431_648_000),
        "ChronoRust Session Started: 2015-05-15 00:00:00"
    );
}

#[test]
fn separator_is_a_48_character_ruler() {
    let separator = session_separator();
    assert_eq!(separator.len(), 48);
    assert!(separator.chars().all(|c| c == '='));
}

#[test]
fn reset_line_is_timestamped() {
    assert_eq!(reset_log_line(946_684_800), "Reset at: 2000-01-01 00:00:00");
}

#[test]
fn lap_line_carries_number_timestamp_and_time() {
    assert_eq!(
        lap_log_line(3, 946_684_800, "00:00:01.000"),
        "Lap 3 at: 2000-01-01 00:00:00 - Time: 00:00:01.000"
    );
    assert_eq!(
        lap_log_line(12, 0, "01:02:03.004"),
        "Lap 12 at: 1970-01-01 00:00:00 - Time: 01:02:03.004"
    );
}
