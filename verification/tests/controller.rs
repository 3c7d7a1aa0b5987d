use chronorust::controller::{apply_command, lap_display_lines, time_display_line, Command};
use chronorust::engine::Chronometer;

#[test]
fn quit_ends_the_session_and_touches_nothing() {
    let mut c = Chronometer::new();
    c.start(0);
    c.add_lap(500);
    let quit = apply_command(&mut c, Command::Quit, 1_000);
    assert!(quit);
    assert!(c.is_running);
    assert_eq!(c.lap_durations, vec![500]);
}

#[test]
fn reset_command_restarts_from_zero() {
    let mut c = Chronometer::new();
    c.start(0);
    c.add_lap(500);
    let quit = apply_command(&mut c, Command::Reset, 2_000);
    assert!(!quit);
    assert_eq!(c.get_elapsed(2_000), 0);
    assert!(c.lap_times.is_empty());
}

#[test]
fn lap_command_records_a_lap() {
    let mut c = Chronometer::new();
    c.start(0);
    let quit = apply_command(&mut c, Command::Lap, 750);
    assert!(!quit);
    assert_eq!(c.lap_times, vec!["00:00:00.750"]);
}

#[test]
fn toggle_alternates_pause_and_resume() {
    let mut c = Chronometer::new();
    c.start(0);
    apply_command(&mut c, Command::TogglePauseResume, 600);
    assert!(c.is_paused);
    assert_eq!(c.get_elapsed(9_000), 600);
    apply_command(&mut c, Command::TogglePauseResume, 9_000);
    assert!(!c.is_paused);
    assert_eq!(c.get_elapsed(9_400), 1_000);
}

#[test]
fn lap_lines_number_laps_and_annotate_deltas() {
    let mut c = Chronometer::new();
    c.start(0);
    c.add_lap(500);
    c.add_lap(1_000);
    c.add_lap(2_500);
    let lines = lap_display_lines(&c);
    assert_eq!(
        lines,
        vec![
            "Lap 1: 00:00:00.500",
            "Lap 2: 00:00:01.000 (Δ: 00:00:00.500)",
            "Lap 3: 00:00:02.500 (Δ: 00:00:01.500)",
        ]
    );
}

#[test]
fn headline_shows_the_right_icon() {
    assert_eq!(time_display_line(true, "00:00:01.000"), "⏸️  00:00:01.000");
    assert_eq!(time_display_line(false, "00:00:01.000"), "⏱️  00:00:01.000");
}
