use chronorust::engine::Chronometer;

#[test]
fn fresh_stopwatch_is_idle() {
    let c = Chronometer::new();
    assert!(!c.is_running);
    assert!(!c.is_paused);
    assert_eq!(c.get_elapsed(123), 0);
    assert_eq!(c.display(123), "00:00:00.000");
    assert!(c.lap_times.is_empty());
    assert!(c.lap_durations.is_empty());
}

#[test]
fn elapsed_accrues_while_running() {
    let mut c = Chronometer::new();
    c.start(0);
    assert!(c.is_running);
    assert_eq!(c.get_elapsed(5), 5);
    assert_eq!(c.get_elapsed(1_000), 1_000);
    assert_eq!(c.display(1_500), "00:00:01.500");
}

#[test]
fn two_laps_give_one_delta() {
    let mut c = Chronometer::new();
    c.start(0);
    c.add_lap(500);
    c.add_lap(1_000);
    assert_eq!(c.lap_times, vec!["00:00:00.500", "00:00:01.000"]);
    assert_eq!(c.lap_durations, vec![500, 1_000]);
    assert_eq!(c.get_lap_differences(), vec!["00:00:00.500"]);
}

#[test]
fn fewer_than_two_laps_give_no_deltas() {
    let mut c = Chronometer::new();
    c.start(0);
    assert!(c.get_lap_differences().is_empty());
    c.add_lap(500);
    assert!(c.get_lap_differences().is_empty());
}

#[test]
fn laps_are_ignored_before_start() {
    let mut c = Chronometer::new();
    c.add_lap(500);
    assert!(c.lap_times.is_empty());
    assert!(c.lap_durations.is_empty());
}

#[test]
fn paused_interval_is_not_counted() {
    let mut c = Chronometer::new();
    c.start(0);
    c.pause(700);
    assert_eq!(c.get_elapsed(10_000), 700);
    c.resume(10_000);
    assert_eq!(c.get_elapsed(10_000), 700);
    assert_eq!(c.get_elapsed(10_500), 1_200);
}

#[test]
fn lap_while_paused_records_frozen_accumulated() {
    let mut c = Chronometer::new();
    c.start(0);
    let before_pause = c.get_elapsed(300);
    c.pause(300);
    c.add_lap(5_000);
    assert_eq!(c.lap_durations, vec![before_pause]);
    assert_eq!(c.lap_times, vec!["00:00:00.300"]);
}

#[test]
fn second_pause_in_a_row_accrues_nothing() {
    let mut c = Chronometer::new();
    c.start(0);
    c.pause(400);
    assert_eq!(c.paused_duration, 400);
    c.pause(900);
    assert_eq!(c.paused_duration, 400);
    assert!(c.is_paused);
}

#[test]
fn resume_before_pause_is_ignored() {
    let mut c = Chronometer::new();
    c.start(0);
    c.resume(400);
    assert!(!c.is_paused);
    assert_eq!(c.get_elapsed(400), 400);
}

#[test]
fn reset_zeroes_everything() {
    let mut c = Chronometer::new();
    c.start(0);
    c.add_lap(500);
    c.pause(700);
    c.reset(5_000);
    assert!(c.is_running);
    assert!(!c.is_paused);
    assert_eq!(c.get_elapsed(5_000), 0);
    assert!(c.lap_times.is_empty());
    assert!(c.lap_durations.is_empty());
    assert_eq!(c.display(5_000), "00:00:00.000");
}

#[test]
fn elapsed_is_monotone_across_pause_resume_sequence() {
    let mut c = Chronometer::new();
    c.start(0);
    let mut last = 0;
    let script: [(bool, u64); 6] =
        [(true, 100), (false, 250), (true, 300), (true, 450), (false, 600), (false, 900)];
    for (do_pause, t) in script {
        if do_pause {
            c.pause(t);
        } else {
            c.resume(t);
        }
        let e = c.get_elapsed(t);
        assert!(e >= last);
        last = e;
    }
}

#[test]
fn display_while_paused_shows_frozen_time() {
    let mut c = Chronometer::new();
    c.start(0);
    c.pause(1_234);
    assert_eq!(c.display(9_999), "00:00:01.234");
    assert_eq!(c.format_duration(1_234), "00:00:01.234");
}
