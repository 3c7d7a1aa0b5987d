//! The session controller: maps the bounded command vocabulary coming from
//! the input collaborator onto engine calls, and assembles the text lines a
//! rendering collaborator displays. The only branching outside the engine
//! lives here: a pause/resume toggle inspects the paused flag and picks the
//! matching engine call.

use vstd::prelude::*;
use crate::duration_fmt::{dec_chars, dec_str, duration_chars, format_duration_ms};
use crate::engine::Chronometer;
use crate::model::{elapsed_at, lap_tr, pause_tr, reset_tr, resume_tr, synced};

verus! {

/// The discrete commands an input collaborator can deliver.
#[derive(Clone, Copy)]
pub enum Command {
    Quit,
    Reset,
    Lap,
    TogglePauseResume,
}

/// Dispatches one command to the engine at clock reading `now` and reports
/// whether the session should end. `TogglePauseResume` resumes while
/// paused, else pauses; everything else maps one-to-one.
pub fn apply_command(chronometer: &mut Chronometer, command: Command, now: u64) -> (quit: bool)
    requires
        old(chronometer).wf(),
        synced(old(chronometer)@, now as int),
        elapsed_at(old(chronometer)@, now as int) <= u64::MAX,
    ensures
        final(chronometer).wf(),
        synced(final(chronometer)@, now as int),
        quit == (command == Command::Quit),
        command == Command::Quit ==> *final(chronometer) == *old(chronometer),
        command == Command::Reset ==> final(chronometer)@ == reset_tr(
            old(chronometer)@,
            now as int,
        ) && final(chronometer).lap_times@.len() == 0,
        command == Command::Lap ==> final(chronometer)@ == lap_tr(old(chronometer)@, now as int),
        command == Command::TogglePauseResume ==> final(chronometer)@ == (if old(
            chronometer,
        )@.paused {
            resume_tr(old(chronometer)@, now as int)
        } else {
            pause_tr(old(chronometer)@, now as int)
        }),
    {
    match command {
        Command::Quit => true,
        Command::Reset => {
            chronometer.reset(now);
            false
        },
        Command::Lap => {
            if chronometer.is_running {
                chronometer.add_lap(now);
            }
            false
        },
        Command::TogglePauseResume => {
            if chronometer.is_paused {
                chronometer.resume(now);
            } else {
                chronometer.pause(now);
            }
            false
        },
    }
}

/// The text shown for lap `i` (0-based): its 1-based number, its rendered
/// time, and — from the second lap on — the rendered delta to the lap
/// before it.
pub open spec fn lap_line_chars(laps: Seq<int>, i: int) -> Seq<char> {
    let base = "Lap "@ + dec_chars(i + 1) + ": "@ + duration_chars(laps[i]);
    if i >= 1 {
        base + " (Δ: "@ + duration_chars(laps[i] - laps[i - 1]) + ")"@
    } else {
        base
    }
}

/// The lap list a rendering collaborator displays: one line per recorded
/// lap, numbered from 1, each lap after the first annotated with its delta
/// to the previous one.
pub fn lap_display_lines(chronometer: &Chronometer) -> (r: Vec<String>)
    requires
        chronometer.wf(),
    ensures
        r@.len() == chronometer@.laps.len(),
        forall|i: int|
            0 <= i < r@.len() ==> (#[trigger] r@[i])@ == lap_line_chars(chronometer@.laps, i),
{
    let mut r: Vec<String> = Vec::new();
    let mut i: usize = 0;
    while i < chronometer.lap_times.len()
        invariant
            chronometer.wf(),
            i <= chronometer.lap_times@.len(),
            r@.len() == i,
            forall|j: int|
                0 <= j < r@.len() ==> (#[trigger] r@[j])@ == lap_line_chars(
                    chronometer@.laps,
                    j,
                ),
        decreases chronometer.lap_times@.len() - i,
    {
        let mut line = "Lap ".to_owned();
        let number = dec_str((i + 1) as u64);
        line.append(number.as_str());
        line.append(": ");
        line.append(chronometer.lap_times[i].as_str());
        if i >= 1 {
            let prev_lap = chronometer.lap_durations[i - 1];
            let current_lap = chronometer.lap_durations[i];
            proof {
                assert(chronometer@.laps[i - 1] <= chronometer@.laps[i as int]);
            }
            let delta = format_duration_ms(current_lap - prev_lap);
            line.append(" (Δ: ");
            line.append(delta.as_str());
            line.append(")");
        }
        r.push(line);
        i = i + 1;
    }
    r
}

/// The headline time text: the rendered elapsed reading behind a pause or
/// stopwatch icon, depending on whether accrual is suspended.
pub fn time_display_line(paused: bool, display: &str) -> (r: String)
    ensures
        r@ == (if paused {
            "⏸️  "@
        } else {
            "⏱️  "@
        }) + display@,
{
    let mut r = if paused {
        "⏸️  ".to_owned()
    } else {
        "⏱️  ".to_owned()
    };
    r.append(display);
    r
}

} // verus!
