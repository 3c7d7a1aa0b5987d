//! The executable stopwatch engine.
//!
//! A [`Chronometer`] owns the elapsed-time bookkeeping: start, reset,
//! pause/resume, lap capture and lap deltas. It never reads a clock itself;
//! every operation takes the caller's current reading of a monotonic
//! millisecond clock, so each contract is exact: the new state equals the
//! corresponding transition of [`crate::model`] applied to the old one.

use vstd::prelude::*;
use crate::duration_fmt::{duration_chars, format_duration_ms};
use crate::model::{
    elapsed_at, lap_tr, pause_tr, reset_tr, resume_tr, start_tr, synced, wf, Model,
};

verus! {

/// The stopwatch state: running/paused flags, the accumulator of finished
/// run segments, the anchor of the open segment, and the recorded laps,
/// both as millisecond counts and as their `HH:MM:SS.mmm` renderings.
pub struct Chronometer {
    /// Monotonic-clock anchor (milliseconds) of the current run segment;
    /// `None` only before the first start.
    pub start_time: Option<u64>,
    /// The laps, rendered as `HH:MM:SS.mmm` at the moment of recording.
    pub lap_times: Vec<String>,
    /// The laps: cumulative elapsed milliseconds at the moment of recording.
    pub lap_durations: Vec<u64>,
    /// True once started; never falls back to false except at construction.
    pub is_running: bool,
    /// True while time accrual is suspended.
    pub is_paused: bool,
    /// Milliseconds accrued across all run segments already folded in.
    pub paused_duration: u64,
}

impl View for Chronometer {
    type V = Model;

    open spec fn view(&self) -> Model {
        Model {
            running: self.is_running,
            paused: self.is_paused,
            accumulated: self.paused_duration as int,
            anchor: match self.start_time {
                Some(t) => Some(t as int),
                None => None,
            },
            laps: self.lap_durations@.map_values(|d: u64| d as int),
        }
    }
}

impl Chronometer {
    /// The state is well-formed and the two lap vectors agree: one rendered
    /// entry per recorded millisecond count.
    pub open spec fn wf(&self) -> bool {
        &&& wf(self@)
        &&& self.lap_times@.len() == self.lap_durations@.len()
        &&& forall|i: int|
            0 <= i < self.lap_durations@.len() ==> (#[trigger] self.lap_times@[i])@
                == duration_chars(self.lap_durations@[i] as int)
    }

    /// A fresh, idle stopwatch: nothing started, nothing accrued, no laps.
    pub fn new() -> (r: Chronometer)
        ensures
            r.wf(),
            r@ == (Model {
                running: false,
                paused: false,
                accumulated: 0,
                anchor: None::<int>,
                laps: Seq::<int>::empty(),
            }),
    {
        let r = Chronometer {
            start_time: None,
            lap_times: Vec::new(),
            lap_durations: Vec::new(),
            is_running: false,
            is_paused: false,
            paused_duration: 0,
        };
        proof {
            assert(r.lap_durations@.map_values(|d: u64| d as int) =~= Seq::<int>::empty());
        }
        r
    }

    /// Start (or restart) from zero at clock reading `now`: re-arms the
    /// segment anchor and clears the accumulator. Laps are untouched; only
    /// `reset` clears them.
    pub fn start(&mut self, now: u64)
        requires
            old(self).wf(),
        ensures
            final(self).wf(),
            final(self)@ == start_tr(old(self)@, now as int),
            final(self).lap_times@ == old(self).lap_times@,
            old(self).lap_durations@.len() == 0 ==> synced(final(self)@, now as int),
    {
        self.start_time = Some(now);
        self.is_running = true;
        self.is_paused = false;
        self.paused_duration = 0;
    }

    /// Reset at clock reading `now`: start from zero and clear the laps.
    /// Legal in every state, including mid-pause; the result is always a
    /// running, unpaused state with zero elapsed time and no laps.
    pub fn reset(&mut self, now: u64)
        requires
            old(self).wf(),
        ensures
            final(self).wf(),
            final(self)@ == reset_tr(old(self)@, now as int),
            final(self).lap_times@.len() == 0,
            elapsed_at(final(self)@, now as int) == 0,
            synced(final(self)@, now as int),
    {
        self.start_time = Some(now);
        self.lap_times.clear();
        self.lap_durations.clear();
        self.is_running = true;
        self.is_paused = false;
        self.paused_duration = 0;
        proof {
            assert(self.lap_durations@.map_values(|d: u64| d as int) =~= Seq::<int>::empty());
        }
    }

    /// Pause at clock reading `now`: folds the open segment into the
    /// accumulator and freezes it. Silently ignored unless running and not
    /// already paused.
    pub fn pause(&mut self, now: u64)
        requires
            old(self).wf(),
            synced(old(self)@, now as int),
            elapsed_at(old(self)@, now as int) <= u64::MAX,
        ensures
            final(self).wf(),
            final(self)@ == pause_tr(old(self)@, now as int),
            synced(final(self)@, now as int),
            final(self).lap_times@ == old(self).lap_times@,
            elapsed_at(final(self)@, now as int) == elapsed_at(old(self)@, now as int),
    {
        if self.is_running && !self.is_paused {
            proof {
                assert(self.start_time is Some);
            }
            if let Some(start) = self.start_time {
                self.paused_duration = self.paused_duration + (now - start);
                self.is_paused = true;
            }
        }
    }

    /// Resume at clock reading `now`: re-arms the segment anchor and
    /// unfreezes. Silently ignored unless paused.
    pub fn resume(&mut self, now: u64)
        requires
            old(self).wf(),
            synced(old(self)@, now as int),
        ensures
            final(self).wf(),
            final(self)@ == resume_tr(old(self)@, now as int),
            synced(final(self)@, now as int),
            final(self).lap_times@ == old(self).lap_times@,
            elapsed_at(final(self)@, now as int) == elapsed_at(old(self)@, now as int),
    {
        if self.is_running && self.is_paused {
            self.start_time = Some(now);
            self.is_paused = false;
        }
    }

    /// The elapsed reading at clock value `now`: the frozen accumulator
    /// while paused, accumulator plus open segment while running, zero
    /// before the first start. A pure query.
    pub fn get_elapsed(&self, now: u64) -> (r: u64)
        requires
            self.wf(),
            synced(self@, now as int),
            elapsed_at(self@, now as int) <= u64::MAX,
        ensures
            r as int == elapsed_at(self@, now as int),
    {
        if self.is_paused {
            self.paused_duration
        } else if let Some(start) = self.start_time {
            self.paused_duration + (now - start)
        } else {
            0
        }
    }

    /// Record a lap at clock reading `now`: appends the current elapsed
    /// reading, both as milliseconds and rendered. Silently ignored unless
    /// running; pausing does not block laps (a lap taken while paused
    /// records the frozen accumulator).
    pub fn add_lap(&mut self, now: u64)
        requires
            old(self).wf(),
            synced(old(self)@, now as int),
            elapsed_at(old(self)@, now as int) <= u64::MAX,
        ensures
            final(self).wf(),
            final(self)@ == lap_tr(old(self)@, now as int),
            synced(final(self)@, now as int),
            old(self).is_running ==> final(self).lap_times@.len() == old(self).lap_times@.len()
                + 1,
            old(self).is_running ==> (final(self).lap_times@.last())@ == duration_chars(
                elapsed_at(old(self)@, now as int),
            ),
            forall|i: int|
                0 <= i < old(self).lap_times@.len() ==> final(self).lap_times@[i] == old(
                    self,
                ).lap_times@[i],
            !old(self).is_running ==> *final(self) == *old(self),
    {
        if self.is_running {
            let elapsed = self.get_elapsed(now);
            let lap_time = format_duration_ms(elapsed);
            self.lap_times.push(lap_time);
            self.lap_durations.push(elapsed);
            proof {
                assert(self.lap_durations@.map_values(|d: u64| d as int) =~= old(
                    self,
                )@.laps.push(elapsed as int));
            }
        }
    }

    /// Renders a duration of `ms` milliseconds as `HH:MM:SS.mmm`.
    pub fn format_duration(&self, ms: u64) -> (r: String)
        ensures
            r@ == duration_chars(ms as int),
    {
        format_duration_ms(ms)
    }

    /// The display string for clock reading `now`: the rendered elapsed
    /// reading, which is all zeros before the first start.
    pub fn display(&self, now: u64) -> (r: String)
        requires
            self.wf(),
            synced(self@, now as int),
            elapsed_at(self@, now as int) <= u64::MAX,
        ensures
            r@ == duration_chars(elapsed_at(self@, now as int)),
    {
        if self.is_running {
            let elapsed = self.get_elapsed(now);
            format_duration_ms(elapsed)
        } else {
            let r = "00:00:00.000".to_owned();
            proof {
                reveal_strlit("00:00:00.000");
                assert(r@ =~= duration_chars(0));
            }
            r
        }
    }

    /// The rendered differences between consecutive laps, in order: entry
    /// `i` is `laps[i + 1] - laps[i]` as `HH:MM:SS.mmm`; empty when fewer
    /// than two laps exist. A pure query.
    pub fn get_lap_differences(&self) -> (r: Vec<String>)
        requires
            self.wf(),
        ensures
            r@.len() == if self.lap_durations@.len() <= 1 {
                0int
            } else {
                self.lap_durations@.len() - 1
            },
            forall|i: int|
                0 <= i < r@.len() ==> (#[trigger] r@[i])@ == duration_chars(
                    self@.laps[i + 1] - self@.laps[i],
                ),
    {
        let mut differences: Vec<String> = Vec::new();
        if self.lap_durations.len() <= 1 {
            return differences;
        }
        let mut i: usize = 1;
        while i < self.lap_durations.len()
            invariant
                self.wf(),
                1 <= i <= self.lap_durations@.len(),
                differences@.len() == i - 1,
                forall|j: int|
                    0 <= j < differences@.len() ==> (#[trigger] differences@[j])@
                        == duration_chars(self@.laps[j + 1] - self@.laps[j]),
            decreases self.lap_durations@.len() - i,
        {
            let prev_lap = self.lap_durations[i - 1];
            let current_lap = self.lap_durations[i];
            proof {
                assert(self@.laps[i - 1] <= self@.laps[i as int]);
            }
            let diff = current_lap - prev_lap;
            differences.push(format_duration_ms(diff));
            i = i + 1;
        }
        differences
    }
}

} // verus!
