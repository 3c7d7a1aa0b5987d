//! The abstract state machine of the stopwatch engine.
//!
//! A [`Model`] value is the mathematical shadow of the executable engine:
//! elapsed time is read off it relative to a caller-supplied monotonic clock
//! reading, and each engine operation is a pure transition function on it.
//! The lemmas at the end state the laws the machine obeys: elapsed time never
//! decreases across pause/resume sequences, a reset zeroes everything, a
//! pause/resume pair does not count the paused interval, a lap taken while
//! paused records the frozen accumulated value, and pausing twice in a row
//! accrues nothing twice.

use vstd::prelude::*;

verus! {

/// Abstract stopwatch state.
pub struct Model {
    /// True once started; never falls back to false except at construction.
    pub running: bool,
    /// True while time accrual is suspended.
    pub paused: bool,
    /// Milliseconds accrued across all run segments already folded in;
    /// frozen while paused.
    pub accumulated: int,
    /// Monotonic-clock anchor of the current run segment; `None` only before
    /// the first start.
    pub anchor: Option<int>,
    /// Cumulative elapsed time at each recorded lap, in recording order.
    pub laps: Seq<int>,
}

/// Elapsed time read at clock value `now`: the frozen accumulator while
/// paused, the accumulator plus the open segment while running, zero before
/// the first start.
pub open spec fn elapsed_at(m: Model, now: int) -> int {
    if m.paused {
        m.accumulated
    } else if m.anchor is Some {
        m.accumulated + now - m.anchor->0
    } else {
        0
    }
}

/// Structural well-formedness of a stopwatch state.
pub open spec fn wf(m: Model) -> bool {
    &&& m.paused ==> m.running
    &&& m.running <==> m.anchor is Some
    &&& !m.running ==> m.laps.len() == 0 && m.accumulated == 0 && !m.paused
    &&& m.accumulated >= 0
    &&& forall|i: int| 0 <= i < m.laps.len() ==> #[trigger] m.laps[i] >= 0
    &&& forall|i: int| 0 <= i < m.laps.len() - 1 ==> #[trigger] m.laps[i] <= m.laps[i + 1]
}

/// The clock has caught up with the state: `now` is at least the anchor of
/// the open segment, and the newest lap does not exceed the current elapsed
/// reading. This holds whenever every clock value fed to the engine so far
/// was at most `now`, which a monotonic clock guarantees.
pub open spec fn synced(m: Model, now: int) -> bool {
    &&& m.running && !m.paused ==> m.anchor->0 <= now
    &&& m.laps.len() > 0 ==> m.laps.last() <= elapsed_at(m, now)
}

/// `start`: re-arm the segment anchor and zero the accumulator; laps are
/// untouched (the engine only starts from a fresh state, where they are
/// empty; `reset` is the operation that clears them).
pub open spec fn start_tr(m: Model, now: int) -> Model {
    Model { running: true, paused: false, accumulated: 0, anchor: Some(now), laps: m.laps }
}

/// `reset`: `start` plus clearing the laps; legal in every state.
pub open spec fn reset_tr(m: Model, now: int) -> Model {
    Model { running: true, paused: false, accumulated: 0, anchor: Some(now), laps: Seq::empty() }
}

/// `pause`: fold the open segment into the accumulator and freeze; a silent
/// no-op unless running and not yet paused.
pub open spec fn pause_tr(m: Model, now: int) -> Model {
    if m.running && !m.paused {
        Model {
            running: m.running,
            paused: true,
            accumulated: elapsed_at(m, now),
            anchor: m.anchor,
            laps: m.laps,
        }
    } else {
        m
    }
}

/// `resume`: re-arm the anchor and unfreeze; a silent no-op unless paused.
pub open spec fn resume_tr(m: Model, now: int) -> Model {
    if m.running && m.paused {
        Model {
            running: m.running,
            paused: false,
            accumulated: m.accumulated,
            anchor: Some(now),
            laps: m.laps,
        }
    } else {
        m
    }
}

/// `recordLap`: append the current elapsed reading; a silent no-op unless
/// running. Pausing does not block laps: a lap taken while paused records
/// the frozen accumulator.
pub open spec fn lap_tr(m: Model, now: int) -> Model {
    if m.running {
        Model {
            running: m.running,
            paused: m.paused,
            accumulated: m.accumulated,
            anchor: m.anchor,
            laps: m.laps.push(elapsed_at(m, now)),
        }
    } else {
        m
    }
}

/// With the state fixed, the elapsed reading never decreases as the clock
/// advances.
pub proof fn lemma_elapsed_monotone_in_time(m: Model, t1: int, t2: int)
    requires
        t1 <= t2,
    ensures
        elapsed_at(m, t1) <= elapsed_at(m, t2),
{
}

/// A synced state stays synced as the clock advances.
pub proof fn lemma_synced_later(m: Model, t1: int, t2: int)
    requires
        synced(m, t1),
        t1 <= t2,
    ensures
        synced(m, t2),
{
    lemma_elapsed_monotone_in_time(m, t1, t2);
}

/// A reset always yields a running state with zero elapsed time and no laps,
/// regardless of the prior state.
pub proof fn lemma_reset_zeroes(m: Model, now: int)
    ensures
        elapsed_at(reset_tr(m, now), now) == 0,
        reset_tr(m, now).laps == Seq::<int>::empty(),
        wf(reset_tr(m, now)),
        synced(reset_tr(m, now), now),
{
}

/// A pause followed by a resume leaves the elapsed reading exactly where it
/// stood when the pause happened: the paused interval is not counted.
pub proof fn lemma_pause_resume_keeps_elapsed(m: Model, t_pause: int, t_resume: int)
    requires
        m.running,
        !m.paused,
    ensures
        elapsed_at(resume_tr(pause_tr(m, t_pause), t_resume), t_resume) == elapsed_at(m, t_pause),
{
}

/// A lap recorded while paused appends the frozen accumulated value,
/// unchanged from the most recent pre-pause reading.
pub proof fn lemma_lap_while_paused_records_accumulated(m: Model, now: int)
    requires
        m.running,
        m.paused,
    ensures
        lap_tr(m, now).laps == m.laps.push(m.accumulated),
{
}

/// Pausing twice in a row is a no-op the second time: the accumulator is not
/// accrued into twice.
pub proof fn lemma_pause_twice_no_double_accrual(m: Model, t1: int, t2: int)
    ensures
        pause_tr(pause_tr(m, t1), t2) == pause_tr(m, t1),
        pause_tr(pause_tr(m, t1), t2).accumulated == pause_tr(m, t1).accumulated,
{
}

/// One step of a pause/resume sequence.
pub enum Toggle {
    Pause,
    Resume,
}

/// The transition a single pause or resume call makes at clock value `now`.
pub open spec fn toggle_tr(m: Model, op: Toggle, now: int) -> Model {
    match op {
        Toggle::Pause => pause_tr(m, now),
        Toggle::Resume => resume_tr(m, now),
    }
}

/// The state after a sequence of pause/resume calls, each paired with its
/// clock reading, applied in order.
pub open spec fn run_toggles(m: Model, ops: Seq<(Toggle, int)>) -> Model
    decreases ops.len(),
{
    if ops.len() == 0 {
        m
    } else {
        toggle_tr(run_toggles(m, ops.drop_last()), ops.last().0, ops.last().1)
    }
}

/// The clock readings of the sequence never decrease, starting from `t0`.
pub open spec fn times_ordered(ops: Seq<(Toggle, int)>, t0: int) -> bool {
    &&& ops.len() > 0 ==> t0 <= ops[0].1
    &&& forall|i: int| 0 <= i < ops.len() - 1 ==> #[trigger] ops[i].1 <= ops[i + 1].1
}

/// The clock reading in force just after the first `i` calls of the
/// sequence: `t0` before any call, else the time of call `i - 1`.
pub open spec fn time_after(ops: Seq<(Toggle, int)>, t0: int, i: int) -> int {
    if i == 0 {
        t0
    } else {
        ops[i - 1].1
    }
}

/// The elapsed reading observed just after the first `i` calls of the
/// sequence, at the clock value of the most recent call.
pub open spec fn elapsed_after(m: Model, ops: Seq<(Toggle, int)>, t0: int, i: int) -> int {
    elapsed_at(run_toggles(m, ops.take(i)), time_after(ops, t0, i))
}

/// One pause or resume call keeps the state well-formed and synced, and
/// never lowers the elapsed reading.
pub proof fn lemma_toggle_step(m: Model, op: Toggle, t1: int, t2: int)
    requires
        wf(m),
        synced(m, t1),
        t1 <= t2,
    ensures
        wf(toggle_tr(m, op, t1)),
        synced(toggle_tr(m, op, t1), t2),
        elapsed_at(toggle_tr(m, op, t1), t2) >= elapsed_at(m, t1),
{
    lemma_elapsed_monotone_in_time(m, t1, t2);
    lemma_elapsed_monotone_in_time(toggle_tr(m, op, t1), t1, t2);
    lemma_synced_later(m, t1, t2);
}

/// After any prefix of an ordered pause/resume sequence the state is still
/// well-formed and synced, and each call left the elapsed reading at least
/// where the previous observation stood.
pub proof fn lemma_run_prefix(m: Model, ops: Seq<(Toggle, int)>, t0: int, i: int)
    requires
        wf(m),
        synced(m, t0),
        times_ordered(ops, t0),
        0 <= i <= ops.len(),
    ensures
        wf(run_toggles(m, ops.take(i))),
        synced(run_toggles(m, ops.take(i)), time_after(ops, t0, i)),
        i > 0 ==> elapsed_after(m, ops, t0, i) >= elapsed_after(m, ops, t0, i - 1),
    decreases i,
{
    if i == 0 {
        assert(ops.take(0) =~= Seq::<(Toggle, int)>::empty());
    } else {
        lemma_run_prefix(m, ops, t0, i - 1);
        assert(ops.take(i).drop_last() =~= ops.take(i - 1));
        assert(time_after(ops, t0, i - 1) <= ops[i - 1].1);
        lemma_toggle_step(
            run_toggles(m, ops.take(i - 1)),
            ops[i - 1].0,
            ops[i - 1].1,
            ops[i - 1].1,
        );
        lemma_synced_later(
            run_toggles(m, ops.take(i - 1)),
            time_after(ops, t0, i - 1),
            ops[i - 1].1,
        );
        lemma_elapsed_monotone_in_time(
            run_toggles(m, ops.take(i - 1)),
            time_after(ops, t0, i - 1),
            ops[i - 1].1,
        );
    }
}

/// Across any sequence of pause/resume calls with non-decreasing clock
/// readings, the elapsed reading observed immediately after each call is
/// monotonically non-decreasing.
pub proof fn lemma_toggle_seq_elapsed_nondecreasing(m: Model, ops: Seq<(Toggle, int)>, t0: int)
    requires
        wf(m),
        synced(m, t0),
        times_ordered(ops, t0),
    ensures
        forall|i: int|
            0 <= i < ops.len() ==> #[trigger] elapsed_after(m, ops, t0, i + 1) >= elapsed_after(
                m,
                ops,
                t0,
                i,
            ),
{
    assert forall|i: int| 0 <= i < ops.len() implies #[trigger] elapsed_after(m, ops, t0, i + 1)
        >= elapsed_after(m, ops, t0, i) by {
        lemma_run_prefix(m, ops, t0, i + 1);
    }
}

} // verus!
