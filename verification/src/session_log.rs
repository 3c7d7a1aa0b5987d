//! The text lines of the optional session log: a filename derived from the
//! session-start timestamp, a session-start marker, and one line per reset
//! or lap. The wall-clock timestamp renderings come from chrono; everything
//! assembled around them is verified. Writing the lines to a file is the
//! caller's business — the log is append-only and never read back.

use vstd::prelude::*;
use crate::duration_fmt::{dec_chars, dec_str};

verus! {

/// The last second of year 9999 as a UNIX timestamp. Timestamps up to here
/// are well inside the range chrono can represent, so rendering them cannot
/// fail.
pub const MAX_LOG_TIMESTAMP: i64 = 253_402_300_799;

/// What chrono renders for timestamp `secs` under `%d-%m-%y-%H-%M-%S`.
pub uninterp spec fn file_stamp_chars(secs: i64) -> Seq<char>;

/// What chrono renders for timestamp `secs` under `%Y-%m-%d %H:%M:%S`.
pub uninterp spec fn event_stamp_chars(secs: i64) -> Seq<char>;

/// Relies on chrono's `DateTime::from_timestamp` — total over the admitted
/// range, per its source — and on `DateTime::format` with the fixed pattern
/// `%d-%m-%y-%H-%M-%S`: purely numeric fields of a UTC date, no locale, so
/// the result is a function of the seconds value alone.
#[verifier::external_body]
fn file_stamp(secs: i64) -> (r: String)
    requires
        0 <= secs <= MAX_LOG_TIMESTAMP,
    ensures
        r@ == file_stamp_chars(secs),
{
    let datetime = chrono::DateTime::from_timestamp(secs, 0).unwrap();
    datetime.format("%d-%m-%y-%H-%M-%S").to_string()
}

/// Relies on chrono's `DateTime::from_timestamp` — total over the admitted
/// range, per its source — and on `DateTime::format` with the fixed pattern
/// `%Y-%m-%d %H:%M:%S`: purely numeric fields of a UTC date, no locale, so
/// the result is a function of the seconds value alone.
#[verifier::external_body]
fn event_stamp(secs: i64) -> (r: String)
    requires
        0 <= secs <= MAX_LOG_TIMESTAMP,
    ensures
        r@ == event_stamp_chars(secs),
{
    let datetime = chrono::DateTime::from_timestamp(secs, 0).unwrap();
    datetime.format("%Y-%m-%d %H:%M:%S").to_string()
}

/// The log filename for a session that started at timestamp `secs`.
pub fn log_filename(secs: i64) -> (r: String)
    requires
        0 <= secs <= MAX_LOG_TIMESTAMP,
    ensures
        r@ == "ChronoRust-"@ + file_stamp_chars(secs) + "-log.txt"@,
{
    let mut r = "ChronoRust-".to_owned();
    let stamp = file_stamp(secs);
    r.append(stamp.as_str());
    r.append("-log.txt");
    r
}

/// The session-start marker line for a session that started at `secs`.
pub fn session_start_line(secs: i64) -> (r: String)
    requires
        0 <= secs <= MAX_LOG_TIMESTAMP,
    ensures
        r@ == "ChronoRust Session Started: "@ + event_stamp_chars(secs),
{
    let mut r = "ChronoRust Session Started: ".to_owned();
    let stamp = event_stamp(secs);
    r.append(stamp.as_str());
    r
}

/// The ruler line written under the session-start marker.
pub fn session_separator() -> (r: String)
    ensures
        r@ == "================================================"@,
{
    "================================================".to_owned()
}

/// The line logged for a reset at timestamp `secs`.
pub fn reset_log_line(secs: i64) -> (r: String)
    requires
        0 <= secs <= MAX_LOG_TIMESTAMP,
    ensures
        r@ == "Reset at: "@ + event_stamp_chars(secs),
{
    let mut r = "Reset at: ".to_owned();
    let stamp = event_stamp(secs);
    r.append(stamp.as_str());
    r
}

/// The line logged for lap number `lap_number` (1-based), recorded at
/// timestamp `secs` with the already-rendered lap time `lap_time`.
pub fn lap_log_line(lap_number: u64, secs: i64, lap_time: &str) -> (r: String)
    requires
        0 <= secs <= MAX_LOG_TIMESTAMP,
    ensures
        r@ == "Lap "@ + dec_chars(lap_number as int) + " at: "@ + event_stamp_chars(secs)
            + " - Time: "@ + lap_time@,
{
    let mut r = "Lap ".to_owned();
    let number = dec_str(lap_number);
    r.append(number.as_str());
    r.append(" at: ");
    let stamp = event_stamp(secs);
    r.append(stamp.as_str());
    r.append(" - Time: ");
    r.append(lap_time);
    r
}

} // verus!
