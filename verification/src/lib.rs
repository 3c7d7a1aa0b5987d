//! A verified stopwatch engine for a terminal chronometer: elapsed-time
//! bookkeeping across pause/resume cycles, lap capture with deltas,
//! canonical `HH:MM:SS.mmm` formatting, and big-digit glyph rendering.

pub mod big_digits_unicode;
pub mod controller;
pub mod duration_fmt;
pub mod engine;
pub mod model;
pub mod session_log;
