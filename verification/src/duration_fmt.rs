//! Canonical formatting of a duration, measured in whole milliseconds, as
//! `HH:MM:SS.mmm`: fields are produced by integer division and modulo on the
//! total millisecond count, zero-padded to two digits for hours, minutes and
//! seconds and three digits for milliseconds. Durations of 100 hours or more
//! simply widen the hour field; nothing is rejected.

use vstd::prelude::*;
use vstd::arithmetic::div_mod::{
    lemma_div_pos_is_pos, lemma_fundamental_div_mod, lemma_mod_bound, lemma_mod_mod,
    lemma_multiply_divide_lt,
};

verus! {

pub const MS_PER_HOUR: u64 = 3_600_000;

pub const MS_PER_MINUTE: u64 = 60_000;

pub const MS_PER_SECOND: u64 = 1_000;

/// The character denoting a single decimal digit.
pub open spec fn digit_char(d: int) -> char {
    if d == 0 {
        '0'
    } else if d == 1 {
        '1'
    } else if d == 2 {
        '2'
    } else if d == 3 {
        '3'
    } else if d == 4 {
        '4'
    } else if d == 5 {
        '5'
    } else if d == 6 {
        '6'
    } else if d == 7 {
        '7'
    } else if d == 8 {
        '8'
    } else {
        '9'
    }
}

/// The decimal digits of `n`, most significant first, with no leading zeros.
pub open spec fn dec_chars(n: int) -> Seq<char>
    decreases n,
{
    if n < 10 {
        seq![digit_char(n)]
    } else {
        dec_chars(n / 10) + seq![digit_char(n % 10)]
    }
}

/// `n` in decimal, left-padded with zeros to at least two digits.
pub open spec fn pad2_chars(n: int) -> Seq<char> {
    if n < 10 {
        seq!['0'] + dec_chars(n)
    } else {
        dec_chars(n)
    }
}

/// `n` in decimal, left-padded with zeros to at least three digits.
pub open spec fn pad3_chars(n: int) -> Seq<char> {
    if n < 10 {
        seq!['0', '0'] + dec_chars(n)
    } else if n < 100 {
        seq!['0'] + dec_chars(n)
    } else {
        dec_chars(n)
    }
}

/// The whole-hour field of a duration of `ms` milliseconds.
pub open spec fn hours_of(ms: int) -> int {
    ms / (MS_PER_HOUR as int)
}

/// The minute field (0..59) of a duration of `ms` milliseconds.
pub open spec fn minutes_of(ms: int) -> int {
    (ms % (MS_PER_HOUR as int)) / (MS_PER_MINUTE as int)
}

/// The second field (0..59) of a duration of `ms` milliseconds.
pub open spec fn seconds_of(ms: int) -> int {
    (ms % (MS_PER_MINUTE as int)) / (MS_PER_SECOND as int)
}

/// The millisecond field (0..999) of a duration of `ms` milliseconds.
pub open spec fn millis_of(ms: int) -> int {
    ms % (MS_PER_SECOND as int)
}

/// The canonical `HH:MM:SS.mmm` rendering of a duration of `ms` milliseconds.
pub open spec fn duration_chars(ms: int) -> Seq<char> {
    pad2_chars(hours_of(ms)) + seq![':'] + pad2_chars(minutes_of(ms)) + seq![':']
        + pad2_chars(seconds_of(ms)) + seq!['.'] + pad3_chars(millis_of(ms))
}

/// The formatting decomposition round-trips: the four fields that
/// `duration_chars` renders — produced by integer division and modulo on the
/// total millisecond count — reconstruct that count exactly, and the three
/// low fields lie within their display ranges (the hour field alone may
/// exceed two digits, in which case it simply widens).
pub proof fn lemma_duration_decomposition(ms: int)
    requires
        0 <= ms,
    ensures
        hours_of(ms) * (MS_PER_HOUR as int) + minutes_of(ms) * (MS_PER_MINUTE as int)
            + seconds_of(ms) * (MS_PER_SECOND as int) + millis_of(ms) == ms,
        0 <= hours_of(ms),
        0 <= minutes_of(ms) < 60,
        0 <= seconds_of(ms) < 60,
        0 <= millis_of(ms) < 1000,
{
    let hour_ms = MS_PER_HOUR as int;
    let minute_ms = MS_PER_MINUTE as int;
    let second_ms = MS_PER_SECOND as int;
    lemma_fundamental_div_mod(ms, hour_ms);
    lemma_mod_bound(ms, hour_ms);
    lemma_div_pos_is_pos(ms, hour_ms);
    let r1 = ms % hour_ms;
    assert(minute_ms * 60 == hour_ms);
    lemma_mod_mod(ms, minute_ms, 60);
    lemma_fundamental_div_mod(r1, minute_ms);
    lemma_mod_bound(ms, minute_ms);
    lemma_div_pos_is_pos(r1, minute_ms);
    lemma_multiply_divide_lt(r1, minute_ms, 60);
    let r2 = ms % minute_ms;
    assert(second_ms * 60 == minute_ms);
    lemma_mod_mod(ms, second_ms, 60);
    lemma_fundamental_div_mod(r2, second_ms);
    lemma_mod_bound(ms, second_ms);
    lemma_div_pos_is_pos(r2, second_ms);
    lemma_multiply_divide_lt(r2, second_ms, 60);
}

/// The string holding a single decimal digit.
fn digit_str(d: u64) -> (r: &'static str)
    requires
        d < 10,
    ensures
        r@ == seq![digit_char(d as int)],
{
    let r: &'static str = match d {
        0 => "0",
        1 => "1",
        2 => "2",
        3 => "3",
        4 => "4",
        5 => "5",
        6 => "6",
        7 => "7",
        8 => "8",
        _ => "9",
    };
    proof {
        reveal_strlit("0");
        reveal_strlit("1");
        reveal_strlit("2");
        reveal_strlit("3");
        reveal_strlit("4");
        reveal_strlit("5");
        reveal_strlit("6");
        reveal_strlit("7");
        reveal_strlit("8");
        reveal_strlit("9");
        assert(r@ =~= seq![digit_char(d as int)]);
    }
    r
}

/// `n` in decimal with no leading zeros.
pub fn dec_str(n: u64) -> (r: String)
    ensures
        r@ == dec_chars(n as int),
    decreases n,
{
    if n < 10 {
        digit_str(n).to_owned()
    } else {
        let mut r = dec_str(n / 10);
        r.append(digit_str(n % 10));
        r
    }
}

/// `n` in decimal, zero-padded to at least two digits.
pub fn pad2_str(n: u64) -> (r: String)
    ensures
        r@ == pad2_chars(n as int),
{
    if n < 10 {
        let mut r = "0".to_owned();
        proof {
            reveal_strlit("0");
            assert(r@ =~= seq!['0']);
        }
        let d = dec_str(n);
        r.append(d.as_str());
        r
    } else {
        dec_str(n)
    }
}

/// `n` in decimal, zero-padded to at least three digits.
pub fn pad3_str(n: u64) -> (r: String)
    ensures
        r@ == pad3_chars(n as int),
{
    if n < 100 {
        let mut r = "0".to_owned();
        proof {
            reveal_strlit("0");
            assert(r@ =~= seq!['0']);
        }
        let d = pad2_str(n);
        r.append(d.as_str());
        proof {
            assert(r@ =~= pad3_chars(n as int));
        }
        r
    } else {
        dec_str(n)
    }
}

/// Renders a duration of `ms` milliseconds as `HH:MM:SS.mmm`, truncating
/// toward zero at the millisecond (no rounding happens here: the input is
/// already whole milliseconds).
pub fn format_duration_ms(ms: u64) -> (r: String)
    ensures
        r@ == duration_chars(ms as int),
{
    let hours = ms / MS_PER_HOUR;
    let minutes = (ms % MS_PER_HOUR) / MS_PER_MINUTE;
    let seconds = (ms % MS_PER_MINUTE) / MS_PER_SECOND;
    let millis = ms % MS_PER_SECOND;
    let colon = ":";
    let dot = ".";
    proof {
        reveal_strlit(":");
        reveal_strlit(".");
        assert(colon@ =~= seq![':']);
        assert(dot@ =~= seq!['.']);
    }
    let mut r = pad2_str(hours);
    r.append(colon);
    let m = pad2_str(minutes);
    r.append(m.as_str());
    r.append(colon);
    let s = pad2_str(seconds);
    r.append(s.as_str());
    r.append(dot);
    let mm = pad3_str(millis);
    r.append(mm.as_str());
    proof {
        assert(r@ =~= duration_chars(ms as int));
    }
    r
}

} // verus!
