//! Big "digital clock" glyphs drawn with Unicode box characters: each digit
//! of a `HH:MM:SS.mmm` string becomes five rows of box art, and a whole time
//! string becomes five lines, one glyph per character with a single space
//! between glyphs. Characters outside the clock alphabet render as blanks.

use vstd::prelude::*;

verus! {

/// The number of rows every glyph spans.
pub const GLYPH_ROWS: usize = 5;

/// The five rows of the glyph for `digit`, top to bottom. Characters other
/// than the ten digits, `:` and `.` map to five blank rows.
pub open spec fn big_digit_rows(digit: char) -> Seq<Seq<char>> {
    if digit == '0' {
        seq!["┌─────┐"@, "│  ●  │"@, "│ ● ● │"@, "│  ●  │"@, "└─────┘"@]
    } else if digit == '1' {
        seq!["  ┌─┐  "@, "  │ │  "@, "  │ │  "@, "  │ │  "@, "  └─┘  "@]
    } else if digit == '2' {
        seq!["┌─────┐"@, "    ┌─┘"@, "┌───┘  "@, "└─────┐"@, "└─────┘"@]
    } else if digit == '3' {
        seq!["┌─────┐"@, "    ┌─┘"@, "┌───┘  "@, "    ┌─┘"@, "└─────┘"@]
    } else if digit == '4' {
        seq!["┌─  ┌─┐"@, "│   │ │"@, "└───┴─┘"@, "    │ │"@, "    └─┘"@]
    } else if digit == '5' {
        seq!["┌─────┐"@, "│     │"@, "└─────┐"@, "    ┌─┘"@, "└─────┘"@]
    } else if digit == '6' {
        seq!["┌─────┐"@, "│     │"@, "├─────┤"@, "│  ●  │"@, "└─────┘"@]
    } else if digit == '7' {
        seq!["┌─────┐"@, "    ┌─┘"@, "   ┌─┘ "@, "  ┌─┘  "@, " └─┘   "@]
    } else if digit == '8' {
        seq!["┌─────┐"@, "│  ●  │"@, "├─────┤"@, "│  ●  │"@, "└─────┘"@]
    } else if digit == '9' {
        seq!["┌─────┐"@, "│  ●  │"@, "├─────┤"@, "    ┌─┘"@, "└─────┘"@]
    } else if digit == ':' {
        seq!["       "@, "   ●   "@, "       "@, "   ●   "@, "       "@]
    } else if digit == '.' {
        seq!["       "@, "       "@, "       "@, "   ●   "@, "       "@]
    } else {
        seq!["       "@, "       "@, "       "@, "       "@, "       "@]
    }
}

/// Builds the five-row vector for one glyph.
fn rows5(
    r0: &'static str,
    r1: &'static str,
    r2: &'static str,
    r3: &'static str,
    r4: &'static str,
) -> (r: Vec<&'static str>)
    ensures
        r@.map_values(|s: &'static str| s@) == seq![r0@, r1@, r2@, r3@, r4@],
        r@.len() == 5,
{
    let mut v: Vec<&'static str> = Vec::new();
    v.push(r0);
    v.push(r1);
    v.push(r2);
    v.push(r3);
    v.push(r4);
    proof {
        assert(v@.map_values(|s: &'static str| s@) =~= seq![r0@, r1@, r2@, r3@, r4@]);
    }
    v
}

/// The five rows of box art for one character of a time string.
pub fn get_big_digit_unicode(digit: char) -> (r: Vec<&'static str>)
    ensures
        r@.map_values(|s: &'static str| s@) == big_digit_rows(digit),
        r@.len() == GLYPH_ROWS,
{
    if digit == '0' {
        rows5("┌─────┐", "│  ●  │", "│ ● ● │", "│  ●  │", "└─────┘")
    } else if digit == '1' {
        rows5("  ┌─┐  ", "  │ │  ", "  │ │  ", "  │ │  ", "  └─┘  ")
    } else if digit == '2' {
        rows5("┌─────┐", "    ┌─┘", "┌───┘  ", "└─────┐", "└─────┘")
    } else if digit == '3' {
        rows5("┌─────┐", "    ┌─┘", "┌───┘  ", "    ┌─┘", "└─────┘")
    } else if digit == '4' {
        rows5("┌─  ┌─┐", "│   │ │", "└───┴─┘", "    │ │", "    └─┘")
    } else if digit == '5' {
        rows5("┌─────┐", "│     │", "└─────┐", "    ┌─┘", "└─────┘")
    } else if digit == '6' {
        rows5("┌─────┐", "│     │", "├─────┤", "│  ●  │", "└─────┘")
    } else if digit == '7' {
        rows5("┌─────┐", "    ┌─┘", "   ┌─┘ ", "  ┌─┘  ", " └─┘   ")
    } else if digit == '8' {
        rows5("┌─────┐", "│  ●  │", "├─────┤", "│  ●  │", "└─────┘")
    } else if digit == '9' {
        rows5("┌─────┐", "│  ●  │", "├─────┤", "    ┌─┘", "└─────┘")
    } else if digit == ':' {
        rows5("       ", "   ●   ", "       ", "   ●   ", "       ")
    } else if digit == '.' {
        rows5("       ", "       ", "       ", "   ●   ", "       ")
    } else {
        rows5("       ", "       ", "       ", "       ", "       ")
    }
}

/// The five big-text lines for the character sequence `s`: the lines for
/// the prefix without the last character, with that character's glyph rows
/// and one trailing space appended row-wise. The empty sequence gives five
/// empty lines.
pub open spec fn big_time_lines(s: Seq<char>) -> Seq<Seq<char>>
    decreases s.len(),
{
    if s.len() == 0 {
        seq![
            Seq::<char>::empty(),
            Seq::<char>::empty(),
            Seq::<char>::empty(),
            Seq::<char>::empty(),
            Seq::<char>::empty(),
        ]
    } else {
        glue_glyph(big_time_lines(s.drop_last()), big_digit_rows(s.last()))
    }
}

/// Appends one glyph's rows, each followed by a single space, to the five
/// lines built so far.
pub open spec fn glue_glyph(lines: Seq<Seq<char>>, rows: Seq<Seq<char>>) -> Seq<Seq<char>> {
    Seq::new(5, |i: int| lines[i] + rows[i] + seq![' '])
}

/// Renders a whole time string as five big-text lines, one glyph per
/// character, glyphs separated by a single space.
pub fn format_big_time_unicode(time_str: &str) -> (r: Vec<String>)
    ensures
        r@.len() == GLYPH_ROWS,
        r@.map_values(|s: String| s@) == big_time_lines(time_str@),
{
    let mut lines: Vec<String> = Vec::new();
    let mut k: usize = 0;
    while k < GLYPH_ROWS
        invariant
            k <= 5,
            lines@.len() == k,
            forall|j: int| 0 <= j < k ==> (#[trigger] lines@[j])@ == Seq::<char>::empty(),
        decreases 5 - k,
    {
        lines.push(String::new());
        k = k + 1;
    }
    let n = time_str.unicode_len();
    let space = " ";
    proof {
        reveal_strlit(" ");
        assert(space@ =~= seq![' ']);
        assert(lines@.map_values(|s: String| s@) =~= big_time_lines(time_str@.take(0)));
    }
    let mut idx: usize = 0;
    while idx < n
        invariant
            idx <= n,
            n == time_str@.len(),
            space@ == seq![' '],
            lines@.len() == 5,
            lines@.map_values(|s: String| s@) == big_time_lines(time_str@.take(idx as int)),
        decreases n - idx,
    {
        let ch = time_str.get_char(idx);
        let glyph = get_big_digit_unicode(ch);
        let ghost prev_lines = lines@.map_values(|s: String| s@);
        let mut k: usize = 0;
        while k < GLYPH_ROWS
            invariant
                k <= 5,
                space@ == seq![' '],
                lines@.len() == 5,
                glyph@.len() == 5,
                glyph@.map_values(|s: &'static str| s@) == big_digit_rows(ch),
                forall|j: int|
                    0 <= j < k ==> (#[trigger] lines@[j])@ == prev_lines[j] + big_digit_rows(
                        ch,
                    )[j] + seq![' '],
                forall|j: int| k <= j < 5 ==> (#[trigger] lines@[j])@ == prev_lines[j],
            decreases 5 - k,
        {
            let row = glyph[k];
            proof {
                assert(glyph@.map_values(|s: &'static str| s@)[k as int] == row@);
            }
            lines[k].append(row);
            lines[k].append(space);
            k = k + 1;
        }
        proof {
            assert(time_str@.take(idx + 1).drop_last() =~= time_str@.take(idx as int));
            assert(time_str@.take(idx + 1).last() == time_str@[idx as int]);
            assert(lines@.map_values(|s: String| s@) =~= glue_glyph(
                prev_lines,
                big_digit_rows(ch),
            ));
            assert(lines@.map_values(|s: String| s@) =~= big_time_lines(
                time_str@.take(idx + 1),
            ));
        }
        idx = idx + 1;
    }
    proof {
        assert(time_str@.take(n as int) =~= time_str@);
    }
    lines
}

} // verus!
