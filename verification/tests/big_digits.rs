use chronorust::big_digits_unicode::{format_big_time_unicode, get_big_digit_unicode};

#[test]
fn zero_glyph_is_exact() {
    assert_eq!(
        get_big_digit_unicode('0'),
        vec!["┌─────┐", "│  ●  │", "│ ● ● │", "│  ●  │", "└─────┘"]
    );
}

#[test]
fn colon_and_dot_glyphs_are_exact() {
    assert_eq!(
        get_big_digit_unicode(':'),
        vec!["       ", "   ●   ", "       ", "   ●   ", "       "]
    );
    assert_eq!(
        get_big_digit_unicode('.'),
        vec!["       ", "       ", "       ", "   ●   ", "       "]
    );
}

#[test]
fn unknown_characters_render_blank() {
    assert_eq!(
        get_big_digit_unicode('x'),
        vec!["       ", "       ", "       ", "       ", "       "]
    );
}

#[test]
fn every_clock_character_has_five_rows() {
    for ch in ['0', '1', '2', '3', '4', '5', '6', '7', '8', '9', ':', '.'] {
        assert_eq!(get_big_digit_unicode(ch).len(), 5);
    }
}

#[test]
fn empty_string_gives_five_empty_lines() {
    assert_eq!(format_big_time_unicode(""), vec![""; 5]);
}

#[test]
fn big_lines_concatenate_glyph_rows_with_spaces() {
    let one = get_big_digit_unicode('1');
    let colon = get_big_digit_unicode(':');
    let lines = format_big_time_unicode("1:");
    assert_eq!(lines.len(), 5);
    for i in 0..5 {
        let expected = format!("{} {} ", one[i], colon[i]);
        assert_eq!(lines[i], expected);
    }
}
