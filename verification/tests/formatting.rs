use chronorust::duration_fmt::{dec_str, format_duration_ms, pad2_str, pad3_str};

#[test]
fn format_zero() {
    assert_eq!(format_duration_ms(0), "00:00:00.000");
}

#[test]
fn format_half_second() {
    assert_eq!(format_duration_ms(500), "00:00:00.500");
}

#[test]
fn format_all_fields() {
    assert_eq!(format_duration_ms(3_661_234), "01:01:01.234");
}

#[test]
fn format_just_under_minute() {
    assert_eq!(format_duration_ms(59_999), "00:00:59.999");
}

#[test]
fn format_just_under_hour() {
    assert_eq!(format_duration_ms(3_599_999), "00:59:59.999");
}

#[test]
fn format_widens_beyond_99_hours() {
    assert_eq!(format_duration_ms(100 * 3_600_000), "100:00:00.000");
    assert_eq!(format_duration_ms(99 * 3_600_000 + 59 * 60_000 + 59_000 + 999), "99:59:59.999");
}

#[test]
fn decimal_rendering() {
    assert_eq!(dec_str(0), "0");
    assert_eq!(dec_str(7), "7");
    assert_eq!(dec_str(1_234_567), "1234567");
}

#[test]
fn zero_padding() {
    assert_eq!(pad2_str(7), "07");
    assert_eq!(pad2_str(42), "42");
    assert_eq!(pad2_str(123), "123");
    assert_eq!(pad3_str(7), "007");
    assert_eq!(pad3_str(42), "042");
    assert_eq!(pad3_str(999), "999");
    assert_eq!(pad3_str(1000), "1000");
}
