//! The device line grammar: three comma-separated fields, trimmed, with a
//! decimal temperature, an integer motion flag and an integer sound level.

use patient_monitor::parse::parse_line;

const TS: i64 = 1705314600;

#[test]
fn test_valid_line_parses() {
    let r = parse_line("23.5,1,150", TS).unwrap();
    assert_eq!(r.temperature_centi, 2350);
    assert_eq!(r.motion, true);
    assert_eq!(r.sound_level, 150);
    assert_eq!(r.timestamp, TS);
}

#[test]
fn test_fields_are_trimmed() {
    let r = parse_line(" 22.5 , 0 ,\t75 ", TS).unwrap();
    assert_eq!(r.temperature_centi, 2250);
    assert_eq!(r.motion, false);
    assert_eq!(r.sound_level, 75);
}

#[test]
fn test_two_fields_skipped() {
    assert!(parse_line("abc,1", TS).is_none());
}

#[test]
fn test_non_numeric_field_skipped() {
    assert!(parse_line("x,1,5", TS).is_none());
}

#[test]
fn test_reader_continues_after_malformed_lines() {
    assert!(parse_line("abc,1", TS).is_none());
    assert!(parse_line("x,1,5", TS).is_none());
    let r = parse_line("21.0,1,200", TS + 1).unwrap();
    assert_eq!(r.temperature_centi, 2100);
    assert_eq!(r.motion, true);
    assert_eq!(r.sound_level, 200);
}

#[test]
fn test_four_fields_skipped() {
    assert!(parse_line("20.0,1,5,9", TS).is_none());
}

#[test]
fn test_empty_line_skipped() {
    assert!(parse_line("", TS).is_none());
}

#[test]
fn test_integer_temperature() {
    let r = parse_line("24,0,10", TS).unwrap();
    assert_eq!(r.temperature_centi, 2400);
}

#[test]
fn test_negative_temperature() {
    let r = parse_line("-5.25,0,10", TS).unwrap();
    assert_eq!(r.temperature_centi, -525);
}

#[test]
fn test_plus_signs_accepted() {
    let r = parse_line("+1.5,+1,+7", TS).unwrap();
    assert_eq!(r.temperature_centi, 150);
    assert_eq!(r.motion, true);
    assert_eq!(r.sound_level, 7);
}

#[test]
fn test_fraction_truncated_to_hundredths() {
    let r = parse_line("1.5555,0,0", TS).unwrap();
    assert_eq!(r.temperature_centi, 155);
}

#[test]
fn test_single_fraction_digit() {
    let r = parse_line("1.05,0,0", TS).unwrap();
    assert_eq!(r.temperature_centi, 105);
}

#[test]
fn test_bare_point_forms_skipped() {
    assert!(parse_line(".5,0,0", TS).is_none());
    assert!(parse_line("5.,0,0", TS).is_none());
}

#[test]
fn test_motion_flag_nonzero_means_motion() {
    assert_eq!(parse_line("20,2,0", TS).unwrap().motion, true);
    assert_eq!(parse_line("20,-1,0", TS).unwrap().motion, true);
    assert_eq!(parse_line("20,0,0", TS).unwrap().motion, false);
}

#[test]
fn test_sound_level_i32_bounds() {
    assert_eq!(parse_line("20,0,2147483647", TS).unwrap().sound_level, 2147483647);
    assert!(parse_line("20,0,2147483648", TS).is_none());
    assert_eq!(parse_line("20,0,-2147483648", TS).unwrap().sound_level, -2147483648);
    assert!(parse_line("20,0,-2147483649", TS).is_none());
}

#[test]
fn test_huge_temperature_skipped() {
    assert!(parse_line("1000000000,0,0", TS).is_none());
    assert_eq!(parse_line("999999999,0,0", TS).unwrap().temperature_centi, 99999999900);
}
