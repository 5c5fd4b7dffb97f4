use pokedex::decimal::{append_decimal, append_tenths, digit_str, format_decimal, format_tenths};

#[test]
fn digits_have_their_own_characters() {
    let expected = ["0", "1", "2", "3", "4", "5", "6", "7", "8", "9"];
    for d in 0..10u32 {
        assert_eq!(digit_str(d), expected[d as usize]);
    }
}

#[test]
fn decimal_of_zero_is_one_digit() {
    assert_eq!(format_decimal(0), "0");
}

#[test]
fn decimal_has_no_leading_zeros() {
    assert_eq!(format_decimal(7), "7");
    assert_eq!(format_decimal(10), "10");
    assert_eq!(format_decimal(25), "25");
    assert_eq!(format_decimal(255), "255");
    assert_eq!(format_decimal(1000), "1000");
    assert_eq!(format_decimal(65535), "65535");
}

#[test]
fn decimal_of_the_largest_value() {
    assert_eq!(format_decimal(u32::MAX), "4294967295");
}

#[test]
fn decimal_agrees_with_the_standard_library() {
    for n in 0..2000u32 {
        assert_eq!(format_decimal(n), n.to_string());
    }
}

#[test]
fn append_decimal_keeps_what_was_there() {
    let mut out = String::from("n=");
    append_decimal(&mut out, 42);
    assert_eq!(out, "n=42");
}

#[test]
fn twelve_tenths_are_one_point_two() {
    assert_eq!(format_tenths(12), "1.2");
}

#[test]
fn tenths_keep_one_decimal_place() {
    assert_eq!(format_tenths(0), "0.0");
    assert_eq!(format_tenths(4), "0.4");
    assert_eq!(format_tenths(60), "6.0");
    assert_eq!(format_tenths(69), "6.9");
    assert_eq!(format_tenths(9999), "999.9");
    assert_eq!(format_tenths(u16::MAX), "6553.5");
}

#[test]
fn tenths_agree_with_floating_point_display() {
    for value in 0..=u16::MAX {
        let expected = format!("{:.1}", value as f32 / 10.0);
        assert_eq!(format_tenths(value), expected);
    }
}

#[test]
fn append_tenths_keeps_what_was_there() {
    let mut out = String::from("weight: ");
    append_tenths(&mut out, 905);
    assert_eq!(out, "weight: 90.5");
}
