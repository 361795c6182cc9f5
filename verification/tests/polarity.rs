use hall_analog::{
    deviation_from_raw, polarity_from_raw, raw_from_reading, MagneticPolarity,
    ZERO_FIELD_RAW_12BIT, ZERO_FIELD_RAW_14BIT,
};

#[test]
fn rest_points_match_the_documented_values() {
    assert_eq!(ZERO_FIELD_RAW_12BIT, 2048);
    assert_eq!(ZERO_FIELD_RAW_14BIT, 8192);
}

#[test]
fn south_pole_above_the_dead_band() {
    assert_eq!(polarity_from_raw(2099, 2048, 50), MagneticPolarity::SouthPole);
    assert_eq!(polarity_from_raw(4095, 2048, 50), MagneticPolarity::SouthPole);
}

#[test]
fn north_pole_below_the_dead_band() {
    assert_eq!(polarity_from_raw(1997, 2048, 50), MagneticPolarity::NorthPole);
    assert_eq!(polarity_from_raw(0, 2048, 50), MagneticPolarity::NorthPole);
}

#[test]
fn no_field_inside_the_dead_band_edges_included() {
    assert_eq!(polarity_from_raw(2098, 2048, 50), MagneticPolarity::NoField);
    assert_eq!(polarity_from_raw(1998, 2048, 50), MagneticPolarity::NoField);
    assert_eq!(polarity_from_raw(2048, 2048, 50), MagneticPolarity::NoField);
}

#[test]
fn fourteen_bit_rest_point_with_wider_dead_band() {
    assert_eq!(polarity_from_raw(8393, ZERO_FIELD_RAW_14BIT, 200), MagneticPolarity::SouthPole);
    assert_eq!(polarity_from_raw(8392, ZERO_FIELD_RAW_14BIT, 200), MagneticPolarity::NoField);
    assert_eq!(polarity_from_raw(7991, ZERO_FIELD_RAW_14BIT, 200), MagneticPolarity::NorthPole);
}

#[test]
fn upper_threshold_saturates_without_overflow() {
    // zero + deadband exceeds u16::MAX: no reading can be a south pole.
    assert_eq!(polarity_from_raw(u16::MAX, 60000, 10000), MagneticPolarity::NoField);
    assert_eq!(polarity_from_raw(49999, 60000, 10000), MagneticPolarity::NorthPole);
}

#[test]
fn lower_threshold_saturates_without_underflow() {
    // zero - deadband is below 0: no reading can be a north pole.
    assert_eq!(polarity_from_raw(0, 30, 50), MagneticPolarity::NoField);
    assert_eq!(polarity_from_raw(81, 30, 50), MagneticPolarity::SouthPole);
}

#[test]
fn zero_dead_band_splits_at_the_rest_point() {
    assert_eq!(polarity_from_raw(2048, 2048, 0), MagneticPolarity::NoField);
    assert_eq!(polarity_from_raw(2049, 2048, 0), MagneticPolarity::SouthPole);
    assert_eq!(polarity_from_raw(2047, 2048, 0), MagneticPolarity::NorthPole);
}

#[test]
fn widening_the_dead_band_keeps_no_field() {
    assert_eq!(polarity_from_raw(2080, 2048, 40), MagneticPolarity::NoField);
    assert_eq!(polarity_from_raw(2080, 2048, 400), MagneticPolarity::NoField);
    assert_eq!(polarity_from_raw(2080, 2048, 20), MagneticPolarity::SouthPole);
}

#[test]
fn mirrored_readings_get_opposite_poles() {
    assert_eq!(polarity_from_raw(2148, 2048, 50), MagneticPolarity::SouthPole);
    assert_eq!(polarity_from_raw(1948, 2048, 50), MagneticPolarity::NorthPole);
}

#[test]
fn deviation_is_signed_distance_from_rest_point() {
    assert_eq!(deviation_from_raw(2148, ZERO_FIELD_RAW_12BIT), 100);
    assert_eq!(deviation_from_raw(1948, ZERO_FIELD_RAW_12BIT), -100);
    assert_eq!(deviation_from_raw(2048, ZERO_FIELD_RAW_12BIT), 0);
}

#[test]
fn deviation_extremes_fit_in_i32() {
    assert_eq!(deviation_from_raw(u16::MAX, 0), 65535);
    assert_eq!(deviation_from_raw(0, u16::MAX), -65535);
}

#[test]
fn deviation_sign_agrees_with_polarity() {
    let raw = 2300;
    assert!(deviation_from_raw(raw, 2048) > 50);
    assert_eq!(polarity_from_raw(raw, 2048, 50), MagneticPolarity::SouthPole);
    let raw = 1700;
    assert!(deviation_from_raw(raw, 2048) < -50);
    assert_eq!(polarity_from_raw(raw, 2048, 50), MagneticPolarity::NorthPole);
}

#[test]
fn failed_conversion_reads_as_zero() {
    assert_eq!(raw_from_reading(None), 0);
    assert_eq!(raw_from_reading(Some(3071)), 3071);
}
