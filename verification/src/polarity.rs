use vstd::prelude::*;

verus! {

/// ADC value that corresponds to no magnetic field, 12-bit ADC (RP2040).
///
/// Real modules drift a little from this value; a reading taken with no magnet
/// nearby gives the calibrated rest point.
pub const ZERO_FIELD_RAW_12BIT: u16 = 2048;

/// ADC value that corresponds to no magnetic field, 14-bit ADC (RP235x).
pub const ZERO_FIELD_RAW_14BIT: u16 = 8192;

/// Polarity of the detected magnetic field.
///
/// It is decided from how far the raw ADC value lies from the rest point, with
/// a configurable dead band around that point.
#[derive(Debug, Clone, Copy, PartialEq, Eq, Structural)]
pub enum MagneticPolarity {
    /// South pole: the output voltage rises above VCC/2.
    SouthPole,
    /// North pole: the output voltage falls below VCC/2.
    NorthPole,
    /// No significant field: the reading lies inside the dead band.
    NoField,
}

/// The polarity of a reading `raw` against the rest point `zero` and the dead
/// band half-width `deadband`, over the integers.
pub open spec fn spec_polarity(raw: int, zero: int, deadband: int) -> MagneticPolarity {
    if raw > zero + deadband {
        MagneticPolarity::SouthPole
    } else if raw < zero - deadband {
        MagneticPolarity::NorthPole
    } else {
        MagneticPolarity::NoField
    }
}

/// Signed distance of a reading from the rest point.
pub open spec fn spec_deviation(raw: int, zero: int) -> int {
    raw - zero
}

/// Classifies a raw ADC reading.
///
/// | condition               | result      |
/// |-------------------------|-------------|
/// | `raw > zero + deadband` | `SouthPole` |
/// | `raw < zero - deadband` | `NorthPole` |
/// | otherwise               | `NoField`   |
///
/// The thresholds are computed with saturating `u16` arithmetic, which gives
/// the same answer as the comparison over the integers.
pub fn polarity_from_raw(raw: u16, zero: u16, deadband: u16) -> (p: MagneticPolarity)
    ensures
        p == spec_polarity(raw as int, zero as int, deadband as int),
        p == MagneticPolarity::SouthPole <==> raw as int > zero as int + deadband as int,
        p == MagneticPolarity::NorthPole <==> (raw as int) < zero as int - deadband as int,
        p == MagneticPolarity::NoField <==> (zero as int - deadband as int) <= (raw as int) <= zero as int
            + deadband as int,
{
    if raw > zero.saturating_add(deadband) {
        MagneticPolarity::SouthPole
    } else if raw < zero.saturating_sub(deadband) {
        MagneticPolarity::NorthPole
    } else {
        MagneticPolarity::NoField
    }
}

/// Signed deviation of a raw reading from the rest point `zero`, in LSB.
///
/// Positive means a south pole, negative a north pole, near zero no field.
pub fn deviation_from_raw(raw: u16, zero: u16) -> (d: i32)
    ensures
        d == spec_deviation(raw as int, zero as int),
        d as int == raw as int - zero as int,
        d as int + zero as int == raw as int,
{
    raw as i32 - zero as i32
}

/// The raw value reported for one ADC conversion: the sample itself when the
/// conversion succeeded (`Some`), and `0` when the ADC reported an error
/// (`None`).
pub fn raw_from_reading(reading: Option<u16>) -> (raw: u16)
    ensures
        raw == match reading {
            Some(v) => v,
            None => 0u16,
        },
{
    match reading {
        Some(v) => v,
        None => 0,
    }
}

/// The polarity is read off the signed deviation: a south pole exactly when the
/// deviation exceeds the dead band, a north pole exactly when it is below minus
/// the dead band, and no field exactly when its magnitude is within the dead band.
pub proof fn lemma_polarity_follows_deviation(raw: u16, zero: u16, deadband: u16)
    ensures
        spec_polarity(raw as int, zero as int, deadband as int) == MagneticPolarity::SouthPole
            <==> spec_deviation(raw as int, zero as int) > deadband,
        spec_polarity(raw as int, zero as int, deadband as int) == MagneticPolarity::NorthPole
            <==> spec_deviation(raw as int, zero as int) < -deadband,
        spec_polarity(raw as int, zero as int, deadband as int) == MagneticPolarity::NoField
            <==> -deadband <= spec_deviation(raw as int, zero as int) <= deadband,
{
}

/// With no dead band, the field is absent exactly at the rest point, and every
/// other reading is a pole on the side of the rest point where it lies.
pub proof fn lemma_zero_deadband(raw: u16, zero: u16)
    ensures
        spec_polarity(raw as int, zero as int, 0) == MagneticPolarity::NoField <==> raw == zero,
        spec_polarity(raw as int, zero as int, 0) == MagneticPolarity::SouthPole <==> raw > zero,
        spec_polarity(raw as int, zero as int, 0) == MagneticPolarity::NorthPole <==> raw < zero,
{
}

/// Widening the dead band never turns "no field" into a pole, and a pole seen
/// with a wide dead band is the same pole with any narrower one.
pub proof fn lemma_deadband_monotonic(raw: u16, zero: u16, narrow: u16, wide: u16)
    requires
        narrow <= wide,
    ensures
        spec_polarity(raw as int, zero as int, narrow as int) == MagneticPolarity::NoField
            ==> spec_polarity(raw as int, zero as int, wide as int) == MagneticPolarity::NoField,
        spec_polarity(raw as int, zero as int, wide as int) != MagneticPolarity::NoField
            ==> spec_polarity(raw as int, zero as int, narrow as int) == spec_polarity(
            raw as int,
            zero as int,
            wide as int,
        ),
{
}

/// Readings the same distance above and below the rest point get opposite
/// poles, or both no field.
pub proof fn lemma_polarity_mirror(zero: u16, offset: u16, deadband: u16)
    requires
        zero as int + offset as int <= u16::MAX,
        zero as int - offset as int >= 0,
    ensures
        spec_polarity(zero + offset, zero as int, deadband as int) == MagneticPolarity::SouthPole
            <==> spec_polarity(zero - offset, zero as int, deadband as int)
            == MagneticPolarity::NorthPole,
        spec_polarity(zero + offset, zero as int, deadband as int) == MagneticPolarity::NoField
            <==> spec_polarity(zero - offset, zero as int, deadband as int)
            == MagneticPolarity::NoField,
{
}

/// The deviation of a reading at the rest point is zero, and that reading is
/// "no field" whatever the dead band.
pub proof fn lemma_rest_point(zero: u16, deadband: u16)
    ensures
        spec_deviation(zero as int, zero as int) == 0,
        spec_polarity(zero as int, zero as int, deadband as int) == MagneticPolarity::NoField,
{
}

/// The deviation is the plain difference of the reading and the rest point, in
/// LSB: adding the rest point back gives the reading, and moving the reading up
/// by one LSB moves the deviation up by exactly one.
pub proof fn lemma_deviation_is_difference(raw: u16, zero: u16)
    ensures
        spec_deviation(raw as int, zero as int) == raw as int - zero as int,
        spec_deviation(raw as int, zero as int) + zero as int == raw as int,
        raw < u16::MAX ==> spec_deviation(raw as int + 1, zero as int) == spec_deviation(
            raw as int,
            zero as int,
        ) + 1,
        zero < u16::MAX ==> spec_deviation(raw as int, zero as int + 1) == spec_deviation(
            raw as int,
            zero as int,
        ) - 1,
{
}

/// The polarity against the thresholds themselves, over the integers: a south
/// pole exactly above `zero + deadband`, a north pole exactly below
/// `zero - deadband`, and no field on the closed band between them.
pub proof fn lemma_polarity_thresholds(raw: u16, zero: u16, deadband: u16)
    ensures
        spec_polarity(raw as int, zero as int, deadband as int) == MagneticPolarity::SouthPole
            <==> raw as int > zero as int + deadband as int,
        spec_polarity(raw as int, zero as int, deadband as int) == MagneticPolarity::NorthPole
            <==> (raw as int) < zero as int - deadband as int,
        spec_polarity(raw as int, zero as int, deadband as int) == MagneticPolarity::NoField
            <==> (zero as int - deadband as int) <= (raw as int) <= zero as int + deadband as int,
{
}

/// Raising the reading never moves the polarity towards the north: if a reading
/// is a south pole, so is every higher one, and if it is a north pole, so is
/// every lower one.
pub proof fn lemma_polarity_monotonic_in_raw(low: u16, high: u16, zero: u16, deadband: u16)
    requires
        low <= high,
    ensures
        spec_polarity(low as int, zero as int, deadband as int) == MagneticPolarity::SouthPole
            ==> spec_polarity(high as int, zero as int, deadband as int)
            == MagneticPolarity::SouthPole,
        spec_polarity(high as int, zero as int, deadband as int) == MagneticPolarity::NorthPole
            ==> spec_polarity(low as int, zero as int, deadband as int)
            == MagneticPolarity::NorthPole,
        high as int - low as int > 2 * deadband as int && high as int - zero as int == zero as int
            - low as int ==> spec_polarity(high as int, zero as int, deadband as int)
            == MagneticPolarity::SouthPole,
{
}

} // verus!
