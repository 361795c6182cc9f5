//! Verified core of a driver for an analog linear Hall-effect sensor
//! (49E / SS49E family) read through the ADC of an RP2040 or RP235x.
//!
//! The sensor rests near mid-scale when no magnetic field is present; a south
//! pole pushes the reading up, a north pole pulls it down. This crate holds the
//! arithmetic and the decisions that turn a raw ADC sample into a polarity or a
//! signed deviation, and the choice of the rest point for the compiled target.

pub mod polarity;
pub mod target;

pub use polarity::{
    deviation_from_raw, polarity_from_raw, raw_from_reading, MagneticPolarity,
    ZERO_FIELD_RAW_12BIT, ZERO_FIELD_RAW_14BIT,
};
pub use target::{select_target, Target, TargetError};
