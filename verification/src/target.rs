use vstd::prelude::*;

use crate::polarity::{ZERO_FIELD_RAW_12BIT, ZERO_FIELD_RAW_14BIT};

verus! {

/// The microcontroller the driver is built for. Exactly one is chosen.
#[derive(Debug, Clone, Copy, PartialEq, Eq, Structural)]
pub enum Target {
    /// Raspberry Pi Pico 1 (RP2040), 12-bit ADC.
    Rp2040,
    /// Pico 2, A-step package (RP2350A).
    Rp235xa,
    /// Pico 2, B-step package (RP2350B).
    Rp235xb,
}

/// Why no target could be chosen from the selected build options.
#[derive(Debug, Clone, Copy, PartialEq, Eq, Structural)]
pub enum TargetError {
    /// None of `rp2040`, `rp235xa`, `rp235xb` is selected.
    NoTarget,
    /// More than one of them is selected; they exclude each other.
    SeveralTargets,
}

/// Number of `true` values among three flags.
pub open spec fn count_selected(a: bool, b: bool, c: bool) -> int {
    (if a { 1int } else { 0int }) + (if b { 1int } else { 0int }) + (if c { 1int } else { 0int })
}

/// The rest point of the ADC on a target.
pub open spec fn spec_zero_field_raw(t: Target) -> u16 {
    match t {
        Target::Rp2040 => ZERO_FIELD_RAW_12BIT,
        Target::Rp235xa => ZERO_FIELD_RAW_14BIT,
        Target::Rp235xb => ZERO_FIELD_RAW_14BIT,
    }
}

impl Target {
    /// The ADC rest point of this target: 2048 on the RP2040 (12 bits),
    /// 8192 on the RP235x (14 bits).
    pub fn zero_field_raw(self) -> (z: u16)
        ensures
            z == spec_zero_field_raw(self),
    {
        match self {
            Target::Rp2040 => ZERO_FIELD_RAW_12BIT,
            Target::Rp235xa => ZERO_FIELD_RAW_14BIT,
            Target::Rp235xb => ZERO_FIELD_RAW_14BIT,
        }
    }
}

/// Chooses the target from the three mutually exclusive build options.
///
/// Exactly one must be selected: none gives `NoTarget`, two or three give
/// `SeveralTargets`.
pub fn select_target(rp2040: bool, rp235xa: bool, rp235xb: bool) -> (r: Result<Target, TargetError>)
    ensures
        count_selected(rp2040, rp235xa, rp235xb) == 0 <==> r == Err::<Target, TargetError>(
            TargetError::NoTarget,
        ),
        count_selected(rp2040, rp235xa, rp235xb) > 1 <==> r == Err::<Target, TargetError>(
            TargetError::SeveralTargets,
        ),
        r == Ok::<Target, TargetError>(Target::Rp2040) <==> (rp2040 && !rp235xa && !rp235xb),
        r == Ok::<Target, TargetError>(Target::Rp235xa) <==> (!rp2040 && rp235xa && !rp235xb),
        r == Ok::<Target, TargetError>(Target::Rp235xb) <==> (!rp2040 && !rp235xa && rp235xb),
{
    let mut count: u8 = 0;
    if rp2040 {
        count = count + 1;
    }
    if rp235xa {
        count = count + 1;
    }
    if rp235xb {
        count = count + 1;
    }
    if count == 0 {
        Err(TargetError::NoTarget)
    } else if count > 1 {
        Err(TargetError::SeveralTargets)
    } else if rp2040 {
        Ok(Target::Rp2040)
    } else if rp235xa {
        Ok(Target::Rp235xa)
    } else {
        Ok(Target::Rp235xb)
    }
}

} // verus!
