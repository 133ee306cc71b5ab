//! The bundle of effect targets that one frame of telemetry leads to.

use crate::config::TuningConfig;
use crate::telemetry::Telemetry;
use vstd::prelude::*;

verus! {

/// Normalised effect targets. Positive constant force pulls to the right.
///
/// All fields but the period hold the bit patterns of single-precision
/// numbers.
#[derive(Debug, Clone, Copy, PartialEq, Eq, Structural)]
pub struct EffectOutput {
    /// Lateral pull, -1 to 1.
    pub constant: u32,
    /// Centering spring magnitude, 0 to 1.
    pub spring_strength: u32,
    /// Shifted spring center, -1 to 1.
    pub spring_center: u32,
    /// Damper coefficient, 0 to 1.
    pub damper: u32,
    /// Magnitude of the periodic effect, 0 to 1.
    pub rumble_magnitude: u32,
    /// Period of the sine wave.
    pub rumble_period_ms: u16,
    /// Estimated torque in newton metres, for display.
    pub torque_estimate_nm: u32,
}

impl EffectOutput {
    /// No force at all. The pattern of the number zero is all zero bits.
    pub open spec fn none() -> EffectOutput {
        EffectOutput {
            constant: 0,
            spring_strength: 0,
            spring_center: 0,
            damper: 0,
            rumble_magnitude: 0,
            rumble_period_ms: 0,
            torque_estimate_nm: 0,
        }
    }
}

impl Default for EffectOutput {
    fn default() -> (out: Self)
        ensures
            out == EffectOutput::none(),
    {
        EffectOutput {
            constant: 0,
            spring_strength: 0,
            spring_center: 0,
            damper: 0,
            rumble_magnitude: 0,
            rumble_period_ms: 0,
            torque_estimate_nm: 0,
        }
    }
}

/// A frame leads to forces only in a vehicle, and only while the driver has
/// them switched on.
pub open spec fn forces_wanted(frame: Telemetry, tuning: TuningConfig) -> bool {
    frame.flags & 0x01 != 0 && tuning.enabled
}

/// Whether a frame leads to any force.
pub fn wants_forces(frame: &Telemetry, tuning: &TuningConfig) -> (yes: bool)
    ensures
        yes == forces_wanted(*frame, *tuning),
{
    frame.in_vehicle() && tuning.enabled
}

/// A frame leads to forces exactly when the lowest of its flags, that of a
/// seated driver, is set and the forces are switched on. No other flag, no
/// measurement and no other setting has a say.
pub proof fn law_forces_need_a_driver(frame: Telemetry, tuning: TuningConfig, yes: bool)
    requires
        call_ensures(wants_forces, (&frame, &tuning), yes),
    ensures
        yes <==> frame.flags as int % 2 == 1 && tuning.enabled,
{
    let n = frame.flags;
    assert((n & 0x01 != 0) <==> n % 2 == 1) by (bit_vector);
}

/// Without a frame all targets are zero.
pub proof fn law_no_force_is_all_zero(out: EffectOutput)
    requires
        call_ensures(<EffectOutput as Default>::default, (), out),
    ensures
        out.constant == 0 && out.spring_strength == 0 && out.spring_center == 0,
        out.damper == 0 && out.rumble_magnitude == 0 && out.rumble_period_ms == 0,
        out.torque_estimate_nm == 0,
{
}

} // verus!
