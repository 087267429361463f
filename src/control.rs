//! Translation of the decoded axes into the normalized control of a driving
//! simulator: throttle and brake over `0..=1`, steering around zero. Each
//! value is an exact ratio; a caller that wants a float divides.
use vstd::prelude::*;
use crate::session::{AxisState, G29Interface};

verus! {

/// Raw value of a fully pressed pedal.
pub const PEDAL_FULL: i32 = 255;

/// Raw steering value that maps to zero; it is also the unit of steering.
pub const STEERING_CENTER: i32 = 127;

/// The exact value `num / den`, with `den > 0`.
#[derive(Clone, Copy, Debug, PartialEq, Eq, Structural)]
pub struct Ratio {
    pub num: i32,
    pub den: i32,
}

/// Throttle, brake and steering as exact ratios.
#[derive(Clone, Copy, Debug, PartialEq, Eq, Structural)]
pub struct NormalizedControl {
    pub throttle: Ratio,
    pub brake: Ratio,
    pub steering: Ratio,
}

/// Throttle is `raw / 255`, brake is `raw / 255`, and steering is
/// `raw / 127 - 1`, that is `(raw - 127) / 127`.
pub open spec fn normalized(axes: AxisState) -> NormalizedControl {
    NormalizedControl {
        throttle: Ratio { num: axes.throttle as i32, den: PEDAL_FULL },
        brake: Ratio { num: axes.brake as i32, den: PEDAL_FULL },
        steering: Ratio { num: (axes.steering as i32 - STEERING_CENTER) as i32, den: STEERING_CENTER },
    }
}

impl AxisState {
    /// The normalized control of these axes.
    pub fn to_normalized_control(&self) -> (r: NormalizedControl)
        ensures
            r == normalized(*self),
            0 <= r.throttle.num <= r.throttle.den,
            0 <= r.brake.num <= r.brake.den,
            self.steering <= 2 * STEERING_CENTER ==> -r.steering.den <= r.steering.num
                <= r.steering.den,
    {
        NormalizedControl {
            throttle: Ratio { num: self.throttle as i32, den: PEDAL_FULL },
            brake: Ratio { num: self.brake as i32, den: PEDAL_FULL },
            steering: Ratio { num: self.steering as i32 - STEERING_CENTER, den: STEERING_CENTER },
        }
    }
}

impl G29Interface {
    /// The normalized control of the decoded axes.
    pub fn carla_vehicle_controle(&self) -> (r: NormalizedControl)
        ensures
            r == normalized(self@.axes),
            0 <= r.throttle.num <= r.throttle.den,
            0 <= r.brake.num <= r.brake.den,
            -r.steering.den <= r.steering.num <= r.steering.den,
    {
        self.get_state().to_normalized_control()
    }
}

} // verus!
