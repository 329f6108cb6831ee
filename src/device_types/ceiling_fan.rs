use vstd::prelude::*;

use crate::device_types::NumericState;

verus! {

/// Direction in which a ceiling fan turns.
#[derive(Copy, Clone, Debug, PartialEq, Eq, Structural)]
pub enum FanDirection {
    Forward,
    Reverse,
}

/// State of a ceiling fan with an integrated light.
#[derive(Copy, Clone, Debug)]
pub struct CeilingFanState {
    pub fan_speed: NumericState,
    pub fan_direction: FanDirection,
    pub light_brightness: NumericState,
    pub light_color_temp: NumericState,
}

} // verus!
