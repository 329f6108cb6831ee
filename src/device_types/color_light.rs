use vstd::prelude::*;

use crate::device_types::{switch::SwitchPower, NumericState};

verus! {

/// State of a light with adjustable brightness, hue and saturation.
#[derive(Copy, Clone, Debug)]
pub struct ColorLightState {
    pub power: SwitchPower,
    pub brightness: NumericState,
    pub hue: NumericState,
    pub saturation: NumericState,
}

} // verus!
