use vstd::prelude::*;

use crate::device_types::{switch::SwitchPower, NumericState};

verus! {

/// State of a light with adjustable brightness.
#[derive(Copy, Clone, Debug)]
pub struct DimmableLightState {
    pub power: SwitchPower,
    pub brightness: NumericState,
}

} // verus!
