use vstd::prelude::*;

verus! {

/// Whether a switchable device is powered.
#[derive(Copy, Clone, Debug, PartialEq, Eq, Structural)]
pub enum SwitchPower {
    On,
    Off,
}

/// State of a plain on/off switch.
#[derive(Copy, Clone, Debug)]
pub struct SwitchState {
    pub power: SwitchPower,
}

} // verus!
