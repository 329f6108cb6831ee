//! Device state records and the numeric attribute model they share.
use vstd::prelude::*;

pub mod ceiling_fan;
pub mod color_light;
pub mod dimmable_light;
pub mod switch;

verus! {

/// A numeric attribute as the device currently holds it.
///
/// `min <= value <= max` is what every update establishes on its result; it is
/// not assumed of a state handed in. `step` is advisory metadata.
#[derive(Copy, Clone, Debug)]
pub struct NumericState<T: Copy = u32> {
    pub value: T,
    pub min: T,
    pub max: T,
    pub step: T,
}

/// The fixed bounds of a numeric attribute, without a current value.
#[derive(Copy, Clone, Debug)]
pub struct NumericProperties<T: Copy = u32> {
    pub min: T,
    pub max: T,
    pub step: T,
}

impl<T: Copy> NumericProperties<T> {
    /// The state that holds `value` within these bounds.
    pub fn to_state(&self, value: T) -> (r: NumericState<T>)
        ensures
            r.value == value,
            r.min == self.min,
            r.max == self.max,
            r.step == self.step,
    {
        NumericState { value, min: self.min, max: self.max, step: self.step }
    }
}

} // verus!
