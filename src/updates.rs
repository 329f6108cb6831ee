//! The numeric update evaluator: how an update operator moves a numeric
//! attribute, always ending inside the attribute's bounds.
use vstd::prelude::*;

use crate::device_types::{ceiling_fan::FanDirection, switch::SwitchPower, NumericState};

verus! {

/// A signed ratio `numer / denom`, the fractional operand of an update
/// (a percentage as a ratio of the range, or a scale factor).
///
/// A ratio with `denom == 0` is undefined; every product with it falls back
/// to zero.
#[derive(Copy, Clone, Debug, PartialEq, Eq, Structural)]
pub struct Fraction {
    pub numer: i32,
    pub denom: u32,
}

impl Fraction {
    pub fn new(numer: i32, denom: u32) -> (r: Fraction)
        ensures
            r.numer == numer,
            r.denom == denom,
    {
        Fraction { numer, denom }
    }
}

/// An operator that moves a numeric attribute of type `T`.
#[derive(Copy, Clone, Debug)]
pub enum NumericUpdate<T: Copy = u32> {
    /// Place the value at this share of the range above `min`.
    Percent(Fraction),
    /// Set the value.
    Absolute(T),
    /// Add to the value.
    DeltaAbsolute(T),
    /// Add this share of the distance between the value and `min`.
    DeltaPercent(Fraction),
    /// Multiply the value.
    ScaleBy(Fraction),
}

/// A numeric update with its integer operands seen as mathematical integers.
pub enum UpdateOp {
    Percent(Fraction),
    Absolute(int),
    DeltaAbsolute(int),
    DeltaPercent(Fraction),
    ScaleBy(Fraction),
}

impl View for NumericUpdate<u32> {
    type V = UpdateOp;

    open spec fn view(&self) -> UpdateOp {
        match *self {
            NumericUpdate::Percent(p) => UpdateOp::Percent(p),
            NumericUpdate::Absolute(v) => UpdateOp::Absolute(v as int),
            NumericUpdate::DeltaAbsolute(d) => UpdateOp::DeltaAbsolute(d as int),
            NumericUpdate::DeltaPercent(p) => UpdateOp::DeltaPercent(p),
            NumericUpdate::ScaleBy(f) => UpdateOp::ScaleBy(f),
        }
    }
}

impl View for NumericUpdate<u16> {
    type V = UpdateOp;

    open spec fn view(&self) -> UpdateOp {
        match *self {
            NumericUpdate::Percent(p) => UpdateOp::Percent(p),
            NumericUpdate::Absolute(v) => UpdateOp::Absolute(v as int),
            NumericUpdate::DeltaAbsolute(d) => UpdateOp::DeltaAbsolute(d as int),
            NumericUpdate::DeltaPercent(p) => UpdateOp::DeltaPercent(p),
            NumericUpdate::ScaleBy(f) => UpdateOp::ScaleBy(f),
        }
    }
}

/// `x` held within `[lo, hi]`; where `lo > hi` a value below `lo` becomes
/// `lo` and any other value above `hi` becomes `hi`.
pub open spec fn clamp(x: int, lo: int, hi: int) -> int {
    if x < lo {
        lo
    } else if x > hi {
        hi
    } else {
        x
    }
}

/// `a + b` saturated at `top`.
pub open spec fn sat_add(a: int, b: int, top: int) -> int {
    if a + b > top {
        top
    } else {
        a + b
    }
}

/// `a - b` saturated at zero.
pub open spec fn sat_sub(a: int, b: int) -> int {
    if a - b < 0 {
        0
    } else {
        a - b
    }
}

/// The product `f * x` truncated toward zero; `None` where `f` is undefined.
pub open spec fn times(f: Fraction, x: int) -> Option<int> {
    if f.denom == 0 {
        None
    } else if f.numer * x >= 0 {
        Some((f.numer * x) / (f.denom as int))
    } else {
        Some(-((-(f.numer * x)) / (f.denom as int)))
    }
}

/// `f * x` as a value in `[0, top]`, or zero where the product is undefined
/// or falls outside that range.
pub open spec fn scaled(f: Fraction, x: int, top: int) -> int {
    match times(f, x) {
        Some(q) => if 0 <= q <= top {
            q
        } else {
            0
        },
        None => 0,
    }
}

/// The value that `op` proposes for a state, before clamping, for a type whose
/// values are `[0, top]`.
pub open spec fn candidate(op: UpdateOp, value: int, min: int, max: int, top: int) -> int {
    match op {
        UpdateOp::Percent(p) => sat_add(min, scaled(p, sat_sub(max, min), top), top),
        UpdateOp::Absolute(v) => v,
        UpdateOp::DeltaAbsolute(d) => sat_add(value, d, top),
        UpdateOp::DeltaPercent(p) => sat_add(value, scaled(p, sat_sub(value, min), top), top),
        UpdateOp::ScaleBy(f) => scaled(f, value, top),
    }
}

/// The new value that `op` gives a state `(value, min, max)`.
pub open spec fn applied(op: UpdateOp, value: int, min: int, max: int, top: int) -> int {
    clamp(candidate(op, value, min, max, top), min, max)
}

/// Relies on num_traits::cast from `i64` to `u32`: `Some` exactly when the
/// value is representable, and then the same value.
#[verifier::external_body]
fn cast_to_u32(v: i64) -> (r: Option<u32>)
    ensures
        0 <= v <= u32::MAX ==> r == Some(v as u32),
        !(0 <= v <= u32::MAX) ==> r is None,
{
    num_traits::cast::<i64, u32>(v)
}

/// Relies on num_traits::cast from `i64` to `u16`: `Some` exactly when the
/// value is representable, and then the same value.
#[verifier::external_body]
fn cast_to_u16(v: i64) -> (r: Option<u16>)
    ensures
        0 <= v <= u16::MAX ==> r == Some(v as u16),
        !(0 <= v <= u16::MAX) ==> r is None,
{
    num_traits::cast::<i64, u16>(v)
}

/// The product `f * x` truncated toward zero, for `x` of at most 32 bits.
fn times_exec(f: Fraction, x: u32) -> (r: Option<i64>)
    ensures
        times(f, x as int) == match r {
            Some(q) => Some(q as int),
            None => None::<int>,
        },
{
    if f.denom == 0 {
        return None;
    }
    assert(-0x7fff_ffff_8000_0000 <= f.numer * x <= 0x7fff_fffe_8000_0001) by (nonlinear_arith)
        requires
            -0x8000_0000 <= f.numer < 0x8000_0000,
            0 <= x < 0x1_0000_0000,
    ;
    let p: i64 = (f.numer as i64) * (x as i64);
    let d: u64 = f.denom as u64;
    if p >= 0 {
        let q: u64 = (p as u64) / d;
        Some(q as i64)
    } else {
        let q: u64 = ((-p) as u64) / d;
        Some(-(q as i64))
    }
}

fn scaled_u32(f: Fraction, x: u32) -> (r: u32)
    ensures
        r as int == scaled(f, x as int, u32::MAX as int),
{
    match times_exec(f, x) {
        Some(q) => match cast_to_u32(q) {
            Some(v) => v,
            None => 0,
        },
        None => 0,
    }
}

fn scaled_u16(f: Fraction, x: u16) -> (r: u16)
    ensures
        r as int == scaled(f, x as int, u16::MAX as int),
{
    match times_exec(f, x as u32) {
        Some(q) => match cast_to_u16(q) {
            Some(v) => v,
            None => 0,
        },
        None => 0,
    }
}

impl NumericUpdate<u32> {
    /// The attribute's new value after this update: the operator's proposal
    /// held within `[state.min, state.max]`.
    pub fn apply_to(&self, state: &NumericState<u32>) -> (r: u32)
        ensures
            r as int == applied(
                self@,
                state.value as int,
                state.min as int,
                state.max as int,
                u32::MAX as int,
            ),
            state.min <= state.max ==> state.min <= r <= state.max,
    {
        let proposed: u32 = match *self {
            NumericUpdate::Percent(p) => state.min.saturating_add(
                scaled_u32(p, state.max.saturating_sub(state.min)),
            ),
            NumericUpdate::Absolute(v) => v,
            NumericUpdate::DeltaAbsolute(d) => state.value.saturating_add(d),
            NumericUpdate::DeltaPercent(p) => state.value.saturating_add(
                scaled_u32(p, state.value.saturating_sub(state.min)),
            ),
            NumericUpdate::ScaleBy(f) => scaled_u32(f, state.value),
        };
        if proposed < state.min {
            state.min
        } else if proposed > state.max {
            state.max
        } else {
            proposed
        }
    }
}

impl NumericUpdate<u16> {
    /// The attribute's new value after this update: the operator's proposal
    /// held within `[state.min, state.max]`.
    pub fn apply_to(&self, state: &NumericState<u16>) -> (r: u16)
        ensures
            r as int == applied(
                self@,
                state.value as int,
                state.min as int,
                state.max as int,
                u16::MAX as int,
            ),
            state.min <= state.max ==> state.min <= r <= state.max,
    {
        let proposed: u16 = match *self {
            NumericUpdate::Percent(p) => state.min.saturating_add(
                scaled_u16(p, state.max.saturating_sub(state.min)),
            ),
            NumericUpdate::Absolute(v) => v,
            NumericUpdate::DeltaAbsolute(d) => state.value.saturating_add(d),
            NumericUpdate::DeltaPercent(p) => state.value.saturating_add(
                scaled_u16(p, state.value.saturating_sub(state.min)),
            ),
            NumericUpdate::ScaleBy(f) => scaled_u16(f, state.value),
        };
        if proposed < state.min {
            state.min
        } else if proposed > state.max {
            state.max
        } else {
            proposed
        }
    }
}

/// Clamping saturates at both ends: an absolute target one below `min` lands on
/// `min`, and one above `max` lands on `max` when the bounds are ordered.
pub proof fn lemma_absolute_saturates(state: NumericState<u32>)
    ensures
        state.min > 0 ==> applied(
            NumericUpdate::<u32>::Absolute((state.min - 1) as u32)@,
            state.value as int,
            state.min as int,
            state.max as int,
            u32::MAX as int,
        ) == state.min,
        state.min <= state.max < u32::MAX ==> applied(
            NumericUpdate::<u32>::Absolute((state.max + 1) as u32)@,
            state.value as int,
            state.min as int,
            state.max as int,
            u32::MAX as int,
        ) == state.max,
{
}

/// A change to one attribute of a device.
#[derive(Copy, Clone, Debug)]
pub enum AttributeUpdate {
    Power(SwitchPower),
    Brightness(NumericUpdate),
    ColorTemp(NumericUpdate),
    Hue(NumericUpdate<u16>),
    Saturation(NumericUpdate),
    FanSpeed(NumericUpdate),
    FanDirection(FanDirection),
}

} // verus!
