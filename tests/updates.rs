use home_protocol::device_types::{NumericProperties, NumericState};
use home_protocol::updates::{AttributeUpdate, Fraction, NumericUpdate};
use home_protocol::{DeviceId, UpdateCommand};

fn state(value: u32, min: u32, max: u32) -> NumericState {
    NumericState { value, min, max, step: 1 }
}

#[test]
fn absolute_clamps_to_max_on_brightness_command() {
    let s = state(10, 0, 100);
    assert_eq!(NumericUpdate::Absolute(255u32).apply_to(&s), 100);
}

#[test]
fn absolute_saturates_at_both_ends() {
    let s = state(50, 10, 90);
    assert_eq!(NumericUpdate::Absolute(9u32).apply_to(&s), 10);
    assert_eq!(NumericUpdate::Absolute(91u32).apply_to(&s), 90);
    assert_eq!(NumericUpdate::Absolute(42u32).apply_to(&s), 42);
}

#[test]
fn percent_places_value_in_range() {
    let s = state(10, 20, 120);
    assert_eq!(NumericUpdate::<u32>::Percent(Fraction::new(1, 2)).apply_to(&s), 70);
    assert_eq!(NumericUpdate::<u32>::Percent(Fraction::new(0, 1)).apply_to(&s), 20);
    assert_eq!(NumericUpdate::<u32>::Percent(Fraction::new(1, 1)).apply_to(&s), 120);
    assert_eq!(NumericUpdate::<u32>::Percent(Fraction::new(1, 3)).apply_to(&s), 53);
}

#[test]
fn percent_with_undefined_ratio_falls_back_to_min() {
    let s = state(60, 20, 120);
    assert_eq!(NumericUpdate::<u32>::Percent(Fraction::new(1, 0)).apply_to(&s), 20);
}

#[test]
fn delta_absolute_adds_and_saturates() {
    let s = state(90, 0, 100);
    assert_eq!(NumericUpdate::DeltaAbsolute(5u32).apply_to(&s), 95);
    assert_eq!(NumericUpdate::DeltaAbsolute(50u32).apply_to(&s), 100);
    let top = state(u32::MAX - 1, 0, u32::MAX);
    assert_eq!(NumericUpdate::DeltaAbsolute(10u32).apply_to(&top), u32::MAX);
}

#[test]
fn delta_percent_scales_distance_above_min() {
    // 50% of (value - min) = 50% of 40 = 20, added to 60.
    let s = state(60, 20, 200);
    assert_eq!(NumericUpdate::<u32>::DeltaPercent(Fraction::new(1, 2)).apply_to(&s), 80);
    // A negative share cannot be represented and adds nothing.
    assert_eq!(NumericUpdate::<u32>::DeltaPercent(Fraction::new(-1, 2)).apply_to(&s), 60);
}

#[test]
fn scale_by_multiplies_value() {
    let s = state(30, 0, 100);
    assert_eq!(NumericUpdate::<u32>::ScaleBy(Fraction::new(3, 2)).apply_to(&s), 45);
    assert_eq!(NumericUpdate::<u32>::ScaleBy(Fraction::new(10, 1)).apply_to(&s), 100);
    // A negative product falls back to zero, then clamps to min.
    let t = state(30, 5, 100);
    assert_eq!(NumericUpdate::<u32>::ScaleBy(Fraction::new(-2, 1)).apply_to(&t), 5);
}

#[test]
fn scale_by_out_of_range_product_falls_back_to_zero() {
    let s = state(u32::MAX, 0, u32::MAX);
    assert_eq!(NumericUpdate::<u32>::ScaleBy(Fraction::new(2, 1)).apply_to(&s), 0);
}

#[test]
fn inverted_bounds_do_not_panic() {
    let s = state(50, 100, 10);
    assert_eq!(NumericUpdate::Absolute(5u32).apply_to(&s), 100);
    assert_eq!(NumericUpdate::Absolute(200u32).apply_to(&s), 10);
    assert_eq!(NumericUpdate::<u32>::Percent(Fraction::new(1, 2)).apply_to(&s), 10);
}

#[test]
fn result_stays_in_bounds_for_every_variant() {
    let fractions = [
        Fraction::new(0, 1),
        Fraction::new(1, 2),
        Fraction::new(7, 3),
        Fraction::new(-5, 4),
        Fraction::new(i32::MAX, 1),
        Fraction::new(i32::MIN, 1),
        Fraction::new(1, 0),
    ];
    let ints = [0u32, 1, 17, 1000, u32::MAX];
    for &(min, max) in &[(0u32, 0u32), (0, 100), (5, 6), (10, u32::MAX)] {
        for &value in &ints {
            let s = state(value, min, max);
            let mut updates = Vec::new();
            for &f in &fractions {
                updates.push(NumericUpdate::Percent(f));
                updates.push(NumericUpdate::DeltaPercent(f));
                updates.push(NumericUpdate::ScaleBy(f));
            }
            for &v in &ints {
                updates.push(NumericUpdate::Absolute(v));
                updates.push(NumericUpdate::DeltaAbsolute(v));
            }
            for u in &updates {
                let r = u.apply_to(&s);
                assert!(min <= r && r <= max);
            }
        }
    }
}

#[test]
fn hue_updates_use_sixteen_bits() {
    let s = NumericState::<u16> { value: 100, min: 0, max: 360, step: 1 };
    assert_eq!(NumericUpdate::DeltaAbsolute(u16::MAX).apply_to(&s), 360);
    assert_eq!(NumericUpdate::<u16>::ScaleBy(Fraction::new(3, 1)).apply_to(&s), 300);
    let big = NumericState::<u16> { value: 40000, min: 0, max: u16::MAX, step: 1 };
    assert_eq!(NumericUpdate::<u16>::ScaleBy(Fraction::new(2, 1)).apply_to(&big), 0);
}

#[test]
fn properties_become_state() {
    let p = NumericProperties { min: 1u32, max: 9, step: 2 };
    let s = p.to_state(4);
    assert_eq!((s.value, s.min, s.max, s.step), (4, 1, 9, 2));
}

#[test]
fn brightness_command_out_of_range_is_clamped() {
    let command = UpdateCommand {
        device_id: DeviceId::from_str("dev-1").unwrap(),
        change_to: AttributeUpdate::Brightness(NumericUpdate::Absolute(255)),
    };
    let brightness = NumericState { value: 10, min: 0, max: 100, step: 1 };
    assert_eq!(command.device_id.as_str(), "dev-1");
    match command.change_to {
        AttributeUpdate::Brightness(u) => assert_eq!(u.apply_to(&brightness), 100),
        _ => panic!("expected a brightness update"),
    }
}
