use backlightd::error::Error;
use backlightd::scale::{ScaleBuilder, ScaleKind, DEFAULT_LEVEL};

fn exp_curve(gamma: f32, ref_max: usize, ref_min: usize, steps: f32) -> Vec<usize> {
    let factor = (f32::log2(ref_max as f32) - f32::log2(ref_min as f32)) / steps;
    (-128i32..=127).map(|l| (ref_max as f32 / f32::powf(gamma, l as f32 * factor)) as usize).collect()
}

#[test]
fn make_requires_ceiling() {
    let b = ScaleBuilder::new();
    assert_eq!(b.reference_bounds(), None);
    assert!(matches!(b.make(), Err(Error::MaxBrightnessRequired)));
    let mut b = ScaleBuilder::new();
    b.min_value(3);
    b.ref_max_value(50);
    assert!(matches!(b.make(), Err(Error::MaxBrightnessRequired)));
}

#[test]
fn ceiling_alone_gives_defaults() {
    let mut b = ScaleBuilder::new();
    b.max_value(100);
    assert_eq!(b.reference_bounds(), Some((100, 0)));
    let mut s = b.make().unwrap();
    // linear over [0, 100]: the default level is 100 - 4 * 11
    assert_eq!(s.get_brightness().value(), 56);
    assert!(s.set_level(9).is_intermediate());
    assert_eq!(s.set_level(9).value(), 1);
    assert_eq!(s.set_level(10).value(), 0);
    assert!(s.set_level(10).is_min());
}

#[test]
fn reference_bounds_follow_settings() {
    let mut b = ScaleBuilder::new();
    b.max_value(1000);
    b.min_value(10);
    assert_eq!(b.reference_bounds(), Some((1000, 10)));
    b.ref_max_value(400);
    b.ref_min_value(40);
    assert_eq!(b.reference_bounds(), Some((400, 40)));
    let mut s = b.make().unwrap();
    // step of (400 - 40) / 9 = 40
    assert_eq!(s.set_level(0).value(), 400);
    assert!(s.set_level(0).is_intermediate());
    assert_eq!(s.set_level(-10).value(), 800);
    assert!(s.set_level(-15).is_max());
    assert_eq!(s.set_level(-15).value(), 1000);
    assert!(s.set_level(10).is_min());
    assert_eq!(s.set_level(10).value(), 10);
}

#[test]
fn linear_reference_scenario() {
    let mut b = ScaleBuilder::new();
    b.kind(ScaleKind::Linear);
    b.max_value(100);
    b.min_value(0);
    b.ref_max_value(100);
    b.ref_min_value(0);
    let s = b.make().unwrap();
    let v0 = s.value_for(0);
    assert!(v0.is_max());
    assert_eq!(v0.value(), 100);
    let v9 = s.value_for(9);
    assert!(v9.is_intermediate());
    assert_eq!(v9.value(), 1);
    let vm1 = s.value_for(-1);
    assert!(vm1.is_max());
    assert_eq!(vm1.value(), 100);
}

#[test]
fn exponential_reference_scenario() {
    let mut b = ScaleBuilder::new();
    b.max_value(512);
    b.min_value(1);
    b.ref_max_value(512);
    b.ref_min_value(1);
    let (ref_max, ref_min) = b.reference_bounds().unwrap();
    b.kind(ScaleKind::Exp2(exp_curve(2.0, ref_max, ref_min, 9.0)));
    let mut s = b.make().unwrap();
    let v0 = s.set_level(0);
    assert!(v0.is_max());
    assert_eq!(v0.value(), 512);
    let v9 = s.set_level(9);
    assert!(v9.is_min());
    assert_eq!(v9.value(), 1);
    let v4 = s.set_level(4);
    assert!(v4.is_intermediate());
    assert_eq!(v4.value(), 32);
}

#[test]
fn up_and_down_move_the_level() {
    let mut b = ScaleBuilder::new();
    b.max_value(100);
    let mut s = b.make().unwrap();
    assert_eq!(s.get_brightness().value(), 100 - 11 * DEFAULT_LEVEL as usize);
    assert_eq!(s.up().value(), 67);
    assert_eq!(s.down().value(), 56);
    assert_eq!(s.down().value(), 45);
    assert_eq!(s.set_to_default().value(), 56);
}

#[test]
fn down_then_up_restores() {
    let mut b = ScaleBuilder::new();
    b.max_value(100);
    let mut s = b.make().unwrap();
    let start = s.get_brightness();
    for _ in 0..20 {
        s.down();
    }
    for _ in 0..20 {
        s.up();
    }
    let end = s.get_brightness();
    assert_eq!(start.is_intermediate(), end.is_intermediate());
    assert_eq!(start.value(), end.value());
}

#[test]
fn level_saturates_at_the_ends() {
    let mut b = ScaleBuilder::new();
    b.max_value(100);
    let mut s = b.make().unwrap();
    s.set_level(i8::MIN);
    assert!(s.up().is_max());
    s.set_level(i8::MAX);
    assert!(s.down().is_min());
    assert!(s.up().is_min());
}
