use backlightd::clamped::ClampedValue;

#[test]
fn judgment_between_bounds() {
    for v in 0usize..=10 {
        let c = ClampedValue::new(v, 2, 8);
        assert_eq!(c.is_intermediate(), 2 < v && v < 8);
        assert_eq!(c.is_min(), v <= 2);
        assert_eq!(c.is_max(), v >= 8);
        let expected = if v <= 2 { 2 } else if v >= 8 { 8 } else { v };
        assert_eq!(c.value(), expected);
    }
}

#[test]
fn ceiling_wins_when_bounds_meet() {
    let c = ClampedValue::new(5usize, 5, 5);
    assert!(c.is_max());
    assert_eq!(c.value(), 5);
}

#[test]
fn map_keeps_variant() {
    let c = ClampedValue::new(3usize, 0, 10).map(|x| x as u64 * 2);
    assert!(c.is_intermediate());
    assert_eq!(c.value(), 6);
    let m = ClampedValue::new(0usize, 0, 10).map(|x| x + 1);
    assert!(m.is_min());
    assert_eq!(m.value(), 1);
}

#[test]
fn replace_and_swap_keep_variant() {
    let mut c = ClampedValue::new(20usize, 0, 10);
    c.replace(7);
    assert!(c.is_max());
    assert_eq!(c.value(), 7);
    let old = c.swap(9);
    assert!(old.is_max());
    assert_eq!(old.value(), 7);
    assert!(c.is_max());
    assert_eq!(c.value(), 9);
}
