use actuator::{dist2, Finger};

#[test]
fn single_sample_has_no_motion() {
    let mut f = Finger::default();
    f.push_x(120);
    f.push_y(340);
    assert_eq!(f.delta(), (0, 0));
    assert_eq!(f.magnitude(), 0);
    assert_eq!(f.start(), (120, 340));
    assert_eq!(f.end(), (120, 340));
}

#[test]
fn start_is_kept_and_latest_replaced() {
    let mut f = Finger::new();
    f.push_x(10);
    f.push_x(20);
    f.push_x(35);
    f.push_y(-5);
    f.push_y(7);
    assert_eq!(f.start(), (10, -5));
    assert_eq!(f.end(), (35, 7));
    assert_eq!(f.delta(), (25, 12));
    assert_eq!(f.magnitude(), 25 * 25 + 12 * 12);
}

#[test]
fn missing_axis_defaults_to_zero() {
    let mut f = Finger::new();
    f.push_x(300);
    f.push_x(100);
    assert_eq!(f.start(), (300, 0));
    assert_eq!(f.delta(), (-200, 0));
    assert!(!f.is_empty());
}

#[test]
fn clear_forgets_samples() {
    let mut f = Finger::new();
    assert!(f.is_empty());
    f.push_y(4);
    f.clear();
    assert!(f.is_empty());
    assert_eq!(f.start(), (0, 0));
    assert_eq!(f.delta(), (0, 0));
}

#[test]
fn extreme_coordinates_do_not_overflow() {
    let mut f = Finger::new();
    f.push_x(i32::MIN);
    f.push_x(i32::MAX);
    f.push_y(i32::MAX);
    f.push_y(i32::MIN);
    let d = (i32::MAX as i64) - (i32::MIN as i64);
    assert_eq!(f.delta(), (d, -d));
    assert_eq!(f.magnitude(), 2 * (d as i128) * (d as i128));
}

#[test]
fn dist2_is_squared_euclidean() {
    assert_eq!(dist2((1, 2), (4, 6)), 25);
    assert_eq!(dist2((4, 6), (1, 2)), 25);
    assert_eq!(dist2((0, 0), (0, 0)), 0);
    assert_eq!(dist2((0, 200), (0, 0)), 40000);
}
