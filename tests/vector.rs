use vec3::{Axis, Vec3};

fn v(x: f64, y: f64, z: f64) -> Vec3<f64> {
    Vec3::new(x, y, z)
}

fn plus(a: f64, b: f64) -> f64 {
    a + b
}

fn minus(a: f64, b: f64) -> f64 {
    a - b
}

fn times(a: f64, b: f64) -> f64 {
    a * b
}

fn length(a: Vec3<f64>) -> f64 {
    a.length_squared(times, plus).sqrt()
}

#[test]
fn new_keeps_components_in_order() {
    let a = v(1.5, -2.0, 3.25);
    assert_eq!(a.x(), 1.5);
    assert_eq!(a.y(), -2.0);
    assert_eq!(a.z(), 3.25);
}

#[test]
fn component_by_axis() {
    let a = v(7.0, 8.0, 9.0);
    assert_eq!(*a.component(Axis::X), 7.0);
    assert_eq!(*a.component(Axis::Y), 8.0);
    assert_eq!(*a.component(Axis::Z), 9.0);
}

#[test]
fn from_index_names_the_three_positions() {
    assert_eq!(Axis::from_index(0), Some(Axis::X));
    assert_eq!(Axis::from_index(1), Some(Axis::Y));
    assert_eq!(Axis::from_index(2), Some(Axis::Z));
    assert_eq!(Axis::X.index(), 0);
    assert_eq!(Axis::Y.index(), 1);
    assert_eq!(Axis::Z.index(), 2);
}

#[test]
fn from_index_refuses_three_and_beyond() {
    assert_eq!(Axis::from_index(3), None);
    assert_eq!(Axis::from_index(4), None);
    assert_eq!(Axis::from_index(usize::MAX), None);
}

#[test]
fn add_scenario() {
    assert_eq!(v(1.0, 2.0, 3.0).zip_with(v(4.0, 5.0, 6.0), plus), v(5.0, 7.0, 9.0));
}

#[test]
fn add_is_componentwise_and_commutes() {
    let a = v(0.1, -3.5, 1e10);
    let b = v(2.25, 0.7, -4.0);
    let s = a.zip_with(b, plus);
    assert_eq!(s, v(0.1 + 2.25, -3.5 + 0.7, 1e10 + -4.0));
    assert_eq!(s, b.zip_with(a, plus));
}

#[test]
fn add_in_place_matches_add() {
    let mut a = v(1.0, 2.0, 3.0);
    a.update_with(v(4.0, 5.0, 6.0), plus);
    assert_eq!(a, v(5.0, 7.0, 9.0));
}

#[test]
fn sub_and_hadamard_product() {
    let a = v(5.0, 7.0, 9.0);
    let b = v(1.0, 2.0, 3.0);
    assert_eq!(a.zip_with(b, minus), v(4.0, 5.0, 6.0));
    assert_eq!(a.zip_with(b, times), v(5.0, 14.0, 27.0));
}

#[test]
fn negation_flips_signs() {
    assert_eq!(v(1.0, -2.0, 0.5).map(|c: f64| -c), v(-1.0, 2.0, -0.5));
}

#[test]
fn scalar_multiplication_both_orders() {
    let a = v(1.0, 1.0, 1.0);
    let t = 2.0;
    let left = a.map(|c: f64| t * c);
    let right = a.map(|c: f64| c * t);
    assert_eq!(left, v(2.0, 2.0, 2.0));
    assert_eq!(right, v(2.0, 2.0, 2.0));
    assert_eq!(left, right);
}

#[test]
fn scale_in_place() {
    let mut a = v(1.0, -2.0, 3.0);
    a.update(|c: f64| c * 3.0);
    assert_eq!(a, v(3.0, -6.0, 9.0));
}

#[test]
fn scaled_length_squared() {
    let a = v(1.0, 2.0, 2.0);
    let t = 3.0;
    let got = a.map(|c: f64| c * t).length_squared(times, plus);
    let want = a.length_squared(times, plus) * t * t;
    assert!((got - want).abs() <= 1e-9 * want.abs());
    assert_eq!(got, 81.0);
}

#[test]
fn divide_by_scalar_uses_reciprocal() {
    let a = v(1.0, 2.0, 3.0);
    let t = 3.0;
    let inv = 1.0 / t;
    assert_eq!(a.map(|c: f64| inv * c), v(inv * 1.0, inv * 2.0, inv * 3.0));
}

#[test]
fn divide_by_zero_gives_infinity_or_nan() {
    let inv = 1.0 / 0.0_f64;
    let r = v(1.0, -1.0, 0.0).map(|c: f64| inv * c);
    assert_eq!(r.x(), f64::INFINITY);
    assert_eq!(r.y(), f64::NEG_INFINITY);
    assert!(r.z().is_nan());
}

#[test]
fn dot_product_value_and_symmetry() {
    let a = v(1.0, 2.0, 3.0);
    let b = v(4.0, -5.0, 6.0);
    assert_eq!(a.dot(b, times, plus), 12.0);
    assert_eq!(a.dot(b, times, plus), b.dot(a, times, plus));
}

#[test]
fn cross_scenario() {
    assert_eq!(v(1.0, 0.0, 0.0).cross(v(0.0, 1.0, 0.0), times, minus), v(0.0, 0.0, 1.0));
}

#[test]
fn cross_formula() {
    let a = v(1.0, 2.0, 3.0);
    let b = v(4.0, 5.0, 6.0);
    assert_eq!(a.cross(b, times, minus), v(-3.0, 6.0, -3.0));
}

#[test]
fn cross_anticommutes_and_self_cross_is_zero() {
    let a = v(1.5, -2.0, 0.25);
    let b = v(3.0, 7.0, -1.0);
    let ab = a.cross(b, times, minus);
    let ba = b.cross(a, times, minus).map(|c: f64| -c);
    assert_eq!(ab, ba);
    assert_eq!(a.cross(a, times, minus), v(0.0, 0.0, 0.0));
}

#[test]
fn length_scenario() {
    assert_eq!(length(v(3.0, 4.0, 0.0)), 5.0);
    assert_eq!(v(3.0, 4.0, 0.0).length_squared(times, plus), 25.0);
}

#[test]
fn unit_vector_has_length_one() {
    let a = v(3.0, -7.5, 12.0);
    let inv = 1.0 / length(a);
    let u = a.map(|c: f64| inv * c);
    assert!((length(u) - 1.0).abs() < 1e-9);
}

#[test]
fn unit_vector_of_zero_is_nan() {
    let a = v(0.0, 0.0, 0.0);
    let inv = 1.0 / length(a);
    let u = a.map(|c: f64| inv * c);
    assert!(u.x().is_nan() && u.y().is_nan() && u.z().is_nan());
}
