use vector_math::Vector2;
use vector_math::Vector3;

#[test]
fn test_vector2_addition() {
    let v1: Vector2<f32> = Vector2::from_xy(1.0, 2.0);
    let v2 = Vector2::from_xy(3.0, 4.0);
    let result = v1 + v2;
    assert_eq!(result, Vector2::from_xy(4.0, 6.0));
}

#[test]
fn test_vector2_subtraction() {
    let v1: Vector2<f32> = Vector2::from_xy(4.0, 5.0);
    let v2 = Vector2::from_xy(1.0, 2.0);
    let result = v1 - v2;
    assert_eq!(result, Vector2::from_xy(3.0, 3.0));
}

#[test]
fn test_vector2_scalar_multiplication() {
    let v: Vector2<f32> = Vector2::from_xy(2.0, 3.0);
    let scalar = 2.0;
    let result = v * scalar;
    assert_eq!(result, Vector2::from_xy(4.0, 6.0));
}

#[test]
fn test_vector2_scalar_division() {
    let v: Vector2<f32> = Vector2::from_xy(4.0, 6.0);
    let scalar = 2.0;
    let result = v / scalar;
    assert_eq!(result, Vector2::from_xy(2.0, 3.0));
}

#[test]
fn test_vector2_dot_product() {
    let v1: Vector2<f32> = Vector2::from_xy(1.0, 2.0);
    let v2 = Vector2::from_xy(3.0, 4.0);
    let result = v1.dot(v2);
    assert_eq!(result, 11.0);
}

#[test]
fn vector2_add_then_subtract_and_commute() {
    let a: Vector2<f32> = Vector2::from_xy(0.5, -6.0);
    let b = Vector2::from_xy(2.0, 0.25);
    assert_eq!(a + b - b, a);
    assert_eq!(a + b, b + a);
}

#[test]
fn vector2_projection_and_rejection() {
    let v: Vector2<f32> = Vector2::from_xy(2.0, 3.0);
    let axis = Vector2::from_xy(4.0, 0.0);
    assert_eq!(v.projected_onto(axis), Vector2::from_xy(2.0, 0.0));
    assert_eq!(axis.projection_of(v), Vector2::from_xy(2.0, 0.0));
    assert_eq!(v.rejection_from(axis), Vector2::from_xy(0.0, 3.0));
    assert_eq!(axis.rejection_of(v), Vector2::from_xy(0.0, 3.0));
    let vi: Vector2<i64> = Vector2::from_xy(6, 9);
    assert_eq!(vi.projected_onto(Vector2::from_xy(0, 3)), Vector2::from_xy(0, 9));
}

#[test]
fn vector2_normalization() {
    let v: Vector2<f32> = Vector2::from_xy(3.0, 4.0);
    assert_eq!(v.normalized(5.0), Some(Vector2::from_xy(0.6, 0.8)));
    assert_eq!(v.normalized_or_zero(5.0), Vector2::from_xy(0.6, 0.8));
    let zero: Vector2<f32> = Vector2::from_value(0.0);
    assert_eq!(zero.normalized(0.0), None);
    assert_eq!(zero.normalized_or_zero(0.0), Vector2::from_xy(0.0, 0.0));
}

#[test]
fn vector2_almost_zero_and_equal() {
    let a: Vector2<f32> = Vector2::from_xy(1.0, 2.0);
    let b = Vector2::from_xy(1.0 + 1e-8, 2.0);
    assert!(a.is_almost_equal_to(b, f32::EPSILON));
    assert!(!a.is_almost_equal_to(Vector2::from_xy(1.0, 2.01), f32::EPSILON));
    assert!(Vector2::from_xy(0.0f32, 0.0).is_almost_zero(f32::EPSILON));
    assert!(!Vector2::from_xy(0.5f32, 0.0).is_almost_zero(f32::EPSILON));
}

#[test]
fn vector2_flips_swizzles_and_lifts() {
    let v: Vector2<f32> = Vector2::from_xy(1.0, 2.0);
    assert_eq!(v.flipped_x(), Vector2::from_xy(-1.0, 2.0));
    assert_eq!(v.flipped_y(), Vector2::from_xy(1.0, -2.0));
    assert_eq!(-v, Vector2::from_xy(-1.0, -2.0));
    assert_eq!(v.yx(), Vector2::from_xy(2.0, 1.0));
    assert_eq!(v.xyz(5.0), Vector3::from_xyz(1.0, 2.0, 5.0));
    assert_eq!(v.xy0(), Vector3::from_xyz(1.0, 2.0, 0.0));
    assert_eq!(Vector2::from_value(3.0f32), Vector2::from_xy(3.0, 3.0));
}

#[test]
fn vector2_element_wise_and_intervals() {
    let a: Vector2<f32> = Vector2::from_xy(3.0, -4.0);
    let b = Vector2::from_xy(2.0, 0.5);
    assert_eq!(a.element_wise_product(b), Vector2::from_xy(6.0, -2.0));
    assert_eq!(a.len_squared(), 25.0);
    assert!(a.is_x_inside_interval(3.0, 4.0));
    assert!(!a.is_x_inside_interval(3.5, 4.0));
    assert!(a.is_y_inside_interval(-4.0, -4.0));
    assert!(!a.is_y_inside_interval(0.0, 1.0));
}

#[test]
fn vector2_assign_operators_and_default() {
    let mut v: Vector2<f32> = Vector2::from_xy(1.0, 2.0);
    v += Vector2::from_xy(1.0, 1.0);
    assert_eq!(v, Vector2::from_xy(2.0, 3.0));
    v -= Vector2::from_xy(4.0, 4.0);
    assert_eq!(v, Vector2::from_xy(-2.0, -1.0));
    v *= 3.0;
    assert_eq!(v, Vector2::from_xy(-6.0, -3.0));
    v /= -3.0;
    assert_eq!(v, Vector2::from_xy(2.0, 1.0));
    let d: Vector2<f32> = Vector2::default();
    assert_eq!(d, Vector2::from_xy(0.0, 0.0));
}

#[test]
fn vector2_interchange() {
    let v: Vector2<f32> = Vector2::from_xy(-1.5, 2.25);
    let m: mint::Vector2<f32> = v.into();
    assert_eq!(m, mint::Vector2 { x: -1.5, y: 2.25 });
}

#[test]
fn vector2_rotation() {
    let v: Vector2<f32> = Vector2::from_xy(1.0, 0.0);
    let zero_turn = 0.0f32;
    assert_eq!(v.rotated_by(zero_turn.cos(), zero_turn.sin()), v);
    let w: Vector2<f32> = Vector2::from_xy(-2.5, 7.0);
    assert_eq!(w.rotated_by(zero_turn.cos(), zero_turn.sin()), w);
    let quarter = std::f32::consts::FRAC_PI_2;
    let r = v.rotated_by(quarter.cos(), quarter.sin());
    assert!(r.x.abs() <= 1e-6);
    assert!((r.y - 1.0).abs() <= 1e-6);
    let vi: Vector2<i64> = Vector2::from_xy(3, 5);
    assert_eq!(vi.rotated_by(0, 1), Vector2::from_xy(-5, 3));
    assert_eq!(vi.rotated_by(1, 0), vi);
}

#[test]
fn vector2_cos_between() {
    let a: Vector2<f32> = Vector2::from_xy(3.0, 4.0);
    let b = Vector2::from_xy(4.0, 0.0);
    assert_eq!(a.cos_between(b, 5.0, 4.0), 0.6);
    assert!(a.cos_between(Vector2::from_xy(0.0, 0.0), 5.0, 0.0).is_nan());
}

#[test]
fn vector2_normalized_zero_integer() {
    let z: Vector2<i64> = Vector2::from_xy(0, 0);
    assert_eq!(z.normalized(0), None);
    assert_eq!(z.normalized_or_zero(0), z);
}
