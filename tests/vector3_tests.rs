use vector_math::Vector2;
use vector_math::Vector3;

#[test]
fn test_vector3_addition() {
    let v1: Vector3<f32> = Vector3::from_xyz(1.0, 2.0, 3.0);
    let v2 = Vector3::from_xyz(4.0, 5.0, 6.0);
    let result = v1 + v2;
    assert_eq!(result, Vector3::from_xyz(5.0, 7.0, 9.0));
}

#[test]
fn test_vector3_subtraction() {
    let v1: Vector3<f32> = Vector3::from_xyz(4.0, 5.0, 6.0);
    let v2 = Vector3::from_xyz(1.0, 2.0, 3.0);
    let result = v1 - v2;
    assert_eq!(result, Vector3::from_xyz(3.0, 3.0, 3.0));
}

#[test]
fn test_vector3_scalar_multiplication() {
    let v: Vector3<f32> = Vector3::from_xyz(2.0, 3.0, 4.0);
    let scalar = 2.0;
    let result = v * scalar;
    assert_eq!(result, Vector3::from_xyz(4.0, 6.0, 8.0));
}

#[test]
fn test_vector3_scalar_division() {
    let v: Vector3<f32> = Vector3::from_xyz(4.0, 6.0, 8.0);
    let scalar = 2.0;
    let result = v / scalar;
    assert_eq!(result, Vector3::from_xyz(2.0, 3.0, 4.0));
}

#[test]
fn test_vector3_dot_product() {
    let v1: Vector3<f32> = Vector3::from_xyz(1.0, 2.0, 3.0);
    let v2 = Vector3::from_xyz(4.0, 5.0, 6.0);
    let result = v1.dot(v2);
    assert_eq!(result, 32.0);
}

#[test]
fn test_vector3_cross_product() {
    let v1: Vector3<f32> = Vector3::from_xyz(1.0, 0.0, 0.0);
    let v2 = Vector3::from_xyz(0.0, 1.0, 0.0);
    let result = v1.cross(v2);
    assert_eq!(result, Vector3::from_xyz(0.0, 0.0, 1.0));
}

#[test]
fn vector3_add_then_subtract_and_commute() {
    let a: Vector3<f32> = Vector3::from_xyz(1.5, -2.0, 8.0);
    let b = Vector3::from_xyz(0.25, 4.0, -3.0);
    assert_eq!(a + b - b, a);
    assert_eq!(a + b, b + a);
    let ai: Vector3<i64> = Vector3::from_xyz(7, -9, 11);
    let bi = Vector3::from_xyz(-100, 3, 5);
    assert_eq!(ai + bi - bi, ai);
    assert_eq!(ai + bi, bi + ai);
}

#[test]
fn vector3_scale_then_divide() {
    let v: Vector3<f32> = Vector3::from_xyz(1.0, -3.0, 0.1);
    let s = 7.0;
    let back = v * s / s;
    assert!((back.x - v.x).abs() <= 1e-6);
    assert!((back.y - v.y).abs() <= 1e-6);
    assert!((back.z - v.z).abs() <= 1e-6);
    let vi: Vector3<i64> = Vector3::from_xyz(4, -5, 6);
    assert_eq!(vi * -3 / -3, vi);
}

#[test]
fn vector3_cross_laws() {
    let a: Vector3<f32> = Vector3::from_xyz(1.0, 2.0, 3.0);
    let b = Vector3::from_xyz(-4.0, 0.5, 2.0);
    assert_eq!(a.cross(a), Vector3::from_xyz(0.0, 0.0, 0.0));
    assert_eq!(a.cross(b), -b.cross(a));
    assert_eq!(a.cross(b), Vector3::from_xyz(2.5, -14.0, 8.5));
    let ai: Vector3<i64> = Vector3::from_xyz(3, -1, 2);
    let bi = Vector3::from_xyz(0, 5, 7);
    assert_eq!(ai.cross(ai), Vector3::from_xyz(0, 0, 0));
    assert_eq!(ai.cross(bi), -bi.cross(ai));
}

#[test]
fn vector3_cross_in_direction_of() {
    let x: Vector3<f32> = Vector3::from_xyz(1.0, 0.0, 0.0);
    let y = Vector3::from_xyz(0.0, 1.0, 0.0);
    let down = Vector3::from_xyz(0.0, 0.0, -2.0);
    let up = Vector3::from_xyz(0.0, 0.0, 2.0);
    let side = Vector3::from_xyz(5.0, 0.0, 0.0);
    assert_eq!(x.cross_in_direction_of(y, down), Vector3::from_xyz(0.0, 0.0, -1.0));
    assert_eq!(x.cross_in_direction_of(y, up), Vector3::from_xyz(0.0, 0.0, 1.0));
    // a zero dot product keeps the unflipped cross product
    assert_eq!(x.cross_in_direction_of(y, side), Vector3::from_xyz(0.0, 0.0, 1.0));
}

#[test]
fn vector3_projection_and_rejection() {
    let v: Vector3<f32> = Vector3::from_xyz(2.0, 3.0, 4.0);
    let axis = Vector3::from_xyz(0.0, 2.0, 0.0);
    assert_eq!(v.projected_onto(axis), Vector3::from_xyz(0.0, 3.0, 0.0));
    assert_eq!(axis.projection_of(v), Vector3::from_xyz(0.0, 3.0, 0.0));
    assert_eq!(v.rejection_from(axis), Vector3::from_xyz(2.0, 0.0, 4.0));
    assert_eq!(axis.rejection_of(v), Vector3::from_xyz(2.0, 0.0, 4.0));
    let onto_zero = v.projected_onto(Vector3::from_xyz(0.0, 0.0, 0.0));
    assert!(onto_zero.x.is_nan() && onto_zero.y.is_nan() && onto_zero.z.is_nan());
}

#[test]
fn vector3_normalization() {
    let v: Vector3<f32> = Vector3::from_xyz(3.0, 4.0, 0.0);
    assert_eq!(v.normalized(5.0), Some(Vector3::from_xyz(0.6, 0.8, 0.0)));
    assert_eq!(v.normalized_or_zero(5.0), Vector3::from_xyz(0.6, 0.8, 0.0));
    let zero: Vector3<f32> = Vector3::from_value(0.0);
    assert_eq!(zero.normalized(0.0), None);
    assert_eq!(zero.normalized_or_zero(0.0), Vector3::from_xyz(0.0, 0.0, 0.0));
}

#[test]
fn vector3_almost_zero() {
    let tiny: Vector3<f32> = Vector3::from_xyz(1e-8, 0.0, -1e-8);
    assert!(tiny.is_almost_zero(f32::EPSILON));
    let small: Vector3<f32> = Vector3::from_xyz(0.0, 0.001, 0.0);
    assert!(!small.is_almost_zero(f32::EPSILON));
    assert!(Vector3::from_xyz(0, 0, 0).is_almost_zero(0i64));
    assert!(!Vector3::from_xyz(0, 1, 0).is_almost_zero(0i64));
}

#[test]
fn vector3_constructors_and_axis_pairs() {
    let xy: Vector2<f32> = Vector2::from_xy(1.0, 2.0);
    assert_eq!(Vector3::from_xy(xy, 3.0), Vector3::from_xyz(1.0, 2.0, 3.0));
    assert_eq!(Vector3::from_xz(xy, 3.0), Vector3::from_xyz(1.0, 3.0, 2.0));
    assert_eq!(Vector3::from_yz(xy, 3.0), Vector3::from_xyz(3.0, 1.0, 2.0));
    assert_eq!(Vector3::from_value(4.5f32), Vector3::from_xyz(4.5, 4.5, 4.5));
    let v: Vector3<f32> = Vector3::from_xyz(1.0, 2.0, 3.0);
    assert_eq!(v.xy(), Vector2::from_xy(1.0, 2.0));
    assert_eq!(v.xz(), Vector2::from_xy(1.0, 3.0));
    assert_eq!(v.yz(), Vector2::from_xy(2.0, 3.0));
    assert_eq!(v.yx(), Vector2::from_xy(2.0, 1.0));
    assert_eq!(v.zx(), Vector2::from_xy(3.0, 1.0));
    assert_eq!(v.zy(), Vector2::from_xy(3.0, 2.0));
    assert_eq!(Vector3::from_xy(v.xy(), v.z), v);
    assert_eq!(Vector3::from_xz(v.xz(), v.y), v);
    assert_eq!(Vector3::from_yz(v.yz(), v.x), v);
}

#[test]
fn vector3_flips() {
    let v: Vector3<f32> = Vector3::from_xyz(1.0, 2.0, 3.0);
    assert_eq!(v.flipped_x(), Vector3::from_xyz(-1.0, 2.0, 3.0));
    assert_eq!(v.flipped_y(), Vector3::from_xyz(1.0, -2.0, 3.0));
    assert_eq!(v.flipped_z(), Vector3::from_xyz(1.0, 2.0, -3.0));
    assert_eq!(v.flipped_xy(), Vector3::from_xyz(-1.0, -2.0, 3.0));
    assert_eq!(v.flipped_xz(), Vector3::from_xyz(-1.0, 2.0, -3.0));
    assert_eq!(v.flipped_yz(), Vector3::from_xyz(1.0, -2.0, -3.0));
    assert_eq!(-v, Vector3::from_xyz(-1.0, -2.0, -3.0));
}

#[test]
fn vector3_element_wise_and_intervals() {
    let a: Vector3<f32> = Vector3::from_xyz(1.0, -2.0, 3.0);
    let b = Vector3::from_xyz(4.0, 5.0, -6.0);
    assert_eq!(a.element_wise_product(b), Vector3::from_xyz(4.0, -10.0, -18.0));
    assert_eq!(a.len_squared(), 14.0);
    assert!(a.is_x_inside_interval(1.0, 1.0));
    assert!(!a.is_y_inside_interval(-1.0, 1.0));
    assert!(a.is_z_inside_interval(0.0, 3.0));
    assert!(!a.is_z_inside_interval(3.5, 4.0));
}

#[test]
fn vector3_assign_operators_and_default() {
    let mut v: Vector3<f32> = Vector3::from_xyz(1.0, 2.0, 3.0);
    v += Vector3::from_xyz(1.0, 1.0, 1.0);
    assert_eq!(v, Vector3::from_xyz(2.0, 3.0, 4.0));
    v -= Vector3::from_xyz(0.5, 0.5, 0.5);
    assert_eq!(v, Vector3::from_xyz(1.5, 2.5, 3.5));
    v *= 2.0;
    assert_eq!(v, Vector3::from_xyz(3.0, 5.0, 7.0));
    v /= 2.0;
    assert_eq!(v, Vector3::from_xyz(1.5, 2.5, 3.5));
    let d: Vector3<f32> = Vector3::default();
    assert_eq!(d, Vector3::from_xyz(0.0, 0.0, 0.0));
    let inf = Vector3::from_xyz(1.0f32, -1.0, 0.0) / 0.0;
    assert!(inf.x.is_infinite() && inf.y.is_infinite() && inf.z.is_nan());
}

#[test]
fn vector3_interchange_round_trip() {
    let v: Vector3<f32> = Vector3::from_xyz(1.25, -2.5, 1e10);
    let m: mint::Vector3<f32> = v.into();
    assert_eq!((m.x, m.y, m.z), (1.25, -2.5, 1e10));
    let back: Vector3<f32> = m.into();
    assert_eq!(back, v);
    let m2 = mint::Vector3 { x: 7.0f32, y: 8.0, z: 9.0 };
    let v2: Vector3<f32> = m2.into();
    assert_eq!(v2, Vector3::from_xyz(7.0, 8.0, 9.0));
    let m3: mint::Vector3<f32> = v2.into();
    assert_eq!(m3, m2);
}

#[test]
fn vector3_axis_rotations() {
    let v: Vector3<i64> = Vector3::from_xyz(1, 2, 3);
    assert_eq!(v.rotated_around_x_by(0, 1), Vector3::from_xyz(1, -3, 2));
    assert_eq!(v.rotated_around_y_by(0, 1), Vector3::from_xyz(-3, 2, 1));
    assert_eq!(v.rotated_around_z_by(0, 1), Vector3::from_xyz(-2, 1, 3));
    assert_eq!(v.rotated_around_z_by(1, 0), v);
    let f: Vector3<f32> = Vector3::from_xyz(1.0, 0.0, 0.0);
    let quarter = std::f32::consts::FRAC_PI_2;
    let r = f.rotated_around_z_by(quarter.cos(), quarter.sin());
    assert!(r.x.abs() <= 1e-6 && (r.y - 1.0).abs() <= 1e-6 && r.z == 0.0);
}

#[test]
fn vector3_cos_between_and_almost_equal() {
    let a: Vector3<f32> = Vector3::from_xyz(0.0, 3.0, 4.0);
    let b = Vector3::from_xyz(0.0, 0.0, 2.0);
    assert_eq!(a.cos_between(b, 5.0, 2.0), 0.8);
    assert!(a.is_almost_equal_to(a, f32::EPSILON));
    assert!(a.is_almost_equal_to(Vector3::from_xyz(0.0, 3.0, 4.0 + 1e-9), f32::EPSILON));
    assert!(!a.is_almost_equal_to(b, f32::EPSILON));
}

#[test]
fn vector3_normalized_zero_integer() {
    let z: Vector3<i64> = Vector3::from_xyz(0, 0, 0);
    assert_eq!(z.normalized(0), None);
    assert_eq!(z.normalized_or_zero(0), z);
}
