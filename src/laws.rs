//! Laws that relate the vector operations to one another.
//!
//! The structural laws hold for every component type. The arithmetic ones
//! are stated for `i64` components, where the component operations are the
//! exact integer ones wherever they do not overflow.
use vstd::prelude::*;
use vstd::std_specs::convert::FromSpec;
use vstd::std_specs::ops::AddSpec;
use mint::Vector2 as MintVector2;
use mint::Vector3 as MintVector3;
use crate::vector2::Vector2;
use crate::vector3::Vector3;

verus! {

/// Putting back the component that a two-component view left out gives the
/// vector again: `from_xy(v.xy(), v.z) == v`, and likewise for `xz` and `yz`.
pub proof fn lemma_axis_pair_round_trip<T: Copy>(v: Vector3<T>)
    ensures
        Vector3::spec_from_xy(v.spec_xy(), v.z) == v,
        Vector3::spec_from_xz(v.spec_xz(), v.y) == v,
        Vector3::spec_from_yz(v.spec_yz(), v.x) == v,
{
}

/// Converting a vector to the interchange record and back gives the vector
/// again, and so does converting a record to a vector and back.
pub proof fn lemma_interchange_round_trip<T>(v: Vector3<T>, m: MintVector3<T>)
    ensures
        <Vector3<T> as FromSpec<MintVector3<T>>>::from_spec(
            <MintVector3<T> as FromSpec<Vector3<T>>>::from_spec(v),
        ) == v,
        <MintVector3<T> as FromSpec<Vector3<T>>>::from_spec(
            <Vector3<T> as FromSpec<MintVector3<T>>>::from_spec(m),
        ) == m,
{
}

/// Adding `b` and then subtracting it gives `a` back, and `a + b == b + a`,
/// wherever `a + b` does not overflow.
pub proof fn lemma_add_sub_cancel_vector2(
    a: Vector2<i64>,
    b: Vector2<i64>,
    s: Vector2<i64>,
    t: Vector2<i64>,
    d: Vector2<i64>,
)
    requires
        a.add_req(b),
        a.is_sum(b, s),
        b.is_sum(a, t),
        s.is_difference(b, d),
    ensures
        d == a,
        s == t,
{
}

/// Adding `b` and then subtracting it gives `a` back, and `a + b == b + a`,
/// wherever `a + b` does not overflow.
pub proof fn lemma_add_sub_cancel_vector3(
    a: Vector3<i64>,
    b: Vector3<i64>,
    s: Vector3<i64>,
    t: Vector3<i64>,
    d: Vector3<i64>,
)
    requires
        a.add_req(b),
        a.is_sum(b, s),
        b.is_sum(a, t),
        s.is_difference(b, d),
    ensures
        d == a,
        s == t,
{
}

/// Dividing an `i64` multiple `x * s` by `s` gives `x` back.
proof fn lemma_product_quotient(x: i64, s: i64, m: i64, q: i64)
    requires
        s != 0,
        m == x * s,
        q == (if m >= 0 {
            (m / s) as i64
        } else {
            (-((-m) / (s as int))) as i64
        }),
    ensures
        q == x,
{
    if m >= 0 {
        assert((x * s) / (s as int) == x) by (nonlinear_arith)
            requires
                s != 0,
        ;
    } else {
        assert((-(x * s)) / (s as int) == -x) by (nonlinear_arith)
            requires
                s != 0,
        ;
    }
}

/// Scaling a vector by a nonzero `s` and then dividing it by `s` gives it
/// back, wherever the scaling does not overflow.
pub proof fn lemma_scale_divide_round_trip(
    v: Vector3<i64>,
    s: i64,
    m: Vector3<i64>,
    q: Vector3<i64>,
)
    requires
        s != 0,
        v.scale_ok(s),
        v.is_scaled(s, m),
        m.is_divided(s, q),
    ensures
        q == v,
{
    lemma_product_quotient(v.x, s, m.x, q.x);
    lemma_product_quotient(v.y, s, m.y, q.y);
    lemma_product_quotient(v.z, s, m.z, q.z);
}

/// The cross product of a vector with itself is the zero vector.
pub proof fn lemma_cross_self_is_zero(v: Vector3<i64>, c: Vector3<i64>)
    requires
        v.is_cross(v, c),
    ensures
        c == (Vector3 { x: 0i64, y: 0i64, z: 0i64 }),
{
    assert(v.y * v.z == v.z * v.y) by (nonlinear_arith);
    assert(v.z * v.x == v.x * v.z) by (nonlinear_arith);
    assert(v.x * v.y == v.y * v.x) by (nonlinear_arith);
}

/// Swapping the operands of the cross product negates it:
/// `b.cross(a) == -a.cross(b)`, wherever neither product overflows.
pub proof fn lemma_cross_anticommutative(
    a: Vector3<i64>,
    b: Vector3<i64>,
    c: Vector3<i64>,
    d: Vector3<i64>,
    e: Vector3<i64>,
)
    requires
        a.cross_ok(b),
        b.cross_ok(a),
        a.is_cross(b, c),
        b.is_cross(a, d),
        c.is_negated(e),
    ensures
        d == e,
{
    assert(a.y * b.z == b.z * a.y && a.z * b.y == b.y * a.z) by (nonlinear_arith);
    assert(a.z * b.x == b.x * a.z && a.x * b.z == b.z * a.x) by (nonlinear_arith);
    assert(a.x * b.y == b.y * a.x && a.y * b.x == b.x * a.y) by (nonlinear_arith);
}

/// Normalizing the zero vector is allowed for any `length` and gives `None`.
pub proof fn lemma_normalized_zero_is_none_vector3(
    v: Vector3<i64>,
    length: i64,
    r: Option<Vector3<i64>>,
)
    requires
        v == (Vector3 { x: 0i64, y: 0i64, z: 0i64 }),
    ensures
        v.normalize_ok(length),
        v.is_normalized_by(length, r) ==> r is None,
{
}

/// Normalizing the zero vector is allowed for any `length` and gives `None`.
pub proof fn lemma_normalized_zero_is_none_vector2(
    v: Vector2<i64>,
    length: i64,
    r: Option<Vector2<i64>>,
)
    requires
        v == (Vector2 { x: 0i64, y: 0i64 }),
    ensures
        v.normalize_ok(length),
        v.is_normalized_by(length, r) ==> r is None,
{
}

/// Rotating by the angle whose cosine is 1 and whose sine is 0 leaves the
/// vector as it is.
pub proof fn lemma_rotation_by_zero_is_identity(v: Vector2<i64>, r: Vector2<i64>)
    requires
        v.is_rotated_by(1i64, 0i64, r),
    ensures
        r == v,
{
}

/// Rotating by a quarter turn, cosine 0 and sine 1, maps `(x, y)` to
/// `(-y, x)`; in particular `(1, 0)` goes to `(0, 1)`.
pub proof fn lemma_quarter_turn(v: Vector2<i64>, r: Vector2<i64>)
    requires
        v.rotation_ok(0i64, 1i64),
        v.is_rotated_by(0i64, 1i64, r),
    ensures
        r.x == -v.y,
        r.y == v.x,
        v == (Vector2 { x: 1i64, y: 0i64 }) ==> r == (Vector2 { x: 0i64, y: 1i64 }),
{
}

} // verus!
