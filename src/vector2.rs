//! The two-component vector.
use vstd::prelude::*;
use core::ops::Neg;
use vstd::std_specs::ops::{AddSpec, DivSpec, MulSpec, NegSpec, SubSpec};
use crate::scalar::{
    at_most, difference_of, equal_to, negation_of, product_of, quotient_of, sum_of, zero_of,
};
use crate::vector3::Vector3;

verus! {

/// A vector with components `x` and `y`.
#[derive(Clone, Copy, Debug, PartialEq, Eq, Structural)]
pub struct Vector2<T> {
    pub x: T,
    pub y: T,
}

impl<T: Copy + core::ops::Add<Output = T>> Vector2<T> {
    /// `r` is the component-wise sum of `self` and `rhs`.
    pub open spec fn is_sum(self, rhs: Vector2<T>, r: Vector2<T>) -> bool {
        sum_of(self.x, rhs.x, r.x) && sum_of(self.y, rhs.y, r.y)
    }
}

impl<T: Copy + core::ops::Sub<Output = T>> Vector2<T> {
    /// `r` is the component-wise difference of `self` and `rhs`.
    pub open spec fn is_difference(self, rhs: Vector2<T>, r: Vector2<T>) -> bool {
        difference_of(self.x, rhs.x, r.x) && difference_of(self.y, rhs.y, r.y)
    }

    /// Every component difference of `self` and `rhs` may be taken.
    pub open spec fn sub_ok(self, rhs: Vector2<T>) -> bool {
        self.x.sub_req(rhs.x) && self.y.sub_req(rhs.y)
    }
}

impl<T: Copy + core::ops::Mul<Output = T>> Vector2<T> {
    /// `r` is `self` with each component multiplied by `s`.
    pub open spec fn is_scaled(self, s: T, r: Vector2<T>) -> bool {
        product_of(self.x, s, r.x) && product_of(self.y, s, r.y)
    }

    /// Every component of `self` may be multiplied by `s`.
    pub open spec fn scale_ok(self, s: T) -> bool {
        self.x.mul_req(s) && self.y.mul_req(s)
    }

    /// `r` is the component-wise product of `self` and `other`.
    pub open spec fn is_element_wise_product(self, other: Vector2<T>, r: Vector2<T>) -> bool {
        product_of(self.x, other.x, r.x) && product_of(self.y, other.y, r.y)
    }
}

impl<T: Copy + core::ops::Div<Output = T>> Vector2<T> {
    /// `r` is `self` with each component divided by `s`.
    pub open spec fn is_divided(self, s: T, r: Vector2<T>) -> bool {
        quotient_of(self.x, s, r.x) && quotient_of(self.y, s, r.y)
    }
}

impl<T: Copy + core::ops::Neg<Output = T>> Vector2<T> {
    /// `r` is `self` with each component negated.
    pub open spec fn is_negated(self, r: Vector2<T>) -> bool {
        negation_of(self.x, r.x) && negation_of(self.y, r.y)
    }
}

impl<T: Copy + core::ops::Add<Output = T>> core::ops::Add for Vector2<T> {
    type Output = Vector2<T>;

    /// Component-wise sum.
    fn add(self, rhs: Vector2<T>) -> (r: Vector2<T>)
        ensures
            self.is_sum(rhs, r),
    {
        Vector2 { x: self.x + rhs.x, y: self.y + rhs.y }
    }
}

impl<T: Copy + core::ops::Add<Output = T>> vstd::std_specs::ops::AddSpecImpl for Vector2<T> {
    open spec fn obeys_add_spec() -> bool {
        T::obeys_add_spec()
    }

    open spec fn add_req(self, rhs: Vector2<T>) -> bool {
        self.x.add_req(rhs.x) && self.y.add_req(rhs.y)
    }

    open spec fn add_spec(self, rhs: Vector2<T>) -> Vector2<T> {
        Vector2 { x: self.x.add_spec(rhs.x), y: self.y.add_spec(rhs.y) }
    }
}

impl<T: Copy + core::ops::Add<Output = T>> core::ops::AddAssign for Vector2<T> {
    /// Replaces `self` by the component-wise sum.
    fn add_assign(&mut self, rhs: Vector2<T>)
        requires
            old(self).add_req(rhs),
        ensures
            old(self).is_sum(rhs, *final(self)),
    {
        *self = *self + rhs;
    }
}

impl<T: Copy + core::ops::Sub<Output = T>> core::ops::Sub for Vector2<T> {
    type Output = Vector2<T>;

    /// Component-wise difference.
    fn sub(self, rhs: Vector2<T>) -> (r: Vector2<T>)
        ensures
            self.is_difference(rhs, r),
    {
        Vector2 { x: self.x - rhs.x, y: self.y - rhs.y }
    }
}

impl<T: Copy + core::ops::Sub<Output = T>> vstd::std_specs::ops::SubSpecImpl for Vector2<T> {
    open spec fn obeys_sub_spec() -> bool {
        T::obeys_sub_spec()
    }

    open spec fn sub_req(self, rhs: Vector2<T>) -> bool {
        self.sub_ok(rhs)
    }

    open spec fn sub_spec(self, rhs: Vector2<T>) -> Vector2<T> {
        Vector2 { x: self.x.sub_spec(rhs.x), y: self.y.sub_spec(rhs.y) }
    }
}

impl<T: Copy + core::ops::Sub<Output = T>> core::ops::SubAssign for Vector2<T> {
    /// Replaces `self` by the component-wise difference.
    fn sub_assign(&mut self, rhs: Vector2<T>)
        requires
            old(self).sub_ok(rhs),
        ensures
            old(self).is_difference(rhs, *final(self)),
    {
        *self = *self - rhs;
    }
}

impl<T: Copy + core::ops::Mul<Output = T>> core::ops::Mul<T> for Vector2<T> {
    type Output = Vector2<T>;

    /// Multiplies each component by the scalar.
    fn mul(self, rhs: T) -> (r: Vector2<T>)
        ensures
            self.is_scaled(rhs, r),
    {
        Vector2 { x: self.x * rhs, y: self.y * rhs }
    }
}

impl<T: Copy + core::ops::Mul<Output = T>> vstd::std_specs::ops::MulSpecImpl<T> for Vector2<T> {
    open spec fn obeys_mul_spec() -> bool {
        T::obeys_mul_spec()
    }

    open spec fn mul_req(self, rhs: T) -> bool {
        self.scale_ok(rhs)
    }

    open spec fn mul_spec(self, rhs: T) -> Vector2<T> {
        Vector2 { x: self.x.mul_spec(rhs), y: self.y.mul_spec(rhs) }
    }
}

impl<T: Copy + core::ops::Mul<Output = T>> core::ops::MulAssign<T> for Vector2<T> {
    /// Multiplies each component of `self` by the scalar.
    fn mul_assign(&mut self, rhs: T)
        requires
            old(self).scale_ok(rhs),
        ensures
            old(self).is_scaled(rhs, *final(self)),
    {
        *self = *self * rhs;
    }
}

impl<T: Copy + core::ops::Div<Output = T>> core::ops::Div<T> for Vector2<T> {
    type Output = Vector2<T>;

    /// Divides each component by the scalar, with no guard against a zero
    /// divisor: what the component type does there is what happens.
    fn div(self, rhs: T) -> (r: Vector2<T>)
        ensures
            self.is_divided(rhs, r),
    {
        Vector2 { x: self.x / rhs, y: self.y / rhs }
    }
}

impl<T: Copy + core::ops::Div<Output = T>> vstd::std_specs::ops::DivSpecImpl<T> for Vector2<T> {
    open spec fn obeys_div_spec() -> bool {
        T::obeys_div_spec()
    }

    open spec fn div_req(self, rhs: T) -> bool {
        self.x.div_req(rhs) && self.y.div_req(rhs)
    }

    open spec fn div_spec(self, rhs: T) -> Vector2<T> {
        Vector2 { x: self.x.div_spec(rhs), y: self.y.div_spec(rhs) }
    }
}

impl<T: Copy + core::ops::Div<Output = T>> core::ops::DivAssign<T> for Vector2<T> {
    /// Divides each component of `self` by the scalar.
    fn div_assign(&mut self, rhs: T)
        requires
            old(self).div_req(rhs),
        ensures
            old(self).is_divided(rhs, *final(self)),
    {
        *self = *self / rhs;
    }
}

impl<T: Copy + core::ops::Neg<Output = T>> core::ops::Neg for Vector2<T> {
    type Output = Vector2<T>;

    /// Negates each component.
    fn neg(self) -> (r: Vector2<T>)
        ensures
            self.is_negated(r),
    {
        Vector2 { x: self.x.neg(), y: self.y.neg() }
    }
}

impl<T: Copy + core::ops::Neg<Output = T>> vstd::std_specs::ops::NegSpecImpl for Vector2<T> {
    open spec fn obeys_neg_spec() -> bool {
        T::obeys_neg_spec()
    }

    open spec fn neg_req(self) -> bool {
        self.x.neg_req() && self.y.neg_req()
    }

    open spec fn neg_spec(self) -> Vector2<T> {
        Vector2 { x: self.x.neg_spec(), y: self.y.neg_spec() }
    }
}

impl<T: Copy> Vector2<T> {
    /// Builds a vector from its components.
    pub fn from_xy(x: T, y: T) -> (r: Vector2<T>)
        ensures
            r == (Vector2 { x, y }),
    {
        Vector2 { x, y }
    }

    /// Builds a vector whose components are all `value`.
    pub fn from_value(value: T) -> (r: Vector2<T>)
        ensures
            r == (Vector2 { x: value, y: value }),
    {
        Vector2 { x: value, y: value }
    }

    /// The components in swapped order.
    pub fn yx(&self) -> (r: Vector2<T>)
        ensures
            r == (Vector2 { x: self.y, y: self.x }),
    {
        Vector2 { x: self.y, y: self.x }
    }

    /// Lifts the vector to three components with the given `z`.
    pub fn xyz(&self, z: T) -> (r: Vector3<T>)
        ensures
            r == (Vector3 { x: self.x, y: self.y, z }),
    {
        Vector3 { x: self.x, y: self.y, z }
    }
}

impl<T: Copy + Default> Vector2<T> {
    /// Lifts the vector to three components with `z` the component type's zero.
    pub fn xy0(&self) -> (r: Vector3<T>)
        ensures
            r.x == self.x,
            r.y == self.y,
            zero_of(r.z),
    {
        Vector3 { x: self.x, y: self.y, z: T::default() }
    }
}

impl<T: Copy + core::ops::Neg<Output = T>> Vector2<T> {
    /// The vector with `x` negated.
    pub fn flipped_x(&self) -> (r: Vector2<T>)
        requires
            self.x.neg_req(),
        ensures
            negation_of(self.x, r.x),
            r.y == self.y,
    {
        Vector2 { x: self.x.neg(), y: self.y }
    }

    /// The vector with `y` negated.
    pub fn flipped_y(&self) -> (r: Vector2<T>)
        requires
            self.y.neg_req(),
        ensures
            r.x == self.x,
            negation_of(self.y, r.y),
    {
        Vector2 { x: self.x, y: self.y.neg() }
    }
}

impl<T: Copy + core::ops::Mul<Output = T>> Vector2<T> {
    /// The component-wise (Hadamard) product.
    pub fn element_wise_product(&self, other: Vector2<T>) -> (r: Vector2<T>)
        requires
            self.x.mul_req(other.x),
            self.y.mul_req(other.y),
        ensures
            self.is_element_wise_product(other, r),
    {
        Vector2 { x: self.x * other.x, y: self.y * other.y }
    }
}

impl<T: Copy + core::ops::Add<Output = T> + core::ops::Mul<Output = T>> Vector2<T> {
    /// `d` is `x1 * x2 + y1 * y2` on the component type.
    pub open spec fn is_dot(self, other: Vector2<T>, d: T) -> bool {
        exists|p: T, q: T|
            #![trigger product_of(self.x, other.x, p), product_of(self.y, other.y, q)]
            product_of(self.x, other.x, p) && product_of(self.y, other.y, q) && sum_of(p, q, d)
    }

    /// Every step of the dot product of `self` and `other` may be taken.
    pub open spec fn dot_ok(self, other: Vector2<T>) -> bool {
        &&& self.x.mul_req(other.x)
        &&& self.y.mul_req(other.y)
        &&& forall|p: T, q: T|
            #![trigger product_of(self.x, other.x, p), product_of(self.y, other.y, q)]
            product_of(self.x, other.x, p) && product_of(self.y, other.y, q) ==> p.add_req(q)
    }

    /// The dot product `x1 * x2 + y1 * y2`.
    pub fn dot(&self, other: Vector2<T>) -> (r: T)
        requires
            self.dot_ok(other),
        ensures
            self.is_dot(other, r),
    {
        let p = self.x * other.x;
        let q = self.y * other.y;
        assert(product_of(self.x, other.x, p) && product_of(self.y, other.y, q));
        let d = p + q;
        assert(sum_of(p, q, d));
        d
    }

    /// The squared length `x * x + y * y`.
    pub fn len_squared(&self) -> (r: T)
        requires
            self.dot_ok(*self),
        ensures
            self.is_dot(*self, r),
    {
        self.dot(*self)
    }
}

impl<T> Vector2<T> where
    T: Copy + core::ops::Add<Output = T> + core::ops::Sub<Output = T> + core::ops::Mul<
        Output = T,
    > + core::ops::Div<Output = T>,
 {
    /// `r` is `onto * (onto.dot(self) / onto.len_squared())` on the component
    /// type: the projection of `self` onto `onto`.
    pub open spec fn is_projection_onto(self, onto: Vector2<T>, r: Vector2<T>) -> bool {
        exists|d: T, l: T, k: T|
            #![trigger onto.is_dot(self, d), onto.is_dot(onto, l), quotient_of(d, l, k)]
            onto.is_dot(self, d) && onto.is_dot(onto, l) && quotient_of(d, l, k) && onto.is_scaled(
                k,
                r,
            )
    }

    /// Every step of the projection of `self` onto `onto` may be taken.
    pub open spec fn projection_ok(self, onto: Vector2<T>) -> bool {
        &&& onto.dot_ok(self)
        &&& onto.dot_ok(onto)
        &&& forall|d: T, l: T|
            #![trigger onto.is_dot(self, d), onto.is_dot(onto, l)]
            onto.is_dot(self, d) && onto.is_dot(onto, l) ==> d.div_req(l)
        &&& forall|d: T, l: T, k: T|
            #![trigger onto.is_dot(self, d), onto.is_dot(onto, l), quotient_of(d, l, k)]
            onto.is_dot(self, d) && onto.is_dot(onto, l) && quotient_of(d, l, k) ==> onto.scale_ok(
                k,
            )
    }

    /// `r` is `self` minus its projection onto `from`: the part of `self`
    /// orthogonal to `from`.
    pub open spec fn is_rejection_from(self, from: Vector2<T>, r: Vector2<T>) -> bool {
        exists|p: Vector2<T>|
            #![trigger self.is_projection_onto(from, p)]
            self.is_projection_onto(from, p) && self.is_difference(p, r)
    }

    /// Every step of the rejection of `self` from `from` may be taken.
    pub open spec fn rejection_ok(self, from: Vector2<T>) -> bool {
        &&& self.projection_ok(from)
        &&& forall|p: Vector2<T>|
            #![trigger self.is_projection_onto(from, p)]
            self.is_projection_onto(from, p) ==> self.sub_ok(p)
    }

    /// The projection of `self` onto `other`:
    /// `other * (other.dot(self) / other.len_squared())`. A zero `other`
    /// is not guarded against.
    pub fn projected_onto(&self, other: Vector2<T>) -> (r: Vector2<T>)
        requires
            self.projection_ok(other),
        ensures
            self.is_projection_onto(other, r),
    {
        let d = other.dot(*self);
        let l = other.len_squared();
        assert(other.is_dot(*self, d) && other.is_dot(other, l));
        let k = d / l;
        assert(quotient_of(d, l, k));
        let r = other * k;
        assert(other.is_scaled(k, r));
        r
    }

    /// The projection of `other` onto `self`.
    pub fn projection_of(&self, other: Vector2<T>) -> (r: Vector2<T>)
        requires
            other.projection_ok(*self),
        ensures
            other.is_projection_onto(*self, r),
    {
        other.projected_onto(*self)
    }

    /// The part of `self` orthogonal to `other`: `self - self.projected_onto(other)`.
    pub fn rejection_from(&self, other: Vector2<T>) -> (r: Vector2<T>)
        requires
            self.rejection_ok(other),
        ensures
            self.is_rejection_from(other, r),
    {
        let p = self.projected_onto(other);
        *self - p
    }

    /// The part of `other` orthogonal to `self`.
    pub fn rejection_of(&self, other: Vector2<T>) -> (r: Vector2<T>)
        requires
            other.rejection_ok(*self),
        ensures
            other.is_rejection_from(*self, r),
    {
        other.rejection_from(*self)
    }
}

impl<T> Vector2<T> where
    T: Copy + core::ops::Add<Output = T> + core::ops::Mul<Output = T> + core::ops::Div<
        Output = T,
    > + PartialEq + Default,
 {
    /// `r` is `None` exactly when `len_squared() == 0` on the component type,
    /// and otherwise `Some` of the vector divided by `length`.
    pub open spec fn is_normalized_by(self, length: T, r: Option<Vector2<T>>) -> bool {
        exists|l: T, z: T, degenerate: bool|
            #![trigger self.is_dot(self, l), zero_of(z), equal_to(l, z, degenerate)]
            self.is_dot(self, l) && zero_of(z) && equal_to(l, z, degenerate) && (if degenerate {
                r is None
            } else {
                r is Some && self.is_divided(length, r->Some_0)
            })
    }

    /// Every step of `normalized(length)` may be taken: the squared length
    /// may be computed, and the vector divided by `length` wherever the
    /// squared length is not zero.
    pub open spec fn normalize_ok(self, length: T) -> bool {
        &&& self.dot_ok(self)
        &&& forall|l: T, z: T|
            #![trigger self.is_dot(self, l), zero_of(z), equal_to(l, z, false)]
            self.is_dot(self, l) && zero_of(z) && equal_to(l, z, false) ==> self.div_req(length)
    }

    /// The vector divided by `length`, its Euclidean length as the caller
    /// computed it; `None` exactly when `len_squared()` equals zero, so that a
    /// zero vector is never divided.
    pub fn normalized(&self, length: T) -> (r: Option<Vector2<T>>)
        requires
            self.normalize_ok(length),
        ensures
            self.is_normalized_by(length, r),
    {
        let l = self.len_squared();
        let z = T::default();
        assert(zero_of(z));
        let degenerate = l == z;
        assert(equal_to(l, z, degenerate));
        assert(self.is_dot(*self, l));
        if degenerate {
            None
        } else {
            let u = *self / length;
            assert(self.is_divided(length, u));
            Some(u)
        }
    }

    /// As `normalized`, with the zero vector in place of `None`.
    pub fn normalized_or_zero(&self, length: T) -> (r: Vector2<T>)
        requires
            self.normalize_ok(length),
        ensures
            exists|n: Option<Vector2<T>>|
                #![trigger self.is_normalized_by(length, n)]
                self.is_normalized_by(length, n) && (if n is Some {
                    r == n->Some_0
                } else {
                    zero_of(r.x) && zero_of(r.y)
                }),
    {
        match self.normalized(length) {
            Some(u) => u,
            None => Vector2::default(),
        }
    }
}

impl<T> Vector2<T> where
    T: Copy + core::ops::Add<Output = T> + core::ops::Mul<Output = T> + PartialOrd,
 {
    /// `r` is what `len_squared() <= epsilon * epsilon` gives on the
    /// component type.
    pub open spec fn is_almost_zero_within(self, epsilon: T, r: bool) -> bool {
        exists|l: T, e: T|
            #![trigger self.is_dot(self, l), product_of(epsilon, epsilon, e)]
            self.is_dot(self, l) && product_of(epsilon, epsilon, e) && at_most(l, e, r)
    }

    /// Whether the squared length is at most `epsilon * epsilon`, with
    /// `epsilon` the tolerance of the component type (its machine epsilon for
    /// floating point).
    pub fn is_almost_zero(&self, epsilon: T) -> (r: bool)
        requires
            self.dot_ok(*self),
            epsilon.mul_req(epsilon),
        ensures
            self.is_almost_zero_within(epsilon, r),
    {
        let l = self.len_squared();
        let e = epsilon * epsilon;
        assert(product_of(epsilon, epsilon, e));
        let r = l <= e;
        assert(at_most(l, e, r));
        r
    }
}

impl<T> Vector2<T> where
    T: Copy + core::ops::Add<Output = T> + core::ops::Sub<Output = T> + core::ops::Mul<
        Output = T,
    > + PartialOrd,
 {
    /// Whether `self - other` is almost zero within `epsilon`.
    pub fn is_almost_equal_to(&self, other: Vector2<T>, epsilon: T) -> (r: bool)
        requires
            self.sub_ok(other),
            forall|d: Vector2<T>| #[trigger] self.is_difference(other, d) ==> d.dot_ok(d),
            epsilon.mul_req(epsilon),
        ensures
            exists|d: Vector2<T>|
                #![trigger self.is_difference(other, d)]
                self.is_difference(other, d) && d.is_almost_zero_within(epsilon, r),
    {
        let d = *self - other;
        d.is_almost_zero(epsilon)
    }
}

impl<T> Vector2<T> where
    T: Copy + core::ops::Add<Output = T> + core::ops::Sub<Output = T> + core::ops::Mul<Output = T>,
 {
    /// `r` is the vector rotated by the angle whose cosine and sine are
    /// `cos` and `sin`: `x' = x cos - y sin`, `y' = x sin + y cos` on the
    /// component type (counter-clockwise in a right-handed, y-up frame).
    pub open spec fn is_rotated_by(self, cos: T, sin: T, r: Vector2<T>) -> bool {
        &&& exists|p: T, q: T|
            #![trigger product_of(self.x, cos, p), product_of(self.y, sin, q)]
            product_of(self.x, cos, p) && product_of(self.y, sin, q) && difference_of(p, q, r.x)
        &&& exists|p: T, q: T|
            #![trigger product_of(self.x, sin, p), product_of(self.y, cos, q)]
            product_of(self.x, sin, p) && product_of(self.y, cos, q) && sum_of(p, q, r.y)
    }

    /// Every step of the rotation by `cos` and `sin` may be taken.
    pub open spec fn rotation_ok(self, cos: T, sin: T) -> bool {
        &&& self.x.mul_req(cos)
        &&& self.y.mul_req(sin)
        &&& self.x.mul_req(sin)
        &&& self.y.mul_req(cos)
        &&& forall|p: T, q: T|
            #![trigger product_of(self.x, cos, p), product_of(self.y, sin, q)]
            product_of(self.x, cos, p) && product_of(self.y, sin, q) ==> p.sub_req(q)
        &&& forall|p: T, q: T|
            #![trigger product_of(self.x, sin, p), product_of(self.y, cos, q)]
            product_of(self.x, sin, p) && product_of(self.y, cos, q) ==> p.add_req(q)
    }

    /// The vector rotated by the angle whose cosine is `cos` and whose sine
    /// is `sin`: `(x cos - y sin, x sin + y cos)`.
    pub fn rotated_by(&self, cos: T, sin: T) -> (r: Vector2<T>)
        requires
            self.rotation_ok(cos, sin),
        ensures
            self.is_rotated_by(cos, sin, r),
    {
        let p = self.x * cos;
        let q = self.y * sin;
        assert(product_of(self.x, cos, p) && product_of(self.y, sin, q));
        let x = p - q;
        assert(difference_of(p, q, x));
        let s = self.x * sin;
        let c = self.y * cos;
        assert(product_of(self.x, sin, s) && product_of(self.y, cos, c));
        let y = s + c;
        assert(sum_of(s, c, y));
        Vector2 { x, y }
    }
}

impl<T> Vector2<T> where
    T: Copy + core::ops::Add<Output = T> + core::ops::Mul<Output = T> + core::ops::Div<Output = T>,
 {
    /// `r` is `self.dot(other) / self_len / other_len` on the component type.
    pub open spec fn is_cos_between(self, other: Vector2<T>, self_len: T, other_len: T, r: T) -> bool {
        exists|d: T, q: T|
            #![trigger self.is_dot(other, d), quotient_of(d, self_len, q)]
            self.is_dot(other, d) && quotient_of(d, self_len, q) && quotient_of(q, other_len, r)
    }

    /// Every step of `cos_between` may be taken.
    pub open spec fn cos_between_ok(self, other: Vector2<T>, self_len: T, other_len: T) -> bool {
        &&& self.dot_ok(other)
        &&& forall|d: T| #[trigger] self.is_dot(other, d) ==> d.div_req(self_len)
        &&& forall|d: T, q: T|
            #![trigger self.is_dot(other, d), quotient_of(d, self_len, q)]
            self.is_dot(other, d) && quotient_of(d, self_len, q) ==> q.div_req(other_len)
    }

    /// The cosine of the angle between the vectors,
    /// `self.dot(other) / self_len / other_len`, where `self_len` and
    /// `other_len` are the two lengths as the caller computed them. A zero
    /// length is not guarded against.
    pub fn cos_between(&self, other: Vector2<T>, self_len: T, other_len: T) -> (r: T)
        requires
            self.cos_between_ok(other, self_len, other_len),
        ensures
            self.is_cos_between(other, self_len, other_len, r),
    {
        let d = self.dot(other);
        let q = d / self_len;
        assert(quotient_of(d, self_len, q));
        let r = q / other_len;
        assert(quotient_of(q, other_len, r));
        r
    }
}

impl<T: Copy + PartialOrd> Vector2<T> {
    /// Whether `min <= x <= max`.
    pub fn is_x_inside_interval(&self, min: T, max: T) -> (r: bool)
        ensures
            r ==> at_most(min, self.x, true) && at_most(self.x, max, true),
            !r ==> at_most(min, self.x, false) || at_most(self.x, max, false),
    {
        min <= self.x && self.x <= max
    }

    /// Whether `min <= y <= max`.
    pub fn is_y_inside_interval(&self, min: T, max: T) -> (r: bool)
        ensures
            r ==> at_most(min, self.y, true) && at_most(self.y, max, true),
            !r ==> at_most(min, self.y, false) || at_most(self.y, max, false),
    {
        min <= self.y && self.y <= max
    }
}

impl<T: Default> Default for Vector2<T> {
    /// The zero vector.
    fn default() -> (r: Vector2<T>)
        ensures
            zero_of(r.x),
            zero_of(r.y),
    {
        Vector2 { x: T::default(), y: T::default() }
    }
}

} // verus!
