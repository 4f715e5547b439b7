//! The three-component vector.
use vstd::prelude::*;
use core::ops::Neg;
use vstd::std_specs::ops::{AddSpec, DivSpec, MulSpec, NegSpec, SubSpec};
use crate::scalar::{
    at_most, difference_of, equal_to, less_than, negation_of, product_of, quotient_of, sum_of,
    zero_of,
};
use crate::vector2::Vector2;

verus! {

/// A vector with components `x`, `y` and `z`.
#[derive(Clone, Copy, Debug, PartialEq, Eq, Structural)]
pub struct Vector3<T> {
    pub x: T,
    pub y: T,
    pub z: T,
}

impl<T: Copy + core::ops::Add<Output = T>> Vector3<T> {
    /// `r` is the component-wise sum of `self` and `rhs`.
    pub open spec fn is_sum(self, rhs: Vector3<T>, r: Vector3<T>) -> bool {
        sum_of(self.x, rhs.x, r.x) && sum_of(self.y, rhs.y, r.y) && sum_of(self.z, rhs.z, r.z)
    }
}

impl<T: Copy + core::ops::Sub<Output = T>> Vector3<T> {
    /// `r` is the component-wise difference of `self` and `rhs`.
    pub open spec fn is_difference(self, rhs: Vector3<T>, r: Vector3<T>) -> bool {
        difference_of(self.x, rhs.x, r.x) && difference_of(self.y, rhs.y, r.y)
            && difference_of(self.z, rhs.z, r.z)
    }

    /// Every component difference of `self` and `rhs` may be taken.
    pub open spec fn sub_ok(self, rhs: Vector3<T>) -> bool {
        self.x.sub_req(rhs.x) && self.y.sub_req(rhs.y) && self.z.sub_req(rhs.z)
    }
}

impl<T: Copy + core::ops::Mul<Output = T>> Vector3<T> {
    /// `r` is `self` with each component multiplied by `s`.
    pub open spec fn is_scaled(self, s: T, r: Vector3<T>) -> bool {
        product_of(self.x, s, r.x) && product_of(self.y, s, r.y) && product_of(self.z, s, r.z)
    }

    /// Every component of `self` may be multiplied by `s`.
    pub open spec fn scale_ok(self, s: T) -> bool {
        self.x.mul_req(s) && self.y.mul_req(s) && self.z.mul_req(s)
    }

    /// `r` is the component-wise product of `self` and `other`.
    pub open spec fn is_element_wise_product(self, other: Vector3<T>, r: Vector3<T>) -> bool {
        product_of(self.x, other.x, r.x) && product_of(self.y, other.y, r.y)
            && product_of(self.z, other.z, r.z)
    }
}

impl<T: Copy + core::ops::Div<Output = T>> Vector3<T> {
    /// `r` is `self` with each component divided by `s`.
    pub open spec fn is_divided(self, s: T, r: Vector3<T>) -> bool {
        quotient_of(self.x, s, r.x) && quotient_of(self.y, s, r.y) && quotient_of(self.z, s, r.z)
    }
}

impl<T: Copy + core::ops::Neg<Output = T>> Vector3<T> {
    /// `r` is `self` with each component negated.
    pub open spec fn is_negated(self, r: Vector3<T>) -> bool {
        negation_of(self.x, r.x) && negation_of(self.y, r.y) && negation_of(self.z, r.z)
    }
}

impl<T: Copy + core::ops::Add<Output = T>> core::ops::Add for Vector3<T> {
    type Output = Vector3<T>;

    /// Component-wise sum.
    fn add(self, rhs: Vector3<T>) -> (r: Vector3<T>)
        ensures
            self.is_sum(rhs, r),
    {
        Vector3 { x: self.x + rhs.x, y: self.y + rhs.y, z: self.z + rhs.z }
    }
}

impl<T: Copy + core::ops::Add<Output = T>> vstd::std_specs::ops::AddSpecImpl for Vector3<T> {
    open spec fn obeys_add_spec() -> bool {
        T::obeys_add_spec()
    }

    open spec fn add_req(self, rhs: Vector3<T>) -> bool {
        self.x.add_req(rhs.x) && self.y.add_req(rhs.y) && self.z.add_req(rhs.z)
    }

    open spec fn add_spec(self, rhs: Vector3<T>) -> Vector3<T> {
        Vector3 {
            x: self.x.add_spec(rhs.x),
            y: self.y.add_spec(rhs.y),
            z: self.z.add_spec(rhs.z),
        }
    }
}

impl<T: Copy + core::ops::Add<Output = T>> core::ops::AddAssign for Vector3<T> {
    /// Replaces `self` by the component-wise sum.
    fn add_assign(&mut self, rhs: Vector3<T>)
        requires
            old(self).add_req(rhs),
        ensures
            old(self).is_sum(rhs, *final(self)),
    {
        *self = *self + rhs;
    }
}

impl<T: Copy + core::ops::Sub<Output = T>> core::ops::Sub for Vector3<T> {
    type Output = Vector3<T>;

    /// Component-wise difference.
    fn sub(self, rhs: Vector3<T>) -> (r: Vector3<T>)
        ensures
            self.is_difference(rhs, r),
    {
        Vector3 { x: self.x - rhs.x, y: self.y - rhs.y, z: self.z - rhs.z }
    }
}

impl<T: Copy + core::ops::Sub<Output = T>> vstd::std_specs::ops::SubSpecImpl for Vector3<T> {
    open spec fn obeys_sub_spec() -> bool {
        T::obeys_sub_spec()
    }

    open spec fn sub_req(self, rhs: Vector3<T>) -> bool {
        self.sub_ok(rhs)
    }

    open spec fn sub_spec(self, rhs: Vector3<T>) -> Vector3<T> {
        Vector3 {
            x: self.x.sub_spec(rhs.x),
            y: self.y.sub_spec(rhs.y),
            z: self.z.sub_spec(rhs.z),
        }
    }
}

impl<T: Copy + core::ops::Sub<Output = T>> core::ops::SubAssign for Vector3<T> {
    /// Replaces `self` by the component-wise difference.
    fn sub_assign(&mut self, rhs: Vector3<T>)
        requires
            old(self).sub_ok(rhs),
        ensures
            old(self).is_difference(rhs, *final(self)),
    {
        *self = *self - rhs;
    }
}

impl<T: Copy + core::ops::Mul<Output = T>> core::ops::Mul<T> for Vector3<T> {
    type Output = Vector3<T>;

    /// Multiplies each component by the scalar.
    fn mul(self, rhs: T) -> (r: Vector3<T>)
        ensures
            self.is_scaled(rhs, r),
    {
        Vector3 { x: self.x * rhs, y: self.y * rhs, z: self.z * rhs }
    }
}

impl<T: Copy + core::ops::Mul<Output = T>> vstd::std_specs::ops::MulSpecImpl<T> for Vector3<T> {
    open spec fn obeys_mul_spec() -> bool {
        T::obeys_mul_spec()
    }

    open spec fn mul_req(self, rhs: T) -> bool {
        self.scale_ok(rhs)
    }

    open spec fn mul_spec(self, rhs: T) -> Vector3<T> {
        Vector3 { x: self.x.mul_spec(rhs), y: self.y.mul_spec(rhs), z: self.z.mul_spec(rhs) }
    }
}

impl<T: Copy + core::ops::Mul<Output = T>> core::ops::MulAssign<T> for Vector3<T> {
    /// Multiplies each component of `self` by the scalar.
    fn mul_assign(&mut self, rhs: T)
        requires
            old(self).scale_ok(rhs),
        ensures
            old(self).is_scaled(rhs, *final(self)),
    {
        *self = *self * rhs;
    }
}

impl<T: Copy + core::ops::Div<Output = T>> core::ops::Div<T> for Vector3<T> {
    type Output = Vector3<T>;

    /// Divides each component by the scalar, with no guard against a zero
    /// divisor: what the component type does there is what happens.
    fn div(self, rhs: T) -> (r: Vector3<T>)
        ensures
            self.is_divided(rhs, r),
    {
        Vector3 { x: self.x / rhs, y: self.y / rhs, z: self.z / rhs }
    }
}

impl<T: Copy + core::ops::Div<Output = T>> vstd::std_specs::ops::DivSpecImpl<T> for Vector3<T> {
    open spec fn obeys_div_spec() -> bool {
        T::obeys_div_spec()
    }

    open spec fn div_req(self, rhs: T) -> bool {
        self.x.div_req(rhs) && self.y.div_req(rhs) && self.z.div_req(rhs)
    }

    open spec fn div_spec(self, rhs: T) -> Vector3<T> {
        Vector3 { x: self.x.div_spec(rhs), y: self.y.div_spec(rhs), z: self.z.div_spec(rhs) }
    }
}

impl<T: Copy + core::ops::Div<Output = T>> core::ops::DivAssign<T> for Vector3<T> {
    /// Divides each component of `self` by the scalar.
    fn div_assign(&mut self, rhs: T)
        requires
            old(self).div_req(rhs),
        ensures
            old(self).is_divided(rhs, *final(self)),
    {
        *self = *self / rhs;
    }
}

impl<T: Copy + core::ops::Neg<Output = T>> core::ops::Neg for Vector3<T> {
    type Output = Vector3<T>;

    /// Negates each component.
    fn neg(self) -> (r: Vector3<T>)
        ensures
            self.is_negated(r),
    {
        Vector3 { x: self.x.neg(), y: self.y.neg(), z: self.z.neg() }
    }
}

impl<T: Copy + core::ops::Neg<Output = T>> vstd::std_specs::ops::NegSpecImpl for Vector3<T> {
    open spec fn obeys_neg_spec() -> bool {
        T::obeys_neg_spec()
    }

    open spec fn neg_req(self) -> bool {
        self.x.neg_req() && self.y.neg_req() && self.z.neg_req()
    }

    open spec fn neg_spec(self) -> Vector3<T> {
        Vector3 { x: self.x.neg_spec(), y: self.y.neg_spec(), z: self.z.neg_spec() }
    }
}

impl<T: Copy> Vector3<T> {
    /// The components `x` and `y`.
    pub open spec fn spec_xy(self) -> Vector2<T> {
        Vector2 { x: self.x, y: self.y }
    }

    /// The components `x` and `z`.
    pub open spec fn spec_xz(self) -> Vector2<T> {
        Vector2 { x: self.x, y: self.z }
    }

    /// The components `y` and `z`.
    pub open spec fn spec_yz(self) -> Vector2<T> {
        Vector2 { x: self.y, y: self.z }
    }

    /// The vector with `x` and `y` from `xy`, and `z`.
    pub open spec fn spec_from_xy(xy: Vector2<T>, z: T) -> Vector3<T> {
        Vector3 { x: xy.x, y: xy.y, z }
    }

    /// The vector with `x` and `z` from `xz`, and `y`.
    pub open spec fn spec_from_xz(xz: Vector2<T>, y: T) -> Vector3<T> {
        Vector3 { x: xz.x, y, z: xz.y }
    }

    /// The vector with `y` and `z` from `yz`, and `x`.
    pub open spec fn spec_from_yz(yz: Vector2<T>, x: T) -> Vector3<T> {
        Vector3 { x, y: yz.x, z: yz.y }
    }

    /// Builds a vector from its components.
    pub fn from_xyz(x: T, y: T, z: T) -> (r: Vector3<T>)
        ensures
            r == (Vector3 { x, y, z }),
    {
        Vector3 { x, y, z }
    }

    /// Builds a vector whose components are all `value`.
    pub fn from_value(value: T) -> (r: Vector3<T>)
        ensures
            r == (Vector3 { x: value, y: value, z: value }),
    {
        Vector3 { x: value, y: value, z: value }
    }

    /// Builds a vector from `x` and `y` taken from `xy`, and `z`.
    pub fn from_xy(xy: Vector2<T>, z: T) -> (r: Vector3<T>)
        ensures
            r == Self::spec_from_xy(xy, z),
    {
        Vector3 { x: xy.x, y: xy.y, z }
    }

    /// Builds a vector from `x` and `z` taken from `xz`, and `y`.
    pub fn from_xz(xz: Vector2<T>, y: T) -> (r: Vector3<T>)
        ensures
            r == Self::spec_from_xz(xz, y),
    {
        Vector3 { x: xz.x, y, z: xz.y }
    }

    /// Builds a vector from `y` and `z` taken from `yz`, and `x`.
    pub fn from_yz(yz: Vector2<T>, x: T) -> (r: Vector3<T>)
        ensures
            r == Self::spec_from_yz(yz, x),
    {
        Vector3 { x, y: yz.x, z: yz.y }
    }

    /// The components `x` and `y`, in that order.
    pub fn xy(&self) -> (r: Vector2<T>)
        ensures
            r == self.spec_xy(),
    {
        Vector2 { x: self.x, y: self.y }
    }

    /// The components `x` and `z`, in that order.
    pub fn xz(&self) -> (r: Vector2<T>)
        ensures
            r == self.spec_xz(),
    {
        Vector2 { x: self.x, y: self.z }
    }

    /// The components `y` and `z`, in that order.
    pub fn yz(&self) -> (r: Vector2<T>)
        ensures
            r == self.spec_yz(),
    {
        Vector2 { x: self.y, y: self.z }
    }

    /// The components `y` and `x`, in that order.
    pub fn yx(&self) -> (r: Vector2<T>)
        ensures
            r == (Vector2 { x: self.y, y: self.x }),
    {
        Vector2 { x: self.y, y: self.x }
    }

    /// The components `z` and `x`, in that order.
    pub fn zx(&self) -> (r: Vector2<T>)
        ensures
            r == (Vector2 { x: self.z, y: self.x }),
    {
        Vector2 { x: self.z, y: self.x }
    }

    /// The components `z` and `y`, in that order.
    pub fn zy(&self) -> (r: Vector2<T>)
        ensures
            r == (Vector2 { x: self.z, y: self.y }),
    {
        Vector2 { x: self.z, y: self.y }
    }
}

impl<T: Copy + core::ops::Neg<Output = T>> Vector3<T> {
    /// The vector with `x` negated.
    pub fn flipped_x(&self) -> (r: Vector3<T>)
        requires
            self.x.neg_req(),
        ensures
            negation_of(self.x, r.x),
            r.y == self.y,
            r.z == self.z,
    {
        Vector3 { x: self.x.neg(), y: self.y, z: self.z }
    }

    /// The vector with `y` negated.
    pub fn flipped_y(&self) -> (r: Vector3<T>)
        requires
            self.y.neg_req(),
        ensures
            r.x == self.x,
            negation_of(self.y, r.y),
            r.z == self.z,
    {
        Vector3 { x: self.x, y: self.y.neg(), z: self.z }
    }

    /// The vector with `z` negated.
    pub fn flipped_z(&self) -> (r: Vector3<T>)
        requires
            self.z.neg_req(),
        ensures
            r.x == self.x,
            r.y == self.y,
            negation_of(self.z, r.z),
    {
        Vector3 { x: self.x, y: self.y, z: self.z.neg() }
    }

    /// The vector with `x` and `y` negated.
    pub fn flipped_xy(&self) -> (r: Vector3<T>)
        requires
            self.x.neg_req(),
            self.y.neg_req(),
        ensures
            negation_of(self.x, r.x),
            negation_of(self.y, r.y),
            r.z == self.z,
    {
        Vector3 { x: self.x.neg(), y: self.y.neg(), z: self.z }
    }

    /// The vector with `x` and `z` negated.
    pub fn flipped_xz(&self) -> (r: Vector3<T>)
        requires
            self.x.neg_req(),
            self.z.neg_req(),
        ensures
            negation_of(self.x, r.x),
            r.y == self.y,
            negation_of(self.z, r.z),
    {
        Vector3 { x: self.x.neg(), y: self.y, z: self.z.neg() }
    }

    /// The vector with `y` and `z` negated.
    pub fn flipped_yz(&self) -> (r: Vector3<T>)
        requires
            self.y.neg_req(),
            self.z.neg_req(),
        ensures
            r.x == self.x,
            negation_of(self.y, r.y),
            negation_of(self.z, r.z),
    {
        Vector3 { x: self.x, y: self.y.neg(), z: self.z.neg() }
    }
}

impl<T: Copy + core::ops::Mul<Output = T>> Vector3<T> {
    /// The component-wise (Hadamard) product.
    pub fn element_wise_product(&self, other: Vector3<T>) -> (r: Vector3<T>)
        requires
            self.x.mul_req(other.x),
            self.y.mul_req(other.y),
            self.z.mul_req(other.z),
        ensures
            self.is_element_wise_product(other, r),
    {
        Vector3 { x: self.x * other.x, y: self.y * other.y, z: self.z * other.z }
    }
}

impl<T: Copy + core::ops::Add<Output = T> + core::ops::Mul<Output = T>> Vector3<T> {
    /// `d` is `x1 * x2 + y1 * y2 + z1 * z2` on the component type, summed
    /// from the left.
    pub open spec fn is_dot(self, other: Vector3<T>, d: T) -> bool {
        exists|p: T, q: T, s: T, t: T|
            #![trigger product_of(self.x, other.x, p), product_of(self.y, other.y, q), product_of(self.z, other.z, s), sum_of(p, q, t)]
            product_of(self.x, other.x, p) && product_of(self.y, other.y, q) && product_of(
                self.z,
                other.z,
                s,
            ) && sum_of(p, q, t) && sum_of(t, s, d)
    }

    /// Every step of the dot product of `self` and `other` may be taken.
    pub open spec fn dot_ok(self, other: Vector3<T>) -> bool {
        &&& self.x.mul_req(other.x)
        &&& self.y.mul_req(other.y)
        &&& self.z.mul_req(other.z)
        &&& forall|p: T, q: T|
            #![trigger product_of(self.x, other.x, p), product_of(self.y, other.y, q)]
            product_of(self.x, other.x, p) && product_of(self.y, other.y, q) ==> p.add_req(q)
        &&& forall|p: T, q: T, s: T, t: T|
            #![trigger product_of(self.x, other.x, p), product_of(self.y, other.y, q), product_of(self.z, other.z, s), sum_of(p, q, t)]
            product_of(self.x, other.x, p) && product_of(self.y, other.y, q) && product_of(
                self.z,
                other.z,
                s,
            ) && sum_of(p, q, t) ==> t.add_req(s)
    }

    /// The dot product `x1 * x2 + y1 * y2 + z1 * z2`.
    pub fn dot(&self, other: Vector3<T>) -> (r: T)
        requires
            self.dot_ok(other),
        ensures
            self.is_dot(other, r),
    {
        let p = self.x * other.x;
        let q = self.y * other.y;
        let s = self.z * other.z;
        assert(product_of(self.x, other.x, p) && product_of(self.y, other.y, q));
        assert(product_of(self.z, other.z, s));
        let t = p + q;
        assert(sum_of(p, q, t));
        let d = t + s;
        assert(sum_of(t, s, d));
        d
    }

    /// The squared length `x * x + y * y + z * z`.
    pub fn len_squared(&self) -> (r: T)
        requires
            self.dot_ok(*self),
        ensures
            self.is_dot(*self, r),
    {
        self.dot(*self)
    }
}

impl<T> Vector3<T> where
    T: Copy + core::ops::Add<Output = T> + core::ops::Sub<Output = T> + core::ops::Mul<
        Output = T,
    > + core::ops::Div<Output = T>,
 {
    /// `r` is `onto * (onto.dot(self) / onto.len_squared())` on the component
    /// type: the projection of `self` onto `onto`.
    pub open spec fn is_projection_onto(self, onto: Vector3<T>, r: Vector3<T>) -> bool {
        exists|d: T, l: T, k: T|
            #![trigger onto.is_dot(self, d), onto.is_dot(onto, l), quotient_of(d, l, k)]
            onto.is_dot(self, d) && onto.is_dot(onto, l) && quotient_of(d, l, k) && onto.is_scaled(
                k,
                r,
            )
    }

    /// Every step of the projection of `self` onto `onto` may be taken.
    pub open spec fn projection_ok(self, onto: Vector3<T>) -> bool {
        &&& onto.dot_ok(self)
        &&& onto.dot_ok(onto)
        &&& forall|d: T, l: T|
            #![trigger onto.is_dot(self, d), onto.is_dot(onto, l)]
            onto.is_dot(self, d) && onto.is_dot(onto, l) ==> d.div_req(l)
        &&& forall|d: T, l: T, k: T|
            #![trigger onto.is_dot(self, d), onto.is_dot(onto, l), quotient_of(d, l, k)]
            onto.is_dot(self, d) && onto.is_dot(onto, l) && quotient_of(d, l, k) ==> onto.scale_ok(
                k,
            )
    }

    /// `r` is `self` minus its projection onto `from`: the part of `self`
    /// orthogonal to `from`.
    pub open spec fn is_rejection_from(self, from: Vector3<T>, r: Vector3<T>) -> bool {
        exists|p: Vector3<T>|
            #![trigger self.is_projection_onto(from, p)]
            self.is_projection_onto(from, p) && self.is_difference(p, r)
    }

    /// Every step of the rejection of `self` from `from` may be taken.
    pub open spec fn rejection_ok(self, from: Vector3<T>) -> bool {
        &&& self.projection_ok(from)
        &&& forall|p: Vector3<T>|
            #![trigger self.is_projection_onto(from, p)]
            self.is_projection_onto(from, p) ==> self.sub_ok(p)
    }

    /// The projection of `self` onto `other`:
    /// `other * (other.dot(self) / other.len_squared())`. A zero `other`
    /// is not guarded against.
    pub fn projected_onto(&self, other: Vector3<T>) -> (r: Vector3<T>)
        requires
            self.projection_ok(other),
        ensures
            self.is_projection_onto(other, r),
    {
        let d = other.dot(*self);
        let l = other.len_squared();
        assert(other.is_dot(*self, d) && other.is_dot(other, l));
        let k = d / l;
        assert(quotient_of(d, l, k));
        let r = other * k;
        assert(other.is_scaled(k, r));
        r
    }

    /// The projection of `other` onto `self`.
    pub fn projection_of(&self, other: Vector3<T>) -> (r: Vector3<T>)
        requires
            other.projection_ok(*self),
        ensures
            other.is_projection_onto(*self, r),
    {
        other.projected_onto(*self)
    }

    /// The part of `self` orthogonal to `other`: `self - self.projected_onto(other)`.
    pub fn rejection_from(&self, other: Vector3<T>) -> (r: Vector3<T>)
        requires
            self.rejection_ok(other),
        ensures
            self.is_rejection_from(other, r),
    {
        let p = self.projected_onto(other);
        *self - p
    }

    /// The part of `other` orthogonal to `self`.
    pub fn rejection_of(&self, other: Vector3<T>) -> (r: Vector3<T>)
        requires
            other.rejection_ok(*self),
        ensures
            other.is_rejection_from(*self, r),
    {
        other.rejection_from(*self)
    }
}

/// `r` is `a * b - c * d` on the component type.
pub open spec fn is_cross_term<T>(a: T, b: T, c: T, d: T, r: T) -> bool where
    T: core::ops::Sub<Output = T> + core::ops::Mul<Output = T>,
 {
    exists|p: T, q: T|
        #![trigger product_of(a, b, p), product_of(c, d, q)]
        product_of(a, b, p) && product_of(c, d, q) && difference_of(p, q, r)
}

/// Every step of `a * b - c * d` may be taken on the component type.
pub open spec fn cross_term_ok<T>(a: T, b: T, c: T, d: T) -> bool where
    T: core::ops::Sub<Output = T> + core::ops::Mul<Output = T>,
 {
    &&& a.mul_req(b)
    &&& c.mul_req(d)
    &&& forall|p: T, q: T|
        #![trigger product_of(a, b, p), product_of(c, d, q)]
        product_of(a, b, p) && product_of(c, d, q) ==> p.sub_req(q)
}

/// `a * b - c * d`.
fn cross_term<T>(a: T, b: T, c: T, d: T) -> (r: T) where
    T: Copy + core::ops::Sub<Output = T> + core::ops::Mul<Output = T>,

    requires
        cross_term_ok(a, b, c, d),
    ensures
        is_cross_term(a, b, c, d, r),
{
    let p = a * b;
    let q = c * d;
    assert(product_of(a, b, p) && product_of(c, d, q));
    let r = p - q;
    assert(difference_of(p, q, r));
    r
}

impl<T: Copy + core::ops::Sub<Output = T> + core::ops::Mul<Output = T>> Vector3<T> {
    /// `r` is the right-handed cross product of `self` and `other`:
    /// `(y1 z2 - z1 y2, z1 x2 - x1 z2, x1 y2 - y1 x2)` on the component type.
    pub open spec fn is_cross(self, other: Vector3<T>, r: Vector3<T>) -> bool {
        &&& is_cross_term(self.y, other.z, self.z, other.y, r.x)
        &&& is_cross_term(self.z, other.x, self.x, other.z, r.y)
        &&& is_cross_term(self.x, other.y, self.y, other.x, r.z)
    }

    /// Every step of the cross product of `self` and `other` may be taken.
    pub open spec fn cross_ok(self, other: Vector3<T>) -> bool {
        &&& cross_term_ok(self.y, other.z, self.z, other.y)
        &&& cross_term_ok(self.z, other.x, self.x, other.z)
        &&& cross_term_ok(self.x, other.y, self.y, other.x)
    }

    /// The right-handed cross product:
    /// `(y1 z2 - z1 y2, z1 x2 - x1 z2, x1 y2 - y1 x2)`.
    pub fn cross(&self, other: Vector3<T>) -> (r: Vector3<T>)
        requires
            self.cross_ok(other),
        ensures
            self.is_cross(other, r),
    {
        Vector3 {
            x: cross_term(self.y, other.z, self.z, other.y),
            y: cross_term(self.z, other.x, self.x, other.z),
            z: cross_term(self.x, other.y, self.y, other.x),
        }
    }
}

impl<T> Vector3<T> where
    T: Copy + core::ops::Add<Output = T> + core::ops::Sub<Output = T> + core::ops::Mul<
        Output = T,
    > + core::ops::Neg<Output = T> + PartialOrd + Default,
 {
    /// `r` is the cross product `c` of `self` and `other`, negated exactly
    /// when `direction.dot(c) < 0` on the component type.
    pub open spec fn is_cross_in_direction_of(
        self,
        other: Vector3<T>,
        direction: Vector3<T>,
        r: Vector3<T>,
    ) -> bool {
        exists|c: Vector3<T>, d: T, z: T, below: bool|
            #![trigger self.is_cross(other, c), direction.is_dot(c, d), less_than(d, z, below)]
            self.is_cross(other, c) && direction.is_dot(c, d) && zero_of(z) && less_than(
                d,
                z,
                below,
            ) && (if below {
                c.is_negated(r)
            } else {
                r == c
            })
    }

    /// Every step of `cross_in_direction_of` may be taken.
    pub open spec fn cross_in_direction_ok(self, other: Vector3<T>, direction: Vector3<T>) -> bool {
        &&& self.cross_ok(other)
        &&& forall|c: Vector3<T>|
            #![trigger self.is_cross(other, c)]
            self.is_cross(other, c) ==> direction.dot_ok(c) && c.neg_req()
    }

    /// The cross product of `self` and `other`, negated where needed so that
    /// it does not point away from `direction`: it is negated exactly when
    /// `direction.dot(cross) < 0`, and a zero dot product keeps it as it is.
    pub fn cross_in_direction_of(&self, other: Vector3<T>, direction: Vector3<T>) -> (r: Vector3<
        T,
    >)
        requires
            self.cross_in_direction_ok(other, direction),
        ensures
            self.is_cross_in_direction_of(other, direction, r),
    {
        let c = self.cross(other);
        let d = direction.dot(c);
        let z = T::default();
        assert(zero_of(z));
        let below = d < z;
        assert(less_than(d, z, below));
        if below {
            c.neg()
        } else {
            c
        }
    }
}

impl<T> Vector3<T> where
    T: Copy + core::ops::Add<Output = T> + core::ops::Mul<Output = T> + core::ops::Div<
        Output = T,
    > + PartialEq + Default,
 {
    /// `r` is `None` exactly when `len_squared() == 0` on the component type,
    /// and otherwise `Some` of the vector divided by `length`.
    pub open spec fn is_normalized_by(self, length: T, r: Option<Vector3<T>>) -> bool {
        exists|l: T, z: T, degenerate: bool|
            #![trigger self.is_dot(self, l), zero_of(z), equal_to(l, z, degenerate)]
            self.is_dot(self, l) && zero_of(z) && equal_to(l, z, degenerate) && (if degenerate {
                r is None
            } else {
                r is Some && self.is_divided(length, r->Some_0)
            })
    }

    /// Every step of `normalized(length)` may be taken: the squared length
    /// may be computed, and the vector divided by `length` wherever the
    /// squared length is not zero.
    pub open spec fn normalize_ok(self, length: T) -> bool {
        &&& self.dot_ok(self)
        &&& forall|l: T, z: T|
            #![trigger self.is_dot(self, l), zero_of(z), equal_to(l, z, false)]
            self.is_dot(self, l) && zero_of(z) && equal_to(l, z, false) ==> self.div_req(length)
    }

    /// The vector divided by `length`, its Euclidean length as the caller
    /// computed it; `None` exactly when `len_squared()` equals zero, so that a
    /// zero vector is never divided.
    pub fn normalized(&self, length: T) -> (r: Option<Vector3<T>>)
        requires
            self.normalize_ok(length),
        ensures
            self.is_normalized_by(length, r),
    {
        let l = self.len_squared();
        let z = T::default();
        assert(zero_of(z));
        let degenerate = l == z;
        assert(equal_to(l, z, degenerate));
        assert(self.is_dot(*self, l));
        if degenerate {
            None
        } else {
            let u = *self / length;
            assert(self.is_divided(length, u));
            Some(u)
        }
    }

    /// As `normalized`, with the zero vector in place of `None`.
    pub fn normalized_or_zero(&self, length: T) -> (r: Vector3<T>)
        requires
            self.normalize_ok(length),
        ensures
            exists|n: Option<Vector3<T>>|
                #![trigger self.is_normalized_by(length, n)]
                self.is_normalized_by(length, n) && (if n is Some {
                    r == n->Some_0
                } else {
                    zero_of(r.x) && zero_of(r.y) && zero_of(r.z)
                }),
    {
        match self.normalized(length) {
            Some(u) => u,
            None => Vector3::default(),
        }
    }
}

impl<T> Vector3<T> where
    T: Copy + core::ops::Add<Output = T> + core::ops::Mul<Output = T> + PartialOrd,
 {
    /// `r` is what `len_squared() <= epsilon * epsilon` gives on the
    /// component type.
    pub open spec fn is_almost_zero_within(self, epsilon: T, r: bool) -> bool {
        exists|l: T, e: T|
            #![trigger self.is_dot(self, l), product_of(epsilon, epsilon, e)]
            self.is_dot(self, l) && product_of(epsilon, epsilon, e) && at_most(l, e, r)
    }

    /// Whether the squared length is at most `epsilon * epsilon`, with
    /// `epsilon` the tolerance of the component type (its machine epsilon for
    /// floating point).
    pub fn is_almost_zero(&self, epsilon: T) -> (r: bool)
        requires
            self.dot_ok(*self),
            epsilon.mul_req(epsilon),
        ensures
            self.is_almost_zero_within(epsilon, r),
    {
        let l = self.len_squared();
        let e = epsilon * epsilon;
        assert(product_of(epsilon, epsilon, e));
        let r = l <= e;
        assert(at_most(l, e, r));
        r
    }
}

impl<T> Vector3<T> where
    T: Copy + core::ops::Add<Output = T> + core::ops::Sub<Output = T> + core::ops::Mul<Output = T>,
 {
    /// The vector rotated about the `x` axis by the angle whose cosine is
    /// `cos` and whose sine is `sin`: `x` is kept, and the pair `yz` is
    /// rotated as a two-component vector.
    pub fn rotated_around_x_by(&self, cos: T, sin: T) -> (r: Vector3<T>)
        requires
            self.spec_yz().rotation_ok(cos, sin),
        ensures
            r.x == self.x,
            self.spec_yz().is_rotated_by(cos, sin, r.spec_yz()),
    {
        Vector3::from_yz(self.yz().rotated_by(cos, sin), self.x)
    }

    /// The vector rotated about the `y` axis by the angle whose cosine is
    /// `cos` and whose sine is `sin`: `y` is kept, and the pair `xz` is
    /// rotated as a two-component vector.
    pub fn rotated_around_y_by(&self, cos: T, sin: T) -> (r: Vector3<T>)
        requires
            self.spec_xz().rotation_ok(cos, sin),
        ensures
            r.y == self.y,
            self.spec_xz().is_rotated_by(cos, sin, r.spec_xz()),
    {
        Vector3::from_xz(self.xz().rotated_by(cos, sin), self.y)
    }

    /// The vector rotated about the `z` axis by the angle whose cosine is
    /// `cos` and whose sine is `sin`: `z` is kept, and the pair `xy` is
    /// rotated as a two-component vector.
    pub fn rotated_around_z_by(&self, cos: T, sin: T) -> (r: Vector3<T>)
        requires
            self.spec_xy().rotation_ok(cos, sin),
        ensures
            r.z == self.z,
            self.spec_xy().is_rotated_by(cos, sin, r.spec_xy()),
    {
        Vector3::from_xy(self.xy().rotated_by(cos, sin), self.z)
    }
}

impl<T> Vector3<T> where
    T: Copy + core::ops::Add<Output = T> + core::ops::Mul<Output = T> + core::ops::Div<Output = T>,
 {
    /// `r` is `self.dot(other) / self_len / other_len` on the component type.
    pub open spec fn is_cos_between(self, other: Vector3<T>, self_len: T, other_len: T, r: T) -> bool {
        exists|d: T, q: T|
            #![trigger self.is_dot(other, d), quotient_of(d, self_len, q)]
            self.is_dot(other, d) && quotient_of(d, self_len, q) && quotient_of(q, other_len, r)
    }

    /// Every step of `cos_between` may be taken.
    pub open spec fn cos_between_ok(self, other: Vector3<T>, self_len: T, other_len: T) -> bool {
        &&& self.dot_ok(other)
        &&& forall|d: T| #[trigger] self.is_dot(other, d) ==> d.div_req(self_len)
        &&& forall|d: T, q: T|
            #![trigger self.is_dot(other, d), quotient_of(d, self_len, q)]
            self.is_dot(other, d) && quotient_of(d, self_len, q) ==> q.div_req(other_len)
    }

    /// The cosine of the angle between the vectors,
    /// `self.dot(other) / self_len / other_len`, where `self_len` and
    /// `other_len` are the two lengths as the caller computed them. A zero
    /// length is not guarded against.
    pub fn cos_between(&self, other: Vector3<T>, self_len: T, other_len: T) -> (r: T)
        requires
            self.cos_between_ok(other, self_len, other_len),
        ensures
            self.is_cos_between(other, self_len, other_len, r),
    {
        let d = self.dot(other);
        let q = d / self_len;
        assert(quotient_of(d, self_len, q));
        let r = q / other_len;
        assert(quotient_of(q, other_len, r));
        r
    }
}

impl<T> Vector3<T> where
    T: Copy + core::ops::Add<Output = T> + core::ops::Sub<Output = T> + core::ops::Mul<
        Output = T,
    > + PartialOrd,
 {
    /// Whether `self - other` is almost zero within `epsilon`.
    pub fn is_almost_equal_to(&self, other: Vector3<T>, epsilon: T) -> (r: bool)
        requires
            self.sub_ok(other),
            forall|d: Vector3<T>| #[trigger] self.is_difference(other, d) ==> d.dot_ok(d),
            epsilon.mul_req(epsilon),
        ensures
            exists|d: Vector3<T>|
                #![trigger self.is_difference(other, d)]
                self.is_difference(other, d) && d.is_almost_zero_within(epsilon, r),
    {
        let d = *self - other;
        d.is_almost_zero(epsilon)
    }
}

impl<T: Copy + PartialOrd> Vector3<T> {
    /// Whether `min <= x <= max`.
    pub fn is_x_inside_interval(&self, min: T, max: T) -> (r: bool)
        ensures
            r ==> at_most(min, self.x, true) && at_most(self.x, max, true),
            !r ==> at_most(min, self.x, false) || at_most(self.x, max, false),
    {
        min <= self.x && self.x <= max
    }

    /// Whether `min <= y <= max`.
    pub fn is_y_inside_interval(&self, min: T, max: T) -> (r: bool)
        ensures
            r ==> at_most(min, self.y, true) && at_most(self.y, max, true),
            !r ==> at_most(min, self.y, false) || at_most(self.y, max, false),
    {
        min <= self.y && self.y <= max
    }

    /// Whether `min <= z <= max`.
    pub fn is_z_inside_interval(&self, min: T, max: T) -> (r: bool)
        ensures
            r ==> at_most(min, self.z, true) && at_most(self.z, max, true),
            !r ==> at_most(min, self.z, false) || at_most(self.z, max, false),
    {
        min <= self.z && self.z <= max
    }
}

impl<T: Default> Default for Vector3<T> {
    /// The zero vector.
    fn default() -> (r: Vector3<T>)
        ensures
            zero_of(r.x),
            zero_of(r.y),
            zero_of(r.z),
    {
        Vector3 { x: T::default(), y: T::default(), z: T::default() }
    }
}

} // verus!
