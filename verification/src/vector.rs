//! Vectors of three scalars and their algebra.

use vstd::prelude::*;
use crate::scalar::{is_deterministic, is_difference, is_product, is_quotient, is_sum, Scalar};

verus! {

/// A vector of three coordinates.
#[derive(Clone, Copy, Debug, PartialEq)]
pub struct Vec3f<T> {
    pub x: T,
    pub y: T,
    pub z: T,
}

/// `r` is a sum of `a` and `b`, coordinate by coordinate.
pub open spec fn is_vector_sum<T: Scalar>(a: Vec3f<T>, b: Vec3f<T>, r: Vec3f<T>) -> bool {
    &&& is_sum(a.x, b.x, r.x)
    &&& is_sum(a.y, b.y, r.y)
    &&& is_sum(a.z, b.z, r.z)
}

/// `r` is a difference of `a` and `b`, coordinate by coordinate.
pub open spec fn is_vector_difference<T: Scalar>(a: Vec3f<T>, b: Vec3f<T>, r: Vec3f<T>) -> bool {
    &&& is_difference(a.x, b.x, r.x)
    &&& is_difference(a.y, b.y, r.y)
    &&& is_difference(a.z, b.z, r.z)
}

/// `r` is `v` with each coordinate multiplied by `k`.
pub open spec fn is_scaled<T: Scalar>(v: Vec3f<T>, k: T, r: Vec3f<T>) -> bool {
    &&& is_product(v.x, k, r.x)
    &&& is_product(v.y, k, r.y)
    &&& is_product(v.z, k, r.z)
}

/// `r` is `v` with each coordinate divided by `k`.
pub open spec fn is_divided<T: Scalar>(v: Vec3f<T>, k: T, r: Vec3f<T>) -> bool {
    &&& is_quotient(v.x, k, r.x)
    &&& is_quotient(v.y, k, r.y)
    &&& is_quotient(v.z, k, r.z)
}

/// `r` is `(a.x * b.x + a.y * b.y) + a.z * b.z`.
pub open spec fn is_dot<T: Scalar>(a: Vec3f<T>, b: Vec3f<T>, r: T) -> bool {
    exists|px: T, py: T, pz: T, s: T|
        #![trigger is_product(a.x, b.x, px), is_product(a.y, b.y, py), is_product(a.z, b.z, pz), is_sum(px, py, s)]
        is_product(a.x, b.x, px) && is_product(a.y, b.y, py) && is_product(a.z, b.z, pz) && is_sum(
            px,
            py,
            s,
        ) && is_sum(s, pz, r)
}

/// `r` is `a * b - c * d`.
pub open spec fn is_minor<T: Scalar>(a: T, b: T, c: T, d: T, r: T) -> bool {
    exists|p: T, q: T|
        #![trigger is_product(a, b, p), is_product(c, d, q)]
        is_product(a, b, p) && is_product(c, d, q) && is_difference(p, q, r)
}

/// `r` is the cross product of `a` and `b`.
pub open spec fn is_cross<T: Scalar>(a: Vec3f<T>, b: Vec3f<T>, r: Vec3f<T>) -> bool {
    &&& is_minor(a.y, b.z, a.z, b.y, r.x)
    &&& is_minor(a.z, b.x, a.x, b.z, r.y)
    &&& is_minor(a.x, b.y, a.y, b.x, r.z)
}

/// `a * b - c * d`.
fn minor<T: Scalar>(a: T, b: T, c: T, d: T) -> (r: T)
    ensures
        is_minor(a, b, c, d, r),
{
    let p = a.times(b);
    let q = c.times(d);
    let r = p.minus(q);
    assert(is_product(a, b, p) && is_product(c, d, q) && is_difference(p, q, r));
    r
}

impl<T> Vec3f<T> {
    /// The vector with the given coordinates.
    pub fn new(x: T, y: T, z: T) -> (v: Self)
        ensures
            v == (Vec3f { x, y, z }),
    {
        Vec3f { x, y, z }
    }
}

impl<T: Copy> Vec3f<T> {
    /// The first coordinate.
    pub fn x(&self) -> (c: T)
        ensures
            c == self.x,
    {
        self.x
    }

    /// The second coordinate.
    pub fn y(&self) -> (c: T)
        ensures
            c == self.y,
    {
        self.y
    }

    /// The third coordinate.
    pub fn z(&self) -> (c: T)
        ensures
            c == self.z,
    {
        self.z
    }
}

impl<T: Scalar> Vec3f<T> {
    /// The sum of two vectors.
    pub fn add(self, rhs: Self) -> (r: Self)
        ensures
            is_vector_sum(self, rhs, r),
    {
        Vec3f { x: self.x.plus(rhs.x), y: self.y.plus(rhs.y), z: self.z.plus(rhs.z) }
    }

    /// The difference of two vectors.
    pub fn sub(self, rhs: Self) -> (r: Self)
        ensures
            is_vector_difference(self, rhs, r),
    {
        Vec3f { x: self.x.minus(rhs.x), y: self.y.minus(rhs.y), z: self.z.minus(rhs.z) }
    }

    /// The vector scaled by `rhs`.
    pub fn mul(self, rhs: T) -> (r: Self)
        ensures
            is_scaled(self, rhs, r),
    {
        Vec3f { x: self.x.times(rhs), y: self.y.times(rhs), z: self.z.times(rhs) }
    }

    /// The vector divided by `rhs`.
    pub fn div(self, rhs: T) -> (r: Self)
        ensures
            is_divided(self, rhs, r),
    {
        Vec3f { x: self.x.over(rhs), y: self.y.over(rhs), z: self.z.over(rhs) }
    }

    /// The dot product of two vectors.
    pub fn dot(self, rhs: Self) -> (r: T)
        ensures
            is_dot(self, rhs, r),
    {
        let px = self.x.times(rhs.x);
        let py = self.y.times(rhs.y);
        let pz = self.z.times(rhs.z);
        let s = px.plus(py);
        let r = s.plus(pz);
        assert(is_product(self.x, rhs.x, px) && is_product(self.y, rhs.y, py) && is_product(
            self.z,
            rhs.z,
            pz,
        ) && is_sum(px, py, s) && is_sum(s, pz, r));
        r
    }

    /// The cross product of two vectors.
    pub fn cross(self, rhs: Self) -> (r: Self)
        ensures
            is_cross(self, rhs, r),
    {
        Vec3f {
            x: minor(self.y, rhs.z, self.z, rhs.y),
            y: minor(self.z, rhs.x, self.x, rhs.z),
            z: minor(self.x, rhs.y, self.y, rhs.x),
        }
    }
}

/// With deterministic scalars a minor has one value.
proof fn minor_is_unique<T: Scalar>(a: T, b: T, c: T, d: T, r: T, s: T)
    requires
        is_deterministic::<T>(),
        is_minor(a, b, c, d, r),
        is_minor(a, b, c, d, s),
    ensures
        r == s,
{
}

/// With deterministic scalars two vectors have one cross product.
pub proof fn cross_is_unique<T: Scalar>(a: Vec3f<T>, b: Vec3f<T>, r: Vec3f<T>, s: Vec3f<T>)
    requires
        is_deterministic::<T>(),
        is_cross(a, b, r),
        is_cross(a, b, s),
    ensures
        r == s,
{
    minor_is_unique(a.y, b.z, a.z, b.y, r.x, s.x);
    minor_is_unique(a.z, b.x, a.x, b.z, r.y, s.y);
    minor_is_unique(a.x, b.y, a.y, b.x, r.z, s.z);
}

/// With deterministic scalars two vectors have one dot product.
pub proof fn dot_is_unique<T: Scalar>(a: Vec3f<T>, b: Vec3f<T>, r: T, s: T)
    requires
        is_deterministic::<T>(),
        is_dot(a, b, r),
        is_dot(a, b, s),
    ensures
        r == s,
{
}

/// With deterministic scalars two vectors have one difference.
pub proof fn vector_difference_is_unique<T: Scalar>(
    a: Vec3f<T>,
    b: Vec3f<T>,
    r: Vec3f<T>,
    s: Vec3f<T>,
)
    requires
        is_deterministic::<T>(),
        is_vector_difference(a, b, r),
        is_vector_difference(a, b, s),
    ensures
        r == s,
{
}

/// With deterministic scalars a vector scaled by a factor has one value.
pub proof fn scaled_is_unique<T: Scalar>(v: Vec3f<T>, k: T, r: Vec3f<T>, s: Vec3f<T>)
    requires
        is_deterministic::<T>(),
        is_scaled(v, k, r),
        is_scaled(v, k, s),
    ensures
        r == s,
{
}

} // verus!
