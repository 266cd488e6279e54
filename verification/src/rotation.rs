//! The rotation of the camera: a matrix composed from Euler angles.

use vstd::prelude::*;
use crate::scalar::{
    is_cosine,
    is_deterministic,
    is_difference,
    is_negation,
    is_product,
    is_radians,
    is_sine,
    is_sum,
    Scalar,
};
use crate::vector::{dot_is_unique, is_dot, Vec3f};

verus! {

/// A three by three matrix, row after row: `aa ab ac`, `ba bb bc`,
/// `ca cb cc`.
pub struct RotationMatrix<T> {
    aa: T,
    ab: T,
    ac: T,
    ba: T,
    bb: T,
    bc: T,
    ca: T,
    cb: T,
    cc: T,
}

/// `sin` and `cos` are the sine and the cosine of the negated angle
/// `degrees`, taken in radians. The negation turns the world opposite to
/// the camera.
pub open spec fn is_turn<T: Scalar>(degrees: T, sin: T, cos: T) -> bool {
    exists|radians: T, negated: T|
        #![trigger is_radians(degrees, radians), is_negation(radians, negated)]
        is_radians(degrees, radians) && is_negation(radians, negated) && is_sine(negated, sin)
            && is_cosine(negated, cos)
}

/// `r` is `(a * b) * c`.
pub open spec fn is_product3<T: Scalar>(a: T, b: T, c: T, r: T) -> bool {
    exists|p: T| #[trigger] is_product(a, b, p) && is_product(p, c, r)
}

/// `r` is `(a * b) * c - d * e`.
pub open spec fn is_product3_minus<T: Scalar>(a: T, b: T, c: T, d: T, e: T, r: T) -> bool {
    exists|t: T, u: T|
        #![trigger is_product3(a, b, c, t), is_product(d, e, u)]
        is_product3(a, b, c, t) && is_product(d, e, u) && is_difference(t, u, r)
}

/// `r` is `(a * b) * c + d * e`.
pub open spec fn is_product3_plus<T: Scalar>(a: T, b: T, c: T, d: T, e: T, r: T) -> bool {
    exists|t: T, u: T|
        #![trigger is_product3(a, b, c, t), is_product(d, e, u)]
        is_product3(a, b, c, t) && is_product(d, e, u) && is_sum(t, u, r)
}

/// The sine and the cosine of a negated angle given in degrees.
fn turn<T: Scalar>(degrees: T) -> (sc: (T, T))
    ensures
        is_turn(degrees, sc.0, sc.1),
{
    let radians = degrees.to_radians();
    let negated = radians.negated();
    let sin = negated.sin();
    let cos = negated.cos();
    assert(is_radians(degrees, radians) && is_negation(radians, negated));
    (sin, cos)
}

/// `(a * b) * c`.
fn product3<T: Scalar>(a: T, b: T, c: T) -> (r: T)
    ensures
        is_product3(a, b, c, r),
{
    let p = a.times(b);
    let r = p.times(c);
    assert(is_product(a, b, p) && is_product(p, c, r));
    r
}

/// `(a * b) * c - d * e`.
fn product3_minus<T: Scalar>(a: T, b: T, c: T, d: T, e: T) -> (r: T)
    ensures
        is_product3_minus(a, b, c, d, e, r),
{
    let t = product3(a, b, c);
    let u = d.times(e);
    let r = t.minus(u);
    assert(is_product3(a, b, c, t) && is_product(d, e, u) && is_difference(t, u, r));
    r
}

/// `(a * b) * c + d * e`.
fn product3_plus<T: Scalar>(a: T, b: T, c: T, d: T, e: T) -> (r: T)
    ensures
        is_product3_plus(a, b, c, d, e, r),
{
    let t = product3(a, b, c);
    let u = d.times(e);
    let r = t.plus(u);
    assert(is_product3(a, b, c, t) && is_product(d, e, u) && is_sum(t, u, r));
    r
}

impl<T: Scalar> RotationMatrix<T> {
    /// The first row as a vector.
    pub closed spec fn row_a(self) -> Vec3f<T> {
        Vec3f { x: self.aa, y: self.ab, z: self.ac }
    }

    /// The second row as a vector.
    pub closed spec fn row_b(self) -> Vec3f<T> {
        Vec3f { x: self.ba, y: self.bb, z: self.bc }
    }

    /// The third row as a vector.
    pub closed spec fn row_c(self) -> Vec3f<T> {
        Vec3f { x: self.ca, y: self.cb, z: self.cc }
    }

    /// The matrix is composed from the sines and cosines of the three
    /// negated angles as
    ///
    /// ```text
    /// yc*zc   xs*ys*zc - zs*xc   ys*xc*zc + xs*zs
    /// zs*yc   xs*ys*zs + xc*zc   ys*zs*xc - xs*zc
    /// -ys     xs*yc              xc*yc
    /// ```
    pub open spec fn is_composed(self, xs: T, xc: T, ys: T, yc: T, zs: T, zc: T) -> bool {
        &&& is_product(yc, zc, self.row_a().x)
        &&& is_product3_minus(xs, ys, zc, zs, xc, self.row_a().y)
        &&& is_product3_plus(ys, xc, zc, xs, zs, self.row_a().z)
        &&& is_product(zs, yc, self.row_b().x)
        &&& is_product3_plus(xs, ys, zs, xc, zc, self.row_b().y)
        &&& is_product3_minus(ys, zs, xc, xs, zc, self.row_b().z)
        &&& is_negation(ys, self.row_c().x)
        &&& is_product(xs, yc, self.row_c().y)
        &&& is_product(xc, yc, self.row_c().z)
    }

    /// The matrix is the rotation for the pitch, roll, yaw triple `angle`,
    /// given in degrees.
    pub open spec fn is_rotation_for(self, angle: Vec3f<T>) -> bool {
        exists|xs: T, xc: T, ys: T, yc: T, zs: T, zc: T|
            #![trigger is_turn(angle.x, xs, xc), is_turn(angle.y, ys, yc), is_turn(angle.z, zs, zc)]
            is_turn(angle.x, xs, xc) && is_turn(angle.y, ys, yc) && is_turn(angle.z, zs, zc)
                && self.is_composed(xs, xc, ys, yc, zs, zc)
    }

    /// `r` is the matrix applied to `v`: each coordinate the dot product of
    /// a row with `v`.
    pub open spec fn is_rotated(self, v: Vec3f<T>, r: Vec3f<T>) -> bool {
        &&& is_dot(self.row_a(), v, r.x)
        &&& is_dot(self.row_b(), v, r.y)
        &&& is_dot(self.row_c(), v, r.z)
    }

    /// Builds the rotation for a pitch, roll, yaw triple in degrees.
    pub fn from_euler(angle: Vec3f<T>) -> (m: Self)
        ensures
            m.is_rotation_for(angle),
    {
        let (xsin, xcos) = turn(angle.x);
        let (ysin, ycos) = turn(angle.y);
        let (zsin, zcos) = turn(angle.z);

        RotationMatrix {
            aa: ycos.times(zcos),
            ab: product3_minus(xsin, ysin, zcos, zsin, xcos),
            ac: product3_plus(ysin, xcos, zcos, xsin, zsin),
            ba: zsin.times(ycos),
            bb: product3_plus(xsin, ysin, zsin, xcos, zcos),
            bc: product3_minus(ysin, zsin, xcos, xsin, zcos),
            ca: ysin.negated(),
            cb: xsin.times(ycos),
            cc: xcos.times(ycos),
        }
    }

    /// Applies the rotation to a vector.
    pub fn rotate_vector(&self, v: Vec3f<T>) -> (r: Vec3f<T>)
        ensures
            self.is_rotated(v, r),
    {
        Vec3f {
            x: Vec3f { x: self.aa, y: self.ab, z: self.ac }.dot(v),
            y: Vec3f { x: self.ba, y: self.bb, z: self.bc }.dot(v),
            z: Vec3f { x: self.ca, y: self.cb, z: self.cc }.dot(v),
        }
    }
}

/// With deterministic scalars an angle has one sine and cosine pair.
proof fn turn_is_unique<T: Scalar>(degrees: T, s1: T, c1: T, s2: T, c2: T)
    requires
        is_deterministic::<T>(),
        is_turn(degrees, s1, c1),
        is_turn(degrees, s2, c2),
    ensures
        s1 == s2,
        c1 == c2,
{
}

proof fn product3_is_unique<T: Scalar>(a: T, b: T, c: T, r: T, s: T)
    requires
        is_deterministic::<T>(),
        is_product3(a, b, c, r),
        is_product3(a, b, c, s),
    ensures
        r == s,
{
}

proof fn product3_minus_is_unique<T: Scalar>(a: T, b: T, c: T, d: T, e: T, r: T, s: T)
    requires
        is_deterministic::<T>(),
        is_product3_minus(a, b, c, d, e, r),
        is_product3_minus(a, b, c, d, e, s),
    ensures
        r == s,
{
    let (t1, u1) = choose|t: T, u: T|
        #![trigger is_product3(a, b, c, t), is_product(d, e, u)]
        is_product3(a, b, c, t) && is_product(d, e, u) && is_difference(t, u, r);
    let (t2, u2) = choose|t: T, u: T|
        #![trigger is_product3(a, b, c, t), is_product(d, e, u)]
        is_product3(a, b, c, t) && is_product(d, e, u) && is_difference(t, u, s);
    product3_is_unique(a, b, c, t1, t2);
}

proof fn product3_plus_is_unique<T: Scalar>(a: T, b: T, c: T, d: T, e: T, r: T, s: T)
    requires
        is_deterministic::<T>(),
        is_product3_plus(a, b, c, d, e, r),
        is_product3_plus(a, b, c, d, e, s),
    ensures
        r == s,
{
    let (t1, u1) = choose|t: T, u: T|
        #![trigger is_product3(a, b, c, t), is_product(d, e, u)]
        is_product3(a, b, c, t) && is_product(d, e, u) && is_sum(t, u, r);
    let (t2, u2) = choose|t: T, u: T|
        #![trigger is_product3(a, b, c, t), is_product(d, e, u)]
        is_product3(a, b, c, t) && is_product(d, e, u) && is_sum(t, u, s);
    product3_is_unique(a, b, c, t1, t2);
}

/// With deterministic scalars a triple of angles has one rotation.
pub proof fn rotation_is_unique<T: Scalar>(
    angle: Vec3f<T>,
    first: RotationMatrix<T>,
    second: RotationMatrix<T>,
)
    requires
        is_deterministic::<T>(),
        first.is_rotation_for(angle),
        second.is_rotation_for(angle),
    ensures
        first == second,
{
    let (xs, xc, ys, yc, zs, zc) = choose|xs: T, xc: T, ys: T, yc: T, zs: T, zc: T|
        #![trigger is_turn(angle.x, xs, xc), is_turn(angle.y, ys, yc), is_turn(angle.z, zs, zc)]
        is_turn(angle.x, xs, xc) && is_turn(angle.y, ys, yc) && is_turn(angle.z, zs, zc)
            && first.is_composed(xs, xc, ys, yc, zs, zc);
    let (xs2, xc2, ys2, yc2, zs2, zc2) = choose|xs: T, xc: T, ys: T, yc: T, zs: T, zc: T|
        #![trigger is_turn(angle.x, xs, xc), is_turn(angle.y, ys, yc), is_turn(angle.z, zs, zc)]
        is_turn(angle.x, xs, xc) && is_turn(angle.y, ys, yc) && is_turn(angle.z, zs, zc)
            && second.is_composed(xs, xc, ys, yc, zs, zc);
    turn_is_unique(angle.x, xs, xc, xs2, xc2);
    turn_is_unique(angle.y, ys, yc, ys2, yc2);
    turn_is_unique(angle.z, zs, zc, zs2, zc2);
    product3_minus_is_unique(xs, ys, zc, zs, xc, first.ab, second.ab);
    product3_plus_is_unique(ys, xc, zc, xs, zs, first.ac, second.ac);
    product3_plus_is_unique(xs, ys, zs, xc, zc, first.bb, second.bb);
    product3_minus_is_unique(ys, zs, xc, xs, zc, first.bc, second.bc);
}

/// With deterministic scalars a rotation takes a vector to one vector.
pub proof fn rotated_is_unique<T: Scalar>(
    m: RotationMatrix<T>,
    v: Vec3f<T>,
    first: Vec3f<T>,
    second: Vec3f<T>,
)
    requires
        is_deterministic::<T>(),
        m.is_rotated(v, first),
        m.is_rotated(v, second),
    ensures
        first == second,
{
    dot_is_unique(m.row_a(), v, first.x, second.x);
    dot_is_unique(m.row_b(), v, first.y, second.y);
    dot_is_unique(m.row_c(), v, first.z, second.z);
}

} // verus!
