//! The containment test: whether a sample point counts as inside a
//! triangle.

use vstd::prelude::*;
use crate::scalar::{is_deterministic, is_sign_test, Scalar};
use crate::scene::Triangle;
use crate::vector::{
    cross_is_unique,
    dot_is_unique,
    is_cross,
    is_dot,
    is_vector_difference,
    vector_difference_is_unique,
    Vec3f,
};

verus! {

/// `inside` is the verdict on a point, given the vertices `a`, `b`, `c` of
/// a triangle relative to the point and the normal `n1 = a x b` of the
/// first wedge. With `n2 = b x c` and `n3 = c x a`: if `n1 . n2` is
/// strictly below zero, the point is outside; otherwise it is outside
/// exactly if `n1 . n3` is strictly below zero. A dot product of zero
/// counts as inside. `n1 . n2` is decided first, and `n3` enters only
/// where `n1 . n2` did not decide.
pub open spec fn is_wedge_verdict<T: Scalar>(
    a: Vec3f<T>,
    b: Vec3f<T>,
    c: Vec3f<T>,
    n1: Vec3f<T>,
    inside: bool,
) -> bool {
    exists|n2: Vec3f<T>, d12: T|
        #![trigger is_cross(b, c, n2), is_dot(n1, n2, d12)]
        is_cross(b, c, n2) && is_dot(n1, n2, d12) && {
            ||| is_sign_test(d12, true) && !inside
            ||| is_sign_test(d12, false) && exists|n3: Vec3f<T>, d13: T|
                #![trigger is_cross(c, a, n3), is_dot(n1, n3, d13)]
                is_cross(c, a, n3) && is_dot(n1, n3, d13) && is_sign_test(d13, !inside)
        }
}

/// `inside` is the verdict of the containment test on triangle `t` and
/// point `p`: with `a`, `b`, `c` the vertices minus `p` and `n1`, `n2`,
/// `n3` the cross products of `(a, b)`, `(b, c)`, `(c, a)`, the point is
/// inside when neither `n1 . n2` nor `n1 . n3` is strictly below zero.
pub open spec fn is_contained<T: Scalar>(t: Triangle<T>, p: Vec3f<T>, inside: bool) -> bool {
    exists|a: Vec3f<T>, b: Vec3f<T>, c: Vec3f<T>, n1: Vec3f<T>|
        #![trigger is_vector_difference(t.v1, p, a), is_vector_difference(t.v2, p, b), is_vector_difference(t.v3, p, c), is_cross(a, b, n1)]
        is_vector_difference(t.v1, p, a) && is_vector_difference(t.v2, p, b)
            && is_vector_difference(t.v3, p, c) && is_cross(a, b, n1) && is_wedge_verdict(
            a,
            b,
            c,
            n1,
            inside,
        )
}

/// The containment test: whether `point` counts as inside `triangle`, as
/// seen from the point itself. The three wedges that the point spans with
/// the edges of the triangle must not turn against each other: the normal
/// of the first wedge is compared with the normal of the second and then
/// with the normal of the third, and the first dot product strictly below
/// zero puts the point outside. This is no intersection test: it holds of
/// points in and near the triangle's plane that lie within its edges.
pub fn contains<T: Scalar>(triangle: &Triangle<T>, point: Vec3f<T>) -> (inside: bool)
    ensures
        is_contained(*triangle, point, inside),
{
    let a = triangle.v1.sub(point);
    let b = triangle.v2.sub(point);
    let c = triangle.v3.sub(point);
    let n1 = a.cross(b);
    let n2 = b.cross(c);
    let d12 = n1.dot(n2);
    if d12.is_negative() {
        return false;
    }
    let n3 = c.cross(a);
    let d13 = n1.dot(n3);
    !d13.is_negative()
}

proof fn wedge_verdict_is_unique<T: Scalar>(
    a: Vec3f<T>,
    b: Vec3f<T>,
    c: Vec3f<T>,
    n1: Vec3f<T>,
    first: bool,
    second: bool,
)
    requires
        is_deterministic::<T>(),
        is_wedge_verdict(a, b, c, n1, first),
        is_wedge_verdict(a, b, c, n1, second),
    ensures
        first == second,
{
    let (n2, d12) = choose|n2: Vec3f<T>, d12: T|
        #![trigger is_cross(b, c, n2), is_dot(n1, n2, d12)]
        is_cross(b, c, n2) && is_dot(n1, n2, d12) && {
            ||| is_sign_test(d12, true) && !first
            ||| is_sign_test(d12, false) && exists|n3: Vec3f<T>, d13: T|
                #![trigger is_cross(c, a, n3), is_dot(n1, n3, d13)]
                is_cross(c, a, n3) && is_dot(n1, n3, d13) && is_sign_test(d13, !first)
        };
    let (m2, e12) = choose|n2: Vec3f<T>, d12: T|
        #![trigger is_cross(b, c, n2), is_dot(n1, n2, d12)]
        is_cross(b, c, n2) && is_dot(n1, n2, d12) && {
            ||| is_sign_test(d12, true) && !second
            ||| is_sign_test(d12, false) && exists|n3: Vec3f<T>, d13: T|
                #![trigger is_cross(c, a, n3), is_dot(n1, n3, d13)]
                is_cross(c, a, n3) && is_dot(n1, n3, d13) && is_sign_test(d13, !second)
        };
    cross_is_unique(b, c, n2, m2);
    dot_is_unique(n1, n2, d12, e12);
    if is_sign_test(d12, false) {
        let (n3, d13) = choose|n3: Vec3f<T>, d13: T|
            #![trigger is_cross(c, a, n3), is_dot(n1, n3, d13)]
            is_cross(c, a, n3) && is_dot(n1, n3, d13) && is_sign_test(d13, !first);
        let (m3, e13) = choose|n3: Vec3f<T>, d13: T|
            #![trigger is_cross(c, a, n3), is_dot(n1, n3, d13)]
            is_cross(c, a, n3) && is_dot(n1, n3, d13) && is_sign_test(d13, !second);
        cross_is_unique(c, a, n3, m3);
        dot_is_unique(n1, n3, d13, e13);
    }
}

/// With deterministic scalars the containment test has one verdict on a
/// triangle and a point.
pub proof fn containment_is_unique<T: Scalar>(
    t: Triangle<T>,
    p: Vec3f<T>,
    first: bool,
    second: bool,
)
    requires
        is_deterministic::<T>(),
        is_contained(t, p, first),
        is_contained(t, p, second),
    ensures
        first == second,
{
    let (a, b, c, n1) = choose|a: Vec3f<T>, b: Vec3f<T>, c: Vec3f<T>, n1: Vec3f<T>|
        #![trigger is_vector_difference(t.v1, p, a), is_vector_difference(t.v2, p, b), is_vector_difference(t.v3, p, c), is_cross(a, b, n1)]
        is_vector_difference(t.v1, p, a) && is_vector_difference(t.v2, p, b)
            && is_vector_difference(t.v3, p, c) && is_cross(a, b, n1) && is_wedge_verdict(
            a,
            b,
            c,
            n1,
            first,
        );
    let (a2, b2, c2, m1) = choose|a: Vec3f<T>, b: Vec3f<T>, c: Vec3f<T>, n1: Vec3f<T>|
        #![trigger is_vector_difference(t.v1, p, a), is_vector_difference(t.v2, p, b), is_vector_difference(t.v3, p, c), is_cross(a, b, n1)]
        is_vector_difference(t.v1, p, a) && is_vector_difference(t.v2, p, b)
            && is_vector_difference(t.v3, p, c) && is_cross(a, b, n1) && is_wedge_verdict(
            a,
            b,
            c,
            n1,
            second,
        );
    vector_difference_is_unique(t.v1, p, a, a2);
    vector_difference_is_unique(t.v2, p, b, b2);
    vector_difference_is_unique(t.v3, p, c, c2);
    cross_is_unique(a, b, n1, m1);
    wedge_verdict_is_unique(a, b, c, n1, first, second);
}

} // verus!
