//! The scalar that coordinates, angles and lengths are made of.
//!
//! The library computes with its scalars through the operations of
//! [`Scalar`] alone and assumes nothing of what they return. A contract
//! therefore does not say "the result is `a + b`" but "the result is a
//! value that `a.plus(b)` returns": [`is_sum`] and its companions below
//! are those statements, and the contracts of the library are built from
//! them. Where each operation returns one value for given arguments
//! ([`is_deterministic`]), such a contract admits exactly one result.

use vstd::prelude::*;

verus! {

/// A number type with the arithmetic and the trigonometry of the renderer.
/// Every operation accepts every argument and returns: an implementation
/// has no input on which it panics.
pub trait Scalar: Copy {
    /// `self + rhs`.
    fn plus(self, rhs: Self) -> Self;

    /// `self - rhs`.
    fn minus(self, rhs: Self) -> Self;

    /// `self * rhs`.
    fn times(self, rhs: Self) -> Self;

    /// `self / rhs`.
    fn over(self, rhs: Self) -> Self;

    /// `-self`.
    fn negated(self) -> Self;

    /// The sine of an angle in radians.
    fn sin(self) -> Self;

    /// The cosine of an angle in radians.
    fn cos(self) -> Self;

    /// An angle in degrees, in radians.
    fn to_radians(self) -> Self;

    /// The scalar that stands for a count: a step index, a pixel
    /// coordinate, a length in pixels.
    fn from_count(count: u32) -> Self;

    /// Whether the scalar is strictly below zero.
    fn is_negative(self) -> bool;
}

/// `r` is a sum of `a` and `b`: a value that `a.plus(b)` returns.
pub open spec fn is_sum<T: Scalar>(a: T, b: T, r: T) -> bool {
    call_ensures(T::plus, (a, b), r)
}

/// `r` is a difference of `a` and `b`: a value that `a.minus(b)` returns.
pub open spec fn is_difference<T: Scalar>(a: T, b: T, r: T) -> bool {
    call_ensures(T::minus, (a, b), r)
}

/// `r` is a product of `a` and `b`: a value that `a.times(b)` returns.
pub open spec fn is_product<T: Scalar>(a: T, b: T, r: T) -> bool {
    call_ensures(T::times, (a, b), r)
}

/// `r` is a quotient of `a` by `b`: a value that `a.over(b)` returns.
pub open spec fn is_quotient<T: Scalar>(a: T, b: T, r: T) -> bool {
    call_ensures(T::over, (a, b), r)
}

/// `r` is a negation of `a`: a value that `a.negated()` returns.
pub open spec fn is_negation<T: Scalar>(a: T, r: T) -> bool {
    call_ensures(T::negated, (a,), r)
}

/// `r` is a sine of `a`: a value that `a.sin()` returns.
pub open spec fn is_sine<T: Scalar>(a: T, r: T) -> bool {
    call_ensures(T::sin, (a,), r)
}

/// `r` is a cosine of `a`: a value that `a.cos()` returns.
pub open spec fn is_cosine<T: Scalar>(a: T, r: T) -> bool {
    call_ensures(T::cos, (a,), r)
}

/// `r` is `a` degrees in radians: a value that `a.to_radians()` returns.
pub open spec fn is_radians<T: Scalar>(a: T, r: T) -> bool {
    call_ensures(T::to_radians, (a,), r)
}

/// `r` stands for the count `n`: a value that `T::from_count(n)` returns.
pub open spec fn is_count<T: Scalar>(n: u32, r: T) -> bool {
    call_ensures(T::from_count, (n,), r)
}

/// `verdict` is an answer to whether `a` is strictly below zero: a value
/// that `a.is_negative()` returns.
pub open spec fn is_sign_test<T: Scalar>(a: T, verdict: bool) -> bool {
    call_ensures(T::is_negative, (a,), verdict)
}

/// Each operation of `T` is a function of its arguments: one call admits
/// one result.
pub open spec fn is_deterministic<T: Scalar>() -> bool {
    &&& forall|a: T, b: T, r: T, s: T|
        #![trigger is_sum(a, b, r), is_sum(a, b, s)]
        is_sum(a, b, r) && is_sum(a, b, s) ==> r == s
    &&& forall|a: T, b: T, r: T, s: T|
        #![trigger is_difference(a, b, r), is_difference(a, b, s)]
        is_difference(a, b, r) && is_difference(a, b, s) ==> r == s
    &&& forall|a: T, b: T, r: T, s: T|
        #![trigger is_product(a, b, r), is_product(a, b, s)]
        is_product(a, b, r) && is_product(a, b, s) ==> r == s
    &&& forall|a: T, b: T, r: T, s: T|
        #![trigger is_quotient(a, b, r), is_quotient(a, b, s)]
        is_quotient(a, b, r) && is_quotient(a, b, s) ==> r == s
    &&& forall|a: T, r: T, s: T|
        #![trigger is_negation(a, r), is_negation(a, s)]
        is_negation(a, r) && is_negation(a, s) ==> r == s
    &&& forall|a: T, r: T, s: T|
        #![trigger is_sine(a, r), is_sine(a, s)]
        is_sine(a, r) && is_sine(a, s) ==> r == s
    &&& forall|a: T, r: T, s: T|
        #![trigger is_cosine(a, r), is_cosine(a, s)]
        is_cosine(a, r) && is_cosine(a, s) ==> r == s
    &&& forall|a: T, r: T, s: T|
        #![trigger is_radians(a, r), is_radians(a, s)]
        is_radians(a, r) && is_radians(a, s) ==> r == s
    &&& forall|n: u32, r: T, s: T|
        #![trigger is_count(n, r), is_count(n, s)]
        is_count(n, r) && is_count(n, s) ==> r == s
    &&& forall|a: T| !(#[trigger] is_sign_test(a, true) && #[trigger] is_sign_test(a, false))
}

} // verus!
