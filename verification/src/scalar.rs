//! The scalar capability set that the whole engine is generic over.
//!
//! The estimator is parametric in a single number type that supports field
//! operations, ordering, square roots, exponentials, powers, the constant
//! pi and conversion from small counts. A deployment instantiates it with a
//! concrete floating-point type outside of this crate.

use vstd::prelude::*;

verus! {

/// Capability set of the scalar number type the estimator works on.
///
/// Each executable operation has a specification-level twin, and the
/// executable operation must return exactly the value of its twin. An
/// implementation therefore has to be a pure function of its arguments:
/// the same operands give the same result, call after call. Ordinary
/// floating-point types satisfy this; an implementation wraps one and
/// forwards each operation to it.
///
/// Nothing else is assumed of the arithmetic: the contracts of this crate
/// pin every produced number down to a closed formula over these
/// operations, and the analytic properties of the formulas are the
/// implementing type's business.
pub trait Scalar: Sized + Copy {
    /// The value of the additive identity.
    spec fn spec_zero() -> Self;

    /// The value of the multiplicative identity.
    spec fn spec_one() -> Self;

    /// The value a count converts to.
    spec fn spec_from_usize(n: usize) -> Self;

    /// The value of the sum `self + o`.
    spec fn spec_plus(self, o: Self) -> Self;

    /// The value of the difference `self - o`.
    spec fn spec_minus(self, o: Self) -> Self;

    /// The value of the product `self * o`.
    spec fn spec_times(self, o: Self) -> Self;

    /// The value of the quotient `self / o`.
    spec fn spec_divide(self, o: Self) -> Self;

    /// The value of `-self`.
    spec fn spec_negate(self) -> Self;

    /// The value of the reciprocal `1 / self`.
    spec fn spec_recip(self) -> Self;

    /// The value of the square root of `self`.
    spec fn spec_sqrt(self) -> Self;

    /// The value of `e` raised to `self`.
    spec fn spec_exp(self) -> Self;

    /// The value of `self` raised to the scalar power `e`.
    spec fn spec_powf(self, e: Self) -> Self;

    /// The value of `self` raised to the integer power `n`.
    spec fn spec_powi(self, n: usize) -> Self;

    /// The value of the circle constant pi.
    spec fn spec_pi() -> Self;

    /// Whether `self` is less than or equal to `o` in the type's order.
    spec fn spec_leq(self, o: Self) -> bool;

    /// The additive identity.
    fn zero() -> (r: Self)
        ensures
            r == Self::spec_zero(),
    ;

    /// The multiplicative identity.
    fn one() -> (r: Self)
        ensures
            r == Self::spec_one(),
    ;

    /// Conversion from a count.
    fn from_usize(n: usize) -> (r: Self)
        ensures
            r == Self::spec_from_usize(n),
    ;

    /// Addition.
    fn plus(self, o: Self) -> (r: Self)
        ensures
            r == self.spec_plus(o),
    ;

    /// Subtraction.
    fn minus(self, o: Self) -> (r: Self)
        ensures
            r == self.spec_minus(o),
    ;

    /// Multiplication.
    fn times(self, o: Self) -> (r: Self)
        ensures
            r == self.spec_times(o),
    ;

    /// Division.
    fn divide(self, o: Self) -> (r: Self)
        ensures
            r == self.spec_divide(o),
    ;

    /// Negation.
    fn negate(self) -> (r: Self)
        ensures
            r == self.spec_negate(),
    ;

    /// Reciprocal.
    fn recip(self) -> (r: Self)
        ensures
            r == self.spec_recip(),
    ;

    /// Square root.
    fn sqrt(self) -> (r: Self)
        ensures
            r == self.spec_sqrt(),
    ;

    /// Exponential.
    fn exp(self) -> (r: Self)
        ensures
            r == self.spec_exp(),
    ;

    /// Raise to a scalar power.
    fn powf(self, e: Self) -> (r: Self)
        ensures
            r == self.spec_powf(e),
    ;

    /// Raise to a small nonnegative integer power.
    fn powi(self, n: usize) -> (r: Self)
        requires
            n <= 2147483647,
        ensures
            r == self.spec_powi(n),
    ;

    /// The circle constant.
    fn pi() -> (r: Self)
        ensures
            r == Self::spec_pi(),
    ;

    /// Order comparison: is `self` at most `o`?
    fn leq(self, o: Self) -> (r: bool)
        ensures
            r == self.spec_leq(o),
    ;
}

} // verus!
