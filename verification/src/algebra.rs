use vstd::prelude::*;
use crate::scalar::Scalar;

verus! {

/// The arithmetic capability of a differentiable number: negation, the four
/// dual-with-dual operators, their dual-with-scalar forms, and division of a
/// scalar by a differentiable number.
///
/// As in `Scalar`, each operation pairs a specification function with an
/// executable method tied to it; the specification functions are defined by
/// each implementation, and an implementation's definitions are what make its
/// contracts say which differentiation rule every operator follows.
pub trait Algebra<S: Scalar>: Sized + Copy {
    /// The negation `-a`.
    spec fn spec_neg(self) -> Self;

    /// The sum `a + b`.
    spec fn spec_add(self, rhs: Self) -> Self;

    /// The difference `a - b`.
    spec fn spec_sub(self, rhs: Self) -> Self;

    /// The product `a * b`.
    spec fn spec_mul(self, rhs: Self) -> Self;

    /// The quotient `a / b`.
    spec fn spec_div(self, rhs: Self) -> Self;

    /// The sum `a + c` with a constant scalar `c`.
    spec fn spec_add_scalar(self, c: S) -> Self;

    /// The difference `a - c` with a constant scalar `c`.
    spec fn spec_sub_scalar(self, c: S) -> Self;

    /// The product `a * c` with a constant scalar `c`.
    spec fn spec_mul_scalar(self, c: S) -> Self;

    /// The quotient `a / c` with a constant scalar `c`.
    spec fn spec_div_scalar(self, c: S) -> Self;

    /// The quotient `c / a` of a constant scalar `c` by a differentiable number.
    spec fn spec_scalar_div(c: S, v: Self) -> Self;

    fn neg(self) -> (r: Self)
        ensures
            r == self.spec_neg(),
    ;

    fn add(self, rhs: Self) -> (r: Self)
        ensures
            r == self.spec_add(rhs),
    ;

    fn sub(self, rhs: Self) -> (r: Self)
        ensures
            r == self.spec_sub(rhs),
    ;

    fn mul(self, rhs: Self) -> (r: Self)
        ensures
            r == self.spec_mul(rhs),
    ;

    fn div(self, rhs: Self) -> (r: Self)
        ensures
            r == self.spec_div(rhs),
    ;

    fn add_scalar(self, c: S) -> (r: Self)
        ensures
            r == self.spec_add_scalar(c),
    ;

    fn sub_scalar(self, c: S) -> (r: Self)
        ensures
            r == self.spec_sub_scalar(c),
    ;

    fn mul_scalar(self, c: S) -> (r: Self)
        ensures
            r == self.spec_mul_scalar(c),
    ;

    fn div_scalar(self, c: S) -> (r: Self)
        ensures
            r == self.spec_div_scalar(c),
    ;

    fn scalar_div(c: S, v: Self) -> (r: Self)
        ensures
            r == Self::spec_scalar_div(c, v),
    ;
}

} // verus!
