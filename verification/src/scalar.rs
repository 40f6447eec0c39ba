use vstd::prelude::*;

verus! {

/// The scalar capability: an abstract real-number type together with the
/// elementary functions that differentiation rules are built from.
///
/// Each operation comes in two parts: an uninterpreted specification function
/// that names the operation's result, and an executable method whose contract
/// ties it to that name. The verified dual-number algebra is stated entirely
/// over these names, so it holds for every implementation in which each
/// executable method is a pure function of its arguments. A floating-point
/// implementation lives outside the verified core and supplies the actual
/// arithmetic; no domain checks are made here, so such an implementation is
/// free to follow IEEE semantics and return NaN or an infinity where the
/// mathematical operation is undefined.
pub trait Scalar: Sized + Copy {
    /// The additive inverse, `-a`.
    spec fn spec_neg(self) -> Self;

    /// The sum `a + b`.
    spec fn spec_add(self, rhs: Self) -> Self;

    /// The difference `a - b`.
    spec fn spec_sub(self, rhs: Self) -> Self;

    /// The product `a * b`.
    spec fn spec_mul(self, rhs: Self) -> Self;

    /// The quotient `a / b`.
    spec fn spec_div(self, rhs: Self) -> Self;

    /// The scalar's unit value.
    spec fn spec_one() -> Self;

    /// The scalar with the value of the machine integer `n`.
    spec fn spec_from_int(n: i32) -> Self;

    /// The exponential `e^a`.
    spec fn spec_exp(self) -> Self;

    /// The natural logarithm `ln a`.
    spec fn spec_ln(self) -> Self;

    /// The sine of `a`.
    spec fn spec_sin(self) -> Self;

    /// The cosine of `a`.
    spec fn spec_cos(self) -> Self;

    /// The tangent of `a`.
    spec fn spec_tan(self) -> Self;

    /// The integer power `a^n`.
    spec fn spec_powi(self, n: i32) -> Self;

    fn neg(self) -> (r: Self)
        ensures
            r == self.spec_neg(),
    ;

    fn add(self, rhs: Self) -> (r: Self)
        ensures
            r == self.spec_add(rhs),
    ;

    fn sub(self, rhs: Self) -> (r: Self)
        ensures
            r == self.spec_sub(rhs),
    ;

    fn mul(self, rhs: Self) -> (r: Self)
        ensures
            r == self.spec_mul(rhs),
    ;

    fn div(self, rhs: Self) -> (r: Self)
        ensures
            r == self.spec_div(rhs),
    ;

    fn one() -> (r: Self)
        ensures
            r == Self::spec_one(),
    ;

    fn from_int(n: i32) -> (r: Self)
        ensures
            r == Self::spec_from_int(n),
    ;

    fn exp(self) -> (r: Self)
        ensures
            r == self.spec_exp(),
    ;

    fn ln(self) -> (r: Self)
        ensures
            r == self.spec_ln(),
    ;

    fn sin(self) -> (r: Self)
        ensures
            r == self.spec_sin(),
    ;

    fn cos(self) -> (r: Self)
        ensures
            r == self.spec_cos(),
    ;

    fn tan(self) -> (r: Self)
        ensures
            r == self.spec_tan(),
    ;

    fn powi(self, n: i32) -> (r: Self)
        ensures
            r == self.spec_powi(n),
    ;
}

} // verus!
