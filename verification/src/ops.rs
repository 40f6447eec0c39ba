use vstd::prelude::*;

verus! {

/// The elementary-function capability of a differentiable number:
/// exponential, logarithm, the three trigonometric functions, and integer
/// power, each propagating the derivative by the chain rule.
///
/// As in `Algebra`, each implementation defines the specification functions,
/// and through them its contracts state both the value and the tangent that
/// every call produces.
pub trait Ops: Sized + Copy {
    /// The exponential `e^a`.
    spec fn spec_exp(self) -> Self;

    /// The natural logarithm `ln a`.
    spec fn spec_ln(self) -> Self;

    /// The sine of `a`.
    spec fn spec_sin(self) -> Self;

    /// The cosine of `a`.
    spec fn spec_cos(self) -> Self;

    /// The tangent of `a`.
    spec fn spec_tan(self) -> Self;

    /// The integer power `a^n`.
    spec fn spec_powi(self, n: i32) -> Self;

    fn exp(self) -> (r: Self)
        ensures
            r == self.spec_exp(),
    ;

    fn ln(self) -> (r: Self)
        ensures
            r == self.spec_ln(),
    ;

    fn sin(self) -> (r: Self)
        ensures
            r == self.spec_sin(),
    ;

    fn cos(self) -> (r: Self)
        ensures
            r == self.spec_cos(),
    ;

    fn tan(self) -> (r: Self)
        ensures
            r == self.spec_tan(),
    ;

    /// The exponent is a machine integer; `n` strictly above `i32::MIN` keeps
    /// the exponent of the derivative's power factor, `n - 1`, representable.
    fn powi(self, n: i32) -> (r: Self)
        requires
            n > i32::MIN,
        ensures
            r == self.spec_powi(n),
    ;
}

} // verus!
