use vstd::prelude::*;
use crate::scalar::Scalar;
use crate::algebra::Algebra;
use crate::ops::Ops;

verus! {

/// The derived capability: the logistic sigmoid, `sigmoid(a) = 1 / (e^-a + 1)`,
/// provided to every type that offers negation, scalar addition, the
/// elementary functions and division of a scalar by the type — it is composed
/// from those capabilities alone and never looks inside its argument's
/// representation.
pub trait Sigmoid<S: Scalar>: Algebra<S> + Ops {
    /// Computes the sigmoid by chaining negation, the exponential, addition of
    /// the scalar unit, and division of the scalar unit by the sum; the
    /// contract records exactly that composition, so the derivative of the
    /// result is the one the chained capabilities propagate.
    fn sigmoid(self) -> (r: Self)
        ensures
            r == Self::spec_scalar_div(
                S::spec_one(),
                self.spec_neg().spec_exp().spec_add_scalar(S::spec_one()),
            ),
    {
        let one: S = S::one();
        Self::scalar_div(one, self.neg().exp().add_scalar(one))
    }
}

} // verus!
