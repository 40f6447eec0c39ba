use vstd::prelude::*;
use crate::scalar::Scalar;
use crate::algebra::Algebra;
use crate::ops::Ops;
use crate::dual::Dual;

verus! {

/// The chain rule composes: pushing any dual number through the sine twice
/// yields the value `sin (sin x)`, and a tangent that is the derivative of
/// the outer call, `cos (sin x)`, times the tangent the inner call produced,
/// `cos x · dx` — the derivatives of the stages multiply up.
pub proof fn lemma_sin_sin_chain<S: Scalar>(d: Dual<S>)
    ensures
        d.spec_sin().spec_sin().x == d.x.spec_sin().spec_sin(),
        d.spec_sin().spec_sin().dx == d.x.spec_sin().spec_cos().spec_mul(
            d.x.spec_cos().spec_mul(d.dx),
        ),
{
}

/// Seeding the differentiation variable itself — any dual number whose
/// tangent is the scalar unit — and applying the sine yields the tangent
/// `cos x · 1`: the derivative of the sine at the point, scaled only by the
/// unit seed.
pub proof fn lemma_sin_derivative<S: Scalar>(d: Dual<S>)
    requires
        d.dx == S::spec_one(),
    ensures
        d.spec_sin().x == d.x.spec_sin(),
        d.spec_sin().dx == d.x.spec_cos().spec_mul(S::spec_one()),
{
}

/// The composition `1 / (e^-a + 1)` that the sigmoid contract returns,
/// spelled out over the dual's two components: the value is
/// `1 / (e^-x + 1)`, and the tangent is the one the chained linearity,
/// exponential, constant-shift and quotient rules propagate from `dx`.
pub proof fn lemma_sigmoid_composition<S: Scalar>(d: Dual<S>)
    ensures
        Dual::<S>::spec_scalar_div(
            S::spec_one(),
            d.spec_neg().spec_exp().spec_add_scalar(S::spec_one()),
        ).x == S::spec_one().spec_div(d.x.spec_neg().spec_exp().spec_add(S::spec_one())),
        Dual::<S>::spec_scalar_div(
            S::spec_one(),
            d.spec_neg().spec_exp().spec_add_scalar(S::spec_one()),
        ).dx == S::spec_one().spec_mul(
            d.x.spec_neg().spec_exp().spec_mul(d.dx.spec_neg()),
        ).spec_neg().spec_div(
            d.x.spec_neg().spec_exp().spec_add(S::spec_one()).spec_mul(
                d.x.spec_neg().spec_exp().spec_add(S::spec_one()),
            ),
        ),
{
}

} // verus!
