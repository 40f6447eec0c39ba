use vstd::prelude::*;
use crate::scalar::Scalar;
use crate::algebra::Algebra;
use crate::ops::Ops;
use crate::sigmoid::Sigmoid;

verus! {

/// A dual number: a function's value `x` at the evaluation point, paired with
/// its tangent `dx`, the derivative of that value with respect to the single
/// differentiation variable.
///
/// Seeding a variable as `Dual::new(x, one)` and chaining operations computes
/// the value and the first derivative of the chained expression in one pass:
/// every operation advances both components, the tangent by the chain,
/// product or quotient rule of that operation. Dual numbers are plain values;
/// every operation consumes its operands and returns a fresh, independent
/// result, and no operation mutates or shares state.
#[derive(Debug, Clone, Copy)]
pub struct Dual<S> {
    /// The value at the evaluation point.
    pub x: S,
    /// The tangent: the derivative of the value with respect to the
    /// differentiation variable.
    pub dx: S,
}

impl<S: Scalar> Dual<S> {
    /// Builds the dual number with value `x` and tangent `dx`. A seed for the
    /// differentiation variable itself carries tangent one; a constant
    /// carries tangent zero.
    pub fn new(x: S, dx: S) -> (r: Self)
        ensures
            r.x == x,
            r.dx == dx,
    {
        Dual { x, dx }
    }
}

impl<S: Scalar> Algebra<S> for Dual<S> {
    /// Linearity: both components are negated.
    open spec fn spec_neg(self) -> Self {
        Dual { x: self.x.spec_neg(), dx: self.dx.spec_neg() }
    }

    /// Sum rule: `d(a + b) = da + db`.
    open spec fn spec_add(self, rhs: Self) -> Self {
        Dual { x: self.x.spec_add(rhs.x), dx: self.dx.spec_add(rhs.dx) }
    }

    /// Sum rule: `d(a - b) = da - db`.
    open spec fn spec_sub(self, rhs: Self) -> Self {
        Dual { x: self.x.spec_sub(rhs.x), dx: self.dx.spec_sub(rhs.dx) }
    }

    /// Product rule: `d(a * b) = a db + da b`.
    open spec fn spec_mul(self, rhs: Self) -> Self {
        Dual {
            x: self.x.spec_mul(rhs.x),
            dx: self.x.spec_mul(rhs.dx).spec_add(self.dx.spec_mul(rhs.x)),
        }
    }

    /// Quotient rule: `d(a / b) = (da b - a db) / b^2`; a zero divisor is not
    /// rejected, its effect is the implementing scalar's division behaviour.
    open spec fn spec_div(self, rhs: Self) -> Self {
        Dual {
            x: self.x.spec_div(rhs.x),
            dx: self.dx.spec_mul(rhs.x).spec_sub(self.x.spec_mul(rhs.dx)).spec_div(
                rhs.x.spec_mul(rhs.x),
            ),
        }
    }

    /// A constant has tangent zero: the sum shifts the value and keeps the
    /// tangent.
    open spec fn spec_add_scalar(self, c: S) -> Self {
        Dual { x: self.x.spec_add(c), dx: self.dx }
    }

    /// A constant has tangent zero: the difference shifts the value and keeps
    /// the tangent.
    open spec fn spec_sub_scalar(self, c: S) -> Self {
        Dual { x: self.x.spec_sub(c), dx: self.dx }
    }

    /// A constant factor scales the tangent exactly as it scales the value.
    open spec fn spec_mul_scalar(self, c: S) -> Self {
        Dual { x: self.x.spec_mul(c), dx: self.dx.spec_mul(c) }
    }

    /// A constant divisor scales the tangent exactly as it scales the value.
    open spec fn spec_div_scalar(self, c: S) -> Self {
        Dual { x: self.x.spec_div(c), dx: self.dx.spec_div(c) }
    }

    /// The scalar as a zero-tangent dual, then the quotient rule:
    /// `d(c / a) = -(c da) / a^2`.
    open spec fn spec_scalar_div(c: S, v: Self) -> Self {
        Dual {
            x: c.spec_div(v.x),
            dx: c.spec_mul(v.dx).spec_neg().spec_div(v.x.spec_mul(v.x)),
        }
    }

    fn neg(self) -> Self {
        Dual { x: self.x.neg(), dx: self.dx.neg() }
    }

    fn add(self, rhs: Self) -> Self {
        Dual { x: self.x.add(rhs.x), dx: self.dx.add(rhs.dx) }
    }

    fn sub(self, rhs: Self) -> Self {
        Dual { x: self.x.sub(rhs.x), dx: self.dx.sub(rhs.dx) }
    }

    fn mul(self, rhs: Self) -> Self {
        Dual {
            x: self.x.mul(rhs.x),
            dx: self.x.mul(rhs.dx).add(self.dx.mul(rhs.x)),
        }
    }

    fn div(self, rhs: Self) -> Self {
        Dual {
            x: self.x.div(rhs.x),
            dx: self.dx.mul(rhs.x).sub(self.x.mul(rhs.dx)).div(rhs.x.mul(rhs.x)),
        }
    }

    fn add_scalar(self, c: S) -> Self {
        Dual { x: self.x.add(c), dx: self.dx }
    }

    fn sub_scalar(self, c: S) -> Self {
        Dual { x: self.x.sub(c), dx: self.dx }
    }

    fn mul_scalar(self, c: S) -> Self {
        Dual { x: self.x.mul(c), dx: self.dx.mul(c) }
    }

    fn div_scalar(self, c: S) -> Self {
        Dual { x: self.x.div(c), dx: self.dx.div(c) }
    }

    fn scalar_div(c: S, v: Self) -> Self {
        Dual {
            x: c.div(v.x),
            dx: c.mul(v.dx).neg().div(v.x.mul(v.x)),
        }
    }
}

impl<S: Scalar> Ops for Dual<S> {
    /// The derivative of the exponential is itself: `(e^x, e^x dx)`.
    open spec fn spec_exp(self) -> Self {
        Dual { x: self.x.spec_exp(), dx: self.x.spec_exp().spec_mul(self.dx) }
    }

    /// `(ln x, dx / x)`; a non-positive value is not rejected, its effect is
    /// the implementing scalar's logarithm and division behaviour.
    open spec fn spec_ln(self) -> Self {
        Dual { x: self.x.spec_ln(), dx: self.dx.spec_div(self.x) }
    }

    /// `(sin x, cos x · dx)`.
    open spec fn spec_sin(self) -> Self {
        Dual { x: self.x.spec_sin(), dx: self.x.spec_cos().spec_mul(self.dx) }
    }

    /// `(cos x, -sin x · dx)`.
    open spec fn spec_cos(self) -> Self {
        Dual { x: self.x.spec_cos(), dx: self.x.spec_sin().spec_neg().spec_mul(self.dx) }
    }

    /// `(tan x, dx · (tan^2 x + 1))`: the derivative `1 / cos^2 x` written
    /// over the already computed tangent value, saving a second trigonometric
    /// call.
    open spec fn spec_tan(self) -> Self {
        Dual {
            x: self.x.spec_tan(),
            dx: self.dx.spec_mul(
                self.x.spec_tan().spec_mul(self.x.spec_tan()).spec_add(S::spec_one()),
            ),
        }
    }

    /// Power rule: `(x^n, (n x^(n-1)) dx)`; `n` may be zero or negative.
    open spec fn spec_powi(self, n: i32) -> Self {
        Dual {
            x: self.x.spec_powi(n),
            dx: S::spec_from_int(n).spec_mul(self.x.spec_powi((n - 1) as i32)).spec_mul(self.dx),
        }
    }

    fn exp(self) -> Self {
        let e = self.x.exp();
        Dual { x: e, dx: e.mul(self.dx) }
    }

    fn ln(self) -> Self {
        Dual { x: self.x.ln(), dx: self.dx.div(self.x) }
    }

    fn sin(self) -> Self {
        Dual { x: self.x.sin(), dx: self.x.cos().mul(self.dx) }
    }

    fn cos(self) -> Self {
        Dual { x: self.x.cos(), dx: self.x.sin().neg().mul(self.dx) }
    }

    fn tan(self) -> Self {
        let t = self.x.tan();
        Dual { x: t, dx: self.dx.mul(t.mul(t).add(S::one())) }
    }

    fn powi(self, n: i32) -> Self {
        Dual {
            x: self.x.powi(n),
            dx: S::from_int(n).mul(self.x.powi(n - 1)).mul(self.dx),
        }
    }
}

/// Dual numbers offer the whole capability set the sigmoid is composed from,
/// so they receive the provided formula unchanged.
impl<S: Scalar> Sigmoid<S> for Dual<S> {}

} // verus!
