use dualnum::algebra::Algebra;
use dualnum::dual::Dual;
use dualnum::ops::Ops;
use dualnum::scalar::Scalar;
use dualnum::sigmoid::Sigmoid;

/// The IEEE 754 double-precision scalar: the intended instantiation of the
/// abstract scalar capability. Every operation is a pure function of its
/// operands, and domain violations follow the floating-point rules (NaN and
/// infinities) rather than aborting.
#[derive(Debug, Clone, Copy, PartialEq)]
struct F(f64);

impl Scalar for F {
    fn spec_neg(self) -> F {
        F(-self.0)
    }

    fn spec_add(self, rhs: F) -> F {
        F(self.0 + rhs.0)
    }

    fn spec_sub(self, rhs: F) -> F {
        F(self.0 - rhs.0)
    }

    fn spec_mul(self, rhs: F) -> F {
        F(self.0 * rhs.0)
    }

    fn spec_div(self, rhs: F) -> F {
        F(self.0 / rhs.0)
    }

    fn spec_one() -> F {
        F(1.0)
    }

    fn spec_from_int(n: i32) -> F {
        F(n as f64)
    }

    fn spec_exp(self) -> F {
        F(self.0.exp())
    }

    fn spec_ln(self) -> F {
        F(self.0.ln())
    }

    fn spec_sin(self) -> F {
        F(self.0.sin())
    }

    fn spec_cos(self) -> F {
        F(self.0.cos())
    }

    fn spec_tan(self) -> F {
        F(self.0.tan())
    }

    fn spec_powi(self, n: i32) -> F {
        F(self.0.powi(n))
    }

    fn neg(self) -> F {
        F(-self.0)
    }

    fn add(self, rhs: F) -> F {
        F(self.0 + rhs.0)
    }

    fn sub(self, rhs: F) -> F {
        F(self.0 - rhs.0)
    }

    fn mul(self, rhs: F) -> F {
        F(self.0 * rhs.0)
    }

    fn div(self, rhs: F) -> F {
        F(self.0 / rhs.0)
    }

    fn one() -> F {
        F(1.0)
    }

    fn from_int(n: i32) -> F {
        F(n as f64)
    }

    fn exp(self) -> F {
        F(self.0.exp())
    }

    fn ln(self) -> F {
        F(self.0.ln())
    }

    fn sin(self) -> F {
        F(self.0.sin())
    }

    fn cos(self) -> F {
        F(self.0.cos())
    }

    fn tan(self) -> F {
        F(self.0.tan())
    }

    fn powi(self, n: i32) -> F {
        F(self.0.powi(n))
    }
}

fn seed(x: f64) -> Dual<F> {
    Dual::new(F(x), F(1.0))
}

fn close(a: f64, b: f64) -> bool {
    (a - b).abs() <= 1e-12 * (1.0 + a.abs().max(b.abs()))
}

#[test]
fn new_keeps_both_components() {
    let d = Dual::new(F(2.5), F(-3.0));
    assert_eq!(d.x, F(2.5));
    assert_eq!(d.dx, F(-3.0));
}

#[test]
fn sin_derivative_matches_cosine() {
    for &x in &[-2.0, -0.5, 0.0, 0.3, 1.0, 2.7, 10.0] {
        let d = seed(x).sin();
        assert!(close(d.x.0, x.sin()));
        assert!(close(d.dx.0, x.cos()));
    }
}

#[test]
fn chain_rule_through_repeated_sine() {
    let v = seed(1.0).sin();
    let w = v.sin();
    assert!(close(w.x.0, 1.0f64.sin().sin()));
    assert!(close(w.dx.0, 1.0f64.sin().cos() * 1.0f64.cos()));
}

#[test]
fn sigmoid_self_derivative_identity() {
    for &x in &[-6.0, -1.0, 0.0, 0.5, 1.0, 4.0] {
        let d = seed(x).sigmoid();
        let s = 1.0 / ((-x).exp() + 1.0);
        assert!(close(d.x.0, s));
        assert!(close(d.dx.0, s * (1.0 - s)));
    }
}

#[test]
fn product_rule_with_constant_factor() {
    let a = Dual::new(F(2.0), F(1.0));
    let b = Dual::new(F(3.0), F(0.0));
    let p = a.mul(b);
    assert_eq!(p.x, F(6.0));
    assert_eq!(p.dx, F(3.0));
}

#[test]
fn quotient_rule_with_constant_divisor() {
    let a = Dual::new(F(2.0), F(1.0));
    let b = Dual::new(F(3.0), F(0.0));
    let q = a.div(b);
    assert!(close(q.x.0, 2.0 / 3.0));
    assert!(close(q.dx.0, 1.0 / 3.0));
}

#[test]
fn scalar_addition_keeps_the_tangent() {
    let d = Dual::new(F(2.0), F(1.0)).add_scalar(F(5.0));
    assert_eq!(d.x, F(7.0));
    assert_eq!(d.dx, F(1.0));
    let e = Dual::new(F(2.0), F(1.0)).sub_scalar(F(5.0));
    assert_eq!(e.x, F(-3.0));
    assert_eq!(e.dx, F(1.0));
}

#[test]
fn scalar_factor_scales_value_and_tangent_alike() {
    let d = Dual::new(F(2.0), F(1.0)).mul_scalar(F(5.0));
    assert_eq!(d.x, F(10.0));
    assert_eq!(d.dx, F(5.0));
    let e = Dual::new(F(10.0), F(4.0)).div_scalar(F(2.0));
    assert_eq!(e.x, F(5.0));
    assert_eq!(e.dx, F(2.0));
}

#[test]
fn scalar_over_dual_follows_the_quotient_rule() {
    let d = Dual::scalar_div(F(5.0), Dual::new(F(2.0), F(1.0)));
    assert!(close(d.x.0, 2.5));
    assert!(close(d.dx.0, -1.25));
}

#[test]
fn dual_addition_and_subtraction_add_tangents() {
    let a = Dual::new(F(2.0), F(1.0));
    let b = Dual::new(F(7.0), F(3.0));
    let s = a.add(b);
    assert_eq!(s.x, F(9.0));
    assert_eq!(s.dx, F(4.0));
    let d = a.sub(b);
    assert_eq!(d.x, F(-5.0));
    assert_eq!(d.dx, F(-2.0));
}

#[test]
fn negation_negates_both_components() {
    let d = Dual::new(F(2.0), F(-1.5)).neg();
    assert_eq!(d.x, F(-2.0));
    assert_eq!(d.dx, F(1.5));
}

#[test]
fn exponential_is_its_own_derivative() {
    let d = Dual::new(F(2.0), F(3.0)).exp();
    assert!(close(d.x.0, 2.0f64.exp()));
    assert!(close(d.dx.0, 2.0f64.exp() * 3.0));
}

#[test]
fn logarithm_derivative_is_reciprocal() {
    let d = seed(4.0).ln();
    assert!(close(d.x.0, 4.0f64.ln()));
    assert!(close(d.dx.0, 0.25));
}

#[test]
fn cosine_derivative_is_negated_sine() {
    for &x in &[-1.0, 0.0, 0.7, 2.0] {
        let d = seed(x).cos();
        assert!(close(d.x.0, x.cos()));
        assert!(close(d.dx.0, -x.sin()));
    }
}

#[test]
fn tangent_derivative_is_one_plus_square() {
    for &x in &[-1.0, 0.0, 0.4, 1.2] {
        let d = seed(x).tan();
        assert!(close(d.x.0, x.tan()));
        assert!(close(d.dx.0, x.tan() * x.tan() + 1.0));
    }
}

#[test]
fn integer_power_follows_the_power_rule() {
    let d = seed(3.0).powi(2);
    assert_eq!(d.x, F(9.0));
    assert_eq!(d.dx, F(6.0));
    let e = seed(3.0).powi(0);
    assert_eq!(e.x, F(1.0));
    assert_eq!(e.dx, F(0.0));
    let n = seed(2.0).powi(-1);
    assert!(close(n.x.0, 0.5));
    assert!(close(n.dx.0, -0.25));
}

#[test]
fn logarithm_at_zero_degrades_to_special_values() {
    let d = seed(0.0).ln();
    assert!(d.x.0.is_infinite() && d.x.0 < 0.0);
    assert!(!d.dx.0.is_finite());
}

#[test]
fn division_by_a_zero_valued_dual_degrades_to_special_values() {
    let a = Dual::new(F(1.0), F(1.0));
    let b = Dual::new(F(0.0), F(1.0));
    let q = a.div(b);
    assert!(!q.x.0.is_finite());
    assert!(!q.dx.0.is_finite());
}
