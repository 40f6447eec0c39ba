//! Forward-mode automatic differentiation with dual numbers.
//!
//! A dual number carries a value together with its tangent — the derivative
//! of that value with respect to a single differentiation variable — and
//! every arithmetic operator and elementary function advances both in one
//! pass, the tangent by the matching differentiation rule. The algebra is
//! generic over an abstract scalar capability, so the verified contracts pin
//! the rule each operation follows for any scalar implementation; a
//! floating-point scalar is supplied by unverified callers.

pub mod scalar;
pub mod algebra;
pub mod ops;
pub mod sigmoid;
pub mod dual;
pub mod laws;
