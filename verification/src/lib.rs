//! A minimal elliptic-curve group-law engine over a prime field.
//!
//! A curve is described by the generalized Weierstrass equation
//! `y^2 = x^3 + a2*x^2 + a4*x + a6` over `F_p`; points on it (plus the point
//! at infinity) form a group under the chord-and-tangent law. This crate
//! implements point negation and point addition with exact arbitrary-precision
//! arithmetic, and proves each operation against a mathematical model of the
//! group law stated over unbounded integers.

pub mod arith;
pub mod curve;
pub mod point;
pub mod laws;
