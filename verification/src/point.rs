//! Points of the curve group and the chord-and-tangent group law.
//!
//! A point is either regular, with affine coordinates `(x, y)`, or the point
//! at infinity, the neutral element of the group. Negation and addition
//! consume their operands and produce a new point; both are specified
//! against a mathematical model (`spec_neg`, `spec_add`) stated over
//! unbounded integers.

use vstd::prelude::*;
use num_bigint::BigInt;
use crate::arith::{
    opt_value, big_clone, big_eq, big_add, big_sub, big_mul, big_neg, big_from_u64,
    big_rem_euclid, big_modpow,
};
use crate::curve::{EllipticCurve, CurveModel, secp256k1_model};
use vstd::arithmetic::power::pow;

verus! {

/// Kind tag of a point, derived from whether coordinates are present.
#[derive(Clone, Copy, PartialEq, Eq, Structural)]
pub enum PointType {
    Regular,
    Infinite,
}

/// Mathematical model of a point: optional affine coordinates as unbounded
/// integers, the curve it lives on, and its kind tag.
pub ghost struct PointModel {
    pub x: Option<int>,
    pub y: Option<int>,
    pub curve: CurveModel,
    pub point_type: PointType,
}

impl PointModel {
    /// Coordinates are both present or both absent, and the kind tag agrees.
    pub open spec fn wf(self) -> bool {
        &&& (self.x is Some <==> self.y is Some)
        &&& ((self.point_type == PointType::Regular) <==> self.x is Some)
    }

    /// Point equality: same coordinates, same kind, and the same curve as an
    /// algebraic object (curve name and order are metadata).
    pub open spec fn same_point(self, other: PointModel) -> bool {
        self.x == other.x && self.y == other.y && self.curve.alg_eq(other.curve)
            && self.point_type == other.point_type
    }

    /// The identity of the group of `c`: the point at infinity.
    pub open spec fn infinity_on(c: CurveModel) -> PointModel {
        PointModel { x: None, y: None, curve: c, point_type: PointType::Infinite }
    }

    /// Both coordinates of a regular point lie in the canonical residue
    /// range `[0, p)`.
    pub open spec fn canonical(self) -> bool {
        self.point_type == PointType::Regular ==> {
            &&& 0 <= self.x.unwrap() < self.curve.p
            &&& 0 <= self.y.unwrap() < self.curve.p
        }
    }
}

/// The canonical representative of the inverse of `a` modulo `p` when `p` is
/// prime and `p` does not divide `a`, obtained by Fermat's little theorem as
/// `a^(p-2) mod p`. For other inputs it is still a well-defined integer, just
/// not an inverse.
pub open spec fn fermat_inv(a: int, p: int) -> int {
    pow(a, (p - 2) as nat) % p
}

/// Tangent slope used to double a regular point with `y != 0`:
/// `(3x^2 + 2*a2*x + a4) * (2y)^-1`, the inverse by Fermat exponentiation.
pub open spec fn tangent_slope(x: int, y: int, c: CurveModel) -> int {
    (3 * (x * x) + (2 * c.a2) * x + c.a4) * fermat_inv(2 * y, c.p)
}

/// Chord slope through two regular points with distinct `x`:
/// `(y2 - y1) * (x2 - x1)^-1`, the inverse by Fermat exponentiation.
pub open spec fn chord_slope(x1: int, y1: int, x2: int, y2: int, p: int) -> int {
    (y2 - y1) * fermat_inv(x2 - x1, p)
}

/// Final step of the group law: from the slope, the result is
/// `x3 = lambda^2 - a2 - x1 - x2 (mod p)`, `y3 = lambda*(x1 - x3) - y1 (mod p)`,
/// both reduced to their canonical residues.
pub open spec fn spec_combine(lam: int, x1: int, y1: int, x2: int, c: CurveModel) -> PointModel {
    let x3 = (lam * lam - c.a2 - x1 - x2) % c.p;
    let y3 = (lam * (x1 - x3) - y1) % c.p;
    PointModel { x: Some(x3), y: Some(y3), curve: c, point_type: PointType::Regular }
}

/// Whether a point satisfies its curve's equation
/// `y^2 = x^3 + a2*x^2 + a4*x + a6` modulo `p`; the identity is on every
/// curve.
pub open spec fn on_curve(a: PointModel) -> bool {
    if a.point_type == PointType::Regular {
        let x = a.x.unwrap();
        let y = a.y.unwrap();
        let c = a.curve;
        (y * y) % c.p == ((x * x) * x + c.a2 * (x * x) + c.a4 * x + c.a6) % c.p
    } else {
        true
    }
}

/// The standalone doubling formula for a regular point: the identity when
/// the tangent is vertical (`y = 0`), otherwise the tangent-slope combine
/// step with both operands the same point.
pub open spec fn spec_double(a: PointModel) -> PointModel
    recommends
        a.wf(),
        a.point_type == PointType::Regular,
{
    let x1 = a.x.unwrap();
    let y1 = a.y.unwrap();
    if y1 == 0 {
        PointModel::infinity_on(a.curve)
    } else {
        spec_combine(tangent_slope(x1, y1, a.curve), x1, y1, x1, a.curve)
    }
}

/// Negation: the identity is its own negation; a regular point keeps `x` and
/// maps `y` to the canonical residue of `-y` modulo `p`.
pub open spec fn spec_neg(a: PointModel) -> PointModel {
    if a.point_type == PointType::Regular {
        PointModel {
            x: a.x,
            y: Some((-a.y.unwrap()) % a.curve.p),
            curve: a.curve,
            point_type: PointType::Regular,
        }
    } else {
        a
    }
}

/// The chord-and-tangent group law, in its required case order: right
/// identity, left identity, inverse pair, doubling (vertical tangent first),
/// general addition.
pub open spec fn spec_add(a: PointModel, b: PointModel) -> PointModel {
    if b.point_type == PointType::Infinite {
        a
    } else if a.point_type == PointType::Infinite {
        b
    } else if b.same_point(spec_neg(a)) {
        PointModel::infinity_on(a.curve)
    } else {
        let x1 = a.x.unwrap();
        let y1 = a.y.unwrap();
        let x2 = b.x.unwrap();
        let y2 = b.y.unwrap();
        if a.same_point(b) {
            if y1 == 0 {
                PointModel::infinity_on(a.curve)
            } else {
                spec_combine(tangent_slope(x1, y1, a.curve), x1, y1, x2, a.curve)
            }
        } else {
            spec_combine(chord_slope(x1, y1, x2, y2, a.curve.p), x1, y1, x2, a.curve)
        }
    }
}

/// An element of the point group of a curve, or the identity.
pub struct Point {
    pub x: Option<BigInt>,
    pub y: Option<BigInt>,
    pub curve: EllipticCurve,
    pub point_type: PointType,
}

impl View for Point {
    type V = PointModel;

    open spec fn view(&self) -> PointModel {
        PointModel {
            x: opt_value(self.x),
            y: opt_value(self.y),
            curve: self.curve@,
            point_type: self.point_type,
        }
    }
}

fn opt_clone(o: &Option<BigInt>) -> (r: Option<BigInt>)
    ensures
        opt_value(r) == opt_value(*o),
{
    match o {
        Some(b) => Some(big_clone(b)),
        None => None,
    }
}

fn opt_big_eq(a: &Option<BigInt>, b: &Option<BigInt>) -> (r: bool)
    ensures
        r <==> (opt_value(*a) == opt_value(*b)),
{
    match (a, b) {
        (Some(u), Some(v)) => big_eq(u, v),
        (None, None) => true,
        _ => false,
    }
}

impl Clone for Point {
    fn clone(&self) -> (r: Self)
        ensures
            r@ == self@,
    {
        Point {
            x: opt_clone(&self.x),
            y: opt_clone(&self.y),
            curve: self.curve.clone(),
            point_type: self.point_type,
        }
    }
}

impl PartialEq for Point {
    fn eq(&self, other: &Self) -> (r: bool) {
        opt_big_eq(&self.x, &other.x) && opt_big_eq(&self.y, &other.y) && self.curve
            == other.curve && self.point_type == other.point_type
    }
}

impl vstd::std_specs::cmp::PartialEqSpecImpl for Point {
    open spec fn obeys_eq_spec() -> bool {
        true
    }

    open spec fn eq_spec(&self, other: &Self) -> bool {
        self@.same_point(other@)
    }
}

impl Eq for Point {}

impl Point {
    /// Well-formedness of the underlying model.
    pub open spec fn wf(self) -> bool {
        self@.wf()
    }

    /// Build a point from a curve and optional coordinates. The kind tag is
    /// derived from whether `x` is present; the coordinates are not checked
    /// against the curve equation.
    pub fn new(curve: EllipticCurve, x: Option<BigInt>, y: Option<BigInt>) -> (r: Point)
        ensures
            r@ == (PointModel {
                x: opt_value(x),
                y: opt_value(y),
                curve: curve@,
                point_type: if opt_value(x) is Some {
                    PointType::Regular
                } else {
                    PointType::Infinite
                },
            }),
    {
        let point_type = if x.is_some() {
            PointType::Regular
        } else {
            PointType::Infinite
        };
        Point { x, y, curve, point_type }
    }

    /// The `x` coordinate, if the point is regular.
    pub fn x(&self) -> (r: &Option<BigInt>)
        ensures
            opt_value(*r) == self@.x,
    {
        &self.x
    }

    /// The `y` coordinate, if the point is regular.
    pub fn y(&self) -> (r: &Option<BigInt>)
        ensures
            opt_value(*r) == self@.y,
    {
        &self.y
    }

    /// The curve this point lives on.
    pub fn curve(&self) -> (r: &EllipticCurve)
        ensures
            r@ == self@.curve,
    {
        &self.curve
    }

    /// Explicit on-curve validation: construction never checks coordinates
    /// against the curve equation, so callers who need the guarantee ask
    /// here, as they ask `is_smooth` of a curve.
    pub fn is_on_curve(&self) -> (r: bool)
        requires
            self@.wf(),
            self@.curve.p > 0,
        ensures
            r == on_curve(self@),
    {
        if self.point_type == PointType::Regular {
            let x = self.x.as_ref().unwrap();
            let y = self.y.as_ref().unwrap();
            let ysq = big_mul(y, y);
            let lhs = big_rem_euclid(&ysq, &self.curve.p);
            let xsq = big_mul(x, x);
            let xcu = big_mul(&xsq, x);
            let t2 = big_mul(&self.curve.a2, &xsq);
            let t3 = big_mul(&self.curve.a4, x);
            let s1 = big_add(&xcu, &t2);
            let s2 = big_add(&s1, &t3);
            let s3 = big_add(&s2, &self.curve.a6);
            let rhs = big_rem_euclid(&s3, &self.curve.p);
            big_eq(&lhs, &rhs)
        } else {
            true
        }
    }

    /// Negation. The identity is returned unchanged; a regular point keeps
    /// `x` and gets `y` replaced by the canonical residue of `-y` mod `p`.
    pub fn neg(self) -> (r: Point)
        requires
            self@.wf(),
            self@.curve.p > 0,
        ensures
            r@ == spec_neg(self@),
    {
        if self.point_type == PointType::Regular {
            let ny = big_neg(self.y.as_ref().unwrap());
            let yn = big_rem_euclid(&ny, &self.curve.p);
            Point::new(self.curve, self.x, Some(yn))
        } else {
            self
        }
    }

    /// The group sum of two points on the same curve, by the
    /// chord-and-tangent law `spec_add`. The operands must agree on the
    /// curve's algebraic parameters; the modulus must be at least 2 so that
    /// the Fermat exponent `p - 2` is defined.
    pub fn add(self, rhs: Point) -> (r: Point)
        requires
            self@.wf(),
            rhs@.wf(),
            self@.curve.alg_eq(rhs@.curve),
            self@.curve.p >= 2,
        ensures
            r@ == spec_add(self@, rhs@),
    {
        if rhs.point_type == PointType::Infinite {
            return self;
        }
        if self.point_type == PointType::Infinite {
            return rhs;
        }
        let neg_self = self.clone().neg();
        if rhs == neg_self {
            return Point::new(self.curve, None, None);
        }
        let two = big_from_u64(2);
        let pm2 = big_sub(&self.curve.p, &two);
        let x1 = self.x.as_ref().unwrap();
        let y1 = self.y.as_ref().unwrap();
        let x2 = rhs.x.as_ref().unwrap();
        let y2 = rhs.y.as_ref().unwrap();
        let lambda = if self == rhs {
            let zero = big_from_u64(0);
            if big_eq(y1, &zero) {
                return Point::new(self.curve, None, None);
            }
            let two_y = big_mul(&two, y1);
            let inv_l = big_modpow(&two_y, &pm2, &self.curve.p);
            let x1sq = big_mul(x1, x1);
            let three = big_from_u64(3);
            let t1 = big_mul(&three, &x1sq);
            let t2a = big_mul(&two, &self.curve.a2);
            let t2b = big_mul(&t2a, x1);
            let t3 = big_add(&t1, &t2b);
            let num = big_add(&t3, &self.curve.a4);
            big_mul(&num, &inv_l)
        } else {
            let d = big_sub(x2, x1);
            let inv_l = big_modpow(&d, &pm2, &self.curve.p);
            let e = big_sub(y2, y1);
            big_mul(&e, &inv_l)
        };
        let lam_sq = big_mul(&lambda, &lambda);
        let u1 = big_sub(&lam_sq, &self.curve.a2);
        let u2 = big_sub(&u1, x1);
        let u3 = big_sub(&u2, x2);
        let x3 = big_rem_euclid(&u3, &self.curve.p);
        let v1 = big_sub(x1, &x3);
        let v2 = big_mul(&lambda, &v1);
        let v3 = big_sub(&v2, y1);
        let y3 = big_rem_euclid(&v3, &self.curve.p);
        Point::new(self.curve, Some(x3), Some(y3))
    }
}

impl Default for Point {
    /// The identity point of the built-in default curve, secp256k1.
    fn default() -> (r: Self)
        ensures
            r@ == PointModel::infinity_on(secp256k1_model()),
    {
        Point::new(EllipticCurve::default(), None, None)
    }
}

} // verus!
