//! Curve description: parameters of a generalized Weierstrass equation
//! `y^2 = x^3 + a2*x^2 + a4*x + a6` over `F_p`, and the smoothness check.

use vstd::prelude::*;
use num_bigint::BigInt;
use crate::arith::{big_value, big_clone, big_eq, big_sub, big_mul, big_neg, big_add, big_from_u64, big_pow_u32};
use vstd::arithmetic::power2::{pow2, lemma_pow2, lemma_pow2_adds, lemma2_to64};

verus! {

/// Family tag, derived from the `x^2` coefficient: `Weierstrass` when
/// `a2 == 0`, `Montgomery` otherwise. Metadata only; it takes no part in
/// curve equality.
#[derive(Clone, Copy, PartialEq, Eq, Structural)]
pub enum EllipticCurveType {
    Weierstrass,
    Montgomery,
}

/// The single failure of this crate: a curve whose discriminant vanishes is
/// singular and its group law is undefined.
#[derive(Clone, Copy, PartialEq, Eq, Structural)]
pub enum CurveError {
    NotSmooth,
}

/// Mathematical model of a curve: its parameters as unbounded integers.
pub ghost struct CurveModel {
    pub name: Seq<char>,
    pub order: int,
    pub a2: int,
    pub a4: int,
    pub a6: int,
    pub p: int,
    pub curve_type: EllipticCurveType,
}

impl CurveModel {
    /// Two curves are the same algebraic object exactly when the
    /// coefficients and the field modulus agree; name, order and family tag
    /// are metadata.
    pub open spec fn alg_eq(self, other: CurveModel) -> bool {
        self.a2 == other.a2 && self.a4 == other.a4 && self.a6 == other.a6 && self.p == other.p
    }

    /// The family tag agrees with the coefficients it is derived from.
    pub open spec fn wf(self) -> bool {
        self.curve_type == (if self.a2 == 0 {
            EllipticCurveType::Weierstrass
        } else {
            EllipticCurveType::Montgomery
        })
    }

    /// Classical Weierstrass discriminant, over the signed integers with no
    /// modular reduction.
    pub open spec fn discriminant(self) -> int {
        let b2 = 2 * self.a2;
        let b4 = 2 * self.a4;
        let b6 = 4 * self.a6;
        let b8 = b2 * self.a6 - self.a4 * self.a4;
        (-b8) * (b2 * b2) - 8 * ((b4 * b4) * b4) - 27 * (b6 * b6) + 9 * ((b2 * b4) * b6)
    }
}

/// The parameters of the built-in default curve, secp256k1:
/// `p = 2^256 - 2^32 - 977`, coefficients `(0, 0, 7)`.
pub open spec fn secp256k1_model() -> CurveModel {
    CurveModel {
        name: "Secp256k1"@,
        order: 0xFFFFFFFFFFFFFFFFFFFFFFFFFFFFFFFEBAAEDCE6AF48A03BBFD25E8CD0364141 as int,
        a2: 0,
        a4: 0,
        a6: 7,
        p: 0xFFFFFFFFFFFFFFFFFFFFFFFFFFFFFFFFFFFFFFFFFFFFFFFFFFFFFFFEFFFFFC2F as int,
        curve_type: EllipticCurveType::Weierstrass,
    }
}

/// Immutable description of a curve. Construction always succeeds; the
/// smoothness of the curve is checked separately by `is_smooth`.
pub struct EllipticCurve {
    pub name: String,
    pub order: BigInt,
    pub a2: BigInt,
    pub a4: BigInt,
    pub a6: BigInt,
    pub p: BigInt,
    pub elliptic_curve_type: EllipticCurveType,
}

impl View for EllipticCurve {
    type V = CurveModel;

    open spec fn view(&self) -> CurveModel {
        CurveModel {
            name: self.name@,
            order: big_value(self.order),
            a2: big_value(self.a2),
            a4: big_value(self.a4),
            a6: big_value(self.a6),
            p: big_value(self.p),
            curve_type: self.elliptic_curve_type,
        }
    }
}

impl Clone for EllipticCurve {
    fn clone(&self) -> (r: Self)
        ensures
            r@ == self@,
    {
        EllipticCurve {
            name: self.name.clone(),
            order: big_clone(&self.order),
            a2: big_clone(&self.a2),
            a4: big_clone(&self.a4),
            a6: big_clone(&self.a6),
            p: big_clone(&self.p),
            elliptic_curve_type: self.elliptic_curve_type,
        }
    }
}

impl PartialEq for EllipticCurve {
    fn eq(&self, other: &Self) -> (r: bool) {
        big_eq(&self.a2, &other.a2) && big_eq(&self.a4, &other.a4) && big_eq(&self.a6, &other.a6)
            && big_eq(&self.p, &other.p)
    }
}

impl vstd::std_specs::cmp::PartialEqSpecImpl for EllipticCurve {
    open spec fn obeys_eq_spec() -> bool {
        true
    }

    open spec fn eq_spec(&self, other: &Self) -> bool {
        self@.alg_eq(other@)
    }
}

impl Eq for EllipticCurve {}

impl EllipticCurve {
    /// Build a curve from explicit parameters. Always succeeds; the family
    /// tag is derived from the `x^2` coefficient.
    pub fn new(name: String, order: BigInt, modulus: BigInt, coefficients: [BigInt; 3]) -> (r:
        Self)
        ensures
            r@ == (CurveModel {
                name: name@,
                order: big_value(order),
                a2: big_value(coefficients[0]),
                a4: big_value(coefficients[1]),
                a6: big_value(coefficients[2]),
                p: big_value(modulus),
                curve_type: if big_value(coefficients[0]) == 0 {
                    EllipticCurveType::Weierstrass
                } else {
                    EllipticCurveType::Montgomery
                },
            }),
            r@.wf(),
    {
        let zero = big_from_u64(0);
        let elliptic_curve_type = if big_eq(&coefficients[0], &zero) {
            EllipticCurveType::Weierstrass
        } else {
            EllipticCurveType::Montgomery
        };
        let a2 = big_clone(&coefficients[0]);
        let a4 = big_clone(&coefficients[1]);
        let a6 = big_clone(&coefficients[2]);
        EllipticCurve { name, order, a2, a4, a6, p: modulus, elliptic_curve_type }
    }

    /// The field modulus `p`, for callers outside the crate.
    pub fn modulus(&self) -> (r: &BigInt)
        ensures
            big_value(*r) == self@.p,
    {
        &self.p
    }

    /// Classical Weierstrass discriminant
    /// `-b8*b2^2 - 8*b4^3 - 27*b6^2 + 9*b2*b4*b6`, computed over the signed
    /// integers with no modular reduction.
    pub fn discriminant(&self) -> (r: BigInt)
        ensures
            big_value(r) == self@.discriminant(),
    {
        let two = big_from_u64(2);
        let four = big_from_u64(4);
        let b2 = big_mul(&two, &self.a2);
        let b4 = big_mul(&two, &self.a4);
        let b6 = big_mul(&four, &self.a6);
        let a4sq = big_mul(&self.a4, &self.a4);
        let b2a6 = big_mul(&b2, &self.a6);
        let b8 = big_sub(&b2a6, &a4sq);

        let nb8 = big_neg(&b8);
        let b2sq = big_mul(&b2, &b2);
        let t1 = big_mul(&nb8, &b2sq);

        let eight = big_from_u64(8);
        let b4sq = big_mul(&b4, &b4);
        let b4cu = big_mul(&b4sq, &b4);
        let t2 = big_mul(&eight, &b4cu);

        let twenty_seven = big_from_u64(27);
        let b6sq = big_mul(&b6, &b6);
        let t3 = big_mul(&twenty_seven, &b6sq);

        let nine = big_from_u64(9);
        let b2b4 = big_mul(&b2, &b4);
        let b2b4b6 = big_mul(&b2b4, &b6);
        let t4 = big_mul(&nine, &b2b4b6);

        let s1 = big_sub(&t1, &t2);
        let s2 = big_sub(&s1, &t3);
        big_add(&s2, &t4)
    }

    /// Fails with `NotSmooth` exactly when the discriminant vanishes, which
    /// makes the curve singular; otherwise the curve is smooth and its group
    /// law is well defined.
    pub fn is_smooth(&self) -> (r: Result<bool, CurveError>)
        ensures
            self@.discriminant() != 0 ==> r == Ok::<bool, CurveError>(true),
            self@.discriminant() == 0 ==> r == Err::<bool, CurveError>(CurveError::NotSmooth),
    {
        let d = self.discriminant();
        let zero = big_from_u64(0);
        if big_eq(&d, &zero) {
            Err(CurveError::NotSmooth)
        } else {
            Ok(true)
        }
    }
}

impl Default for EllipticCurve {
    /// The built-in default curve, secp256k1.
    fn default() -> (r: Self)
        ensures
            r@ == secp256k1_model(),
    {
        let name = String::from_str("Secp256k1");
        let two = big_from_u64(2);
        let p256 = big_pow_u32(&two, 256);
        let p32 = big_pow_u32(&two, 32);
        let c977 = big_from_u64(977);
        let m1 = big_sub(&p256, &p32);
        let modulus = big_sub(&m1, &c977);

        // 2^256 - order == 0x14551231950B75FC4402DA1732FC9BEBF, composed from
        // three 64-bit limbs.
        let t64 = big_pow_u32(&two, 64);
        let k1 = big_from_u64(0x4551231950B75FC4);
        let k0 = big_from_u64(0x402DA1732FC9BEBF);
        let hi = big_add(&t64, &k1);
        let hi_shifted = big_mul(&hi, &t64);
        let k = big_add(&hi_shifted, &k0);
        let order = big_sub(&p256, &k);

        proof {
            lemma_pow2(256);
            lemma_pow2(64);
            lemma_pow2(32);
            lemma_pow2_adds(64, 64);
            lemma_pow2_adds(128, 128);
            lemma2_to64();
            assert(pow2(64) == 0x10000000000000000);
            assert(pow2(32) == 0x100000000);
            assert(pow2(128) == 0x100000000000000000000000000000000) by (nonlinear_arith)
                requires
                    pow2(128) == pow2(64) * pow2(64),
                    pow2(64) == 0x10000000000000000,
            ;
            assert(pow2(256)
                == 0x10000000000000000000000000000000000000000000000000000000000000000)
                by (nonlinear_arith)
                requires
                    pow2(256) == pow2(128) * pow2(128),
                    pow2(128) == 0x100000000000000000000000000000000,
            ;
        }

        let zero_a2 = big_from_u64(0);
        let zero_a4 = big_from_u64(0);
        let seven = big_from_u64(7);
        Self::new(name, order, modulus, [zero_a2, zero_a4, seven])
    }
}

} // verus!
