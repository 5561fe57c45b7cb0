//! Group-law theorems, proved of the mathematical model that `Point::neg`
//! and `Point::add` are specified against.

use vstd::prelude::*;
use crate::point::{
    PointModel, PointType, spec_add, spec_neg, spec_double, spec_combine, tangent_slope,
    chord_slope, fermat_inv,
};
use vstd::arithmetic::power::pow;
use vstd::arithmetic::div_mod::{
    lemma_mod_bound, lemma_small_mod, lemma_mod_twice, lemma_add_mod_noop, lemma_sub_mod_noop,
    lemma_mul_mod_noop_left, lemma_mul_mod_noop_right, lemma_mul_mod_noop_general,
};
use vstd::arithmetic::mul::{lemma_mul_unary_negation, lemma_mul_cancels_negatives};

verus! {

/// Identity law: the point at infinity is neutral on both sides. Adding it
/// on the right returns the left operand itself; adding it on the left
/// returns the right operand, which for an infinite operand is the same
/// point up to curve metadata.
pub proof fn lemma_add_identity(a: PointModel, o: PointModel)
    requires
        a.wf(),
        o.wf(),
        o.point_type == PointType::Infinite,
        o.curve.alg_eq(a.curve),
    ensures
        spec_add(a, o) == a,
        spec_add(o, a).same_point(a),
        a.point_type == PointType::Regular ==> spec_add(o, a) == a,
{
}

/// Inverse law: a regular point plus its negation is the identity, and the
/// negation keeps `x` while mapping `y` to the canonical residue of `-y`.
pub proof fn lemma_add_inverse(a: PointModel)
    requires
        a.wf(),
        a.point_type == PointType::Regular,
        a.curve.p > 0,
    ensures
        spec_add(a, spec_neg(a)) == PointModel::infinity_on(a.curve),
        spec_neg(a).x == a.x,
        spec_neg(a).y == Some((-a.y.unwrap()) % a.curve.p),
{
}

/// Self-negation of infinity: the identity is its own negation.
pub proof fn lemma_neg_infinity(o: PointModel)
    requires
        o.point_type == PointType::Infinite,
    ensures
        spec_neg(o) == o,
{
}

/// Doubling-vs-general-addition consistency: for a regular point that is
/// neither its own negation nor on the vertical tangent, the general law
/// applied to two coinciding operands gives exactly the standalone doubling
/// formula.
pub proof fn lemma_double_consistent(a: PointModel)
    requires
        a.wf(),
        a.point_type == PointType::Regular,
        a.y.unwrap() != 0,
        !a.same_point(spec_neg(a)),
    ensures
        spec_add(a, a) == spec_double(a),
{
}

/// Vertical-tangent doubling: a regular point with `y = 0` doubles to the
/// identity.
pub proof fn lemma_double_vertical(a: PointModel)
    requires
        a.wf(),
        a.point_type == PointType::Regular,
        a.y == Some(0int),
        a.curve.p > 0,
    ensures
        spec_add(a, a) == PointModel::infinity_on(a.curve),
{
    lemma_small_mod(0nat, a.curve.p as nat);
    assert(spec_neg(a).y == Some(0int));
    assert(a.same_point(spec_neg(a)));
}

/// Reduction canonicality of negation: the result of negating a canonical
/// point is canonical.
pub proof fn lemma_neg_canonical(a: PointModel)
    requires
        a.wf(),
        a.canonical(),
        a.curve.p > 0,
    ensures
        spec_neg(a).canonical(),
{
    if a.point_type == PointType::Regular {
        lemma_mod_bound(-a.y.unwrap(), a.curve.p);
    }
}

/// Reduction canonicality of addition: every coordinate the group law
/// produces from canonical operands lies in `[0, p)`.
pub proof fn lemma_add_canonical(a: PointModel, b: PointModel)
    requires
        a.wf(),
        b.wf(),
        a.canonical(),
        b.canonical(),
        a.curve.alg_eq(b.curve),
        a.curve.p > 0,
    ensures
        spec_add(a, b).canonical(),
{
    if b.point_type != PointType::Infinite && a.point_type != PointType::Infinite
        && !b.same_point(spec_neg(a)) {
        let x1 = a.x.unwrap();
        let y1 = a.y.unwrap();
        let x2 = b.x.unwrap();
        let y2 = b.y.unwrap();
        if a.same_point(b) {
            if y1 != 0 {
                let lam = tangent_slope(x1, y1, a.curve);
                lemma_mod_bound(lam * lam - a.curve.a2 - x1 - x2, a.curve.p);
                let x3 = (lam * lam - a.curve.a2 - x1 - x2) % a.curve.p;
                lemma_mod_bound(lam * (x1 - x3) - y1, a.curve.p);
            }
        } else {
            let lam = chord_slope(x1, y1, x2, y2, a.curve.p);
            lemma_mod_bound(lam * lam - a.curve.a2 - x1 - x2, a.curve.p);
            let x3 = (lam * lam - a.curve.a2 - x1 - x2) % a.curve.p;
            lemma_mod_bound(lam * (x1 - x3) - y1, a.curve.p);
        }
    }
}

/// The sign of a power follows the parity of the exponent.
proof fn lemma_pow_neg_base(b: int, e: nat)
    ensures
        e % 2 == 0 ==> pow(-b, e) == pow(b, e),
        e % 2 == 1 ==> pow(-b, e) == -pow(b, e),
    decreases e,
{
    reveal(pow);
    if e != 0 {
        lemma_pow_neg_base(b, (e - 1) as nat);
        assert(pow(-b, e) == (-b) * pow(-b, (e - 1) as nat));
        assert(pow(b, e) == b * pow(b, (e - 1) as nat));
        lemma_mul_unary_negation(b, pow(b, (e - 1) as nat));
        lemma_mul_cancels_negatives(b, pow(b, (e - 1) as nat));
    }
}

/// Commutativity: for distinct regular points that are not mutual inverses,
/// `P + Q` and `Q + P` are the same point. The last hypothesis says that the
/// Fermat exponentiation really inverts `x2 - x1` modulo `p`; by Fermat's
/// little theorem it holds whenever the field modulus is prime, which is the
/// curve invariant this engine is built on (an odd prime, hence the two
/// clauses before it).
pub proof fn lemma_add_commutes(a: PointModel, b: PointModel)
    requires
        a.wf(),
        b.wf(),
        a.point_type == PointType::Regular,
        b.point_type == PointType::Regular,
        !a.same_point(b),
        !b.same_point(spec_neg(a)),
        !a.same_point(spec_neg(b)),
        a.curve.alg_eq(b.curve),
        a.curve.p >= 3,
        a.curve.p % 2 == 1,
        ((b.x.unwrap() - a.x.unwrap()) * fermat_inv(b.x.unwrap() - a.x.unwrap(), a.curve.p))
            % a.curve.p == 1,
    ensures
        spec_add(a, b).same_point(spec_add(b, a)),
{
    let p = a.curve.p;
    let a2 = a.curve.a2;
    let x1 = a.x.unwrap();
    let y1 = a.y.unwrap();
    let x2 = b.x.unwrap();
    let y2 = b.y.unwrap();
    let d = x2 - x1;
    let e = y2 - y1;
    let exp = (p - 2) as nat;
    let pd = pow(d, exp);
    let i = pd % p;
    let lam = chord_slope(x1, y1, x2, y2, p);
    let lam2 = chord_slope(x2, y2, x1, y1, b.curve.p);

    // both sums take the general-addition branch
    assert(!b.same_point(a));
    assert(spec_add(a, b) == spec_combine(lam, x1, y1, x2, a.curve));
    assert(spec_add(b, a) == spec_combine(lam2, x2, y2, x1, b.curve));

    // the two slopes are congruent modulo p
    lemma_pow_neg_base(d, exp);
    assert(exp % 2 == 1);
    assert(pow(x1 - x2, exp) == -pd);
    assert(lam == e * i);
    assert(lam2 == (-e) * ((-pd) % p));
    lemma_mul_mod_noop_right(-e, -pd, p);
    lemma_mul_cancels_negatives(e, pd);
    lemma_mul_mod_noop_right(e, pd, p);
    assert(lam2 % p == lam % p);

    // the x coordinates agree
    let c = a2 + x1 + x2;
    lemma_mul_mod_noop_general(lam, lam, p);
    lemma_mul_mod_noop_general(lam2, lam2, p);
    assert((lam2 * lam2) % p == (lam * lam) % p);
    lemma_sub_mod_noop(lam * lam, c, p);
    lemma_sub_mod_noop(lam2 * lam2, c, p);
    let x3 = (lam * lam - a2 - x1 - x2) % p;
    let x3b = (lam2 * lam2 - a2 - x2 - x1) % p;
    assert(x3b == x3);

    // lam * d is congruent to e modulo p, by the inverse hypothesis
    assert((d * i) % p == 1);
    assert(lam * d == e * (d * i)) by (nonlinear_arith)
        requires
            lam == e * i,
    ;
    lemma_mul_mod_noop_right(e, d * i, p);
    assert((lam * d) % p == e % p);

    // hence the y coordinates agree: the two numerators differ by
    // lam * d - e, a multiple of p
    let k = lam * d - e;
    lemma_sub_mod_noop(lam * d, e, p);
    lemma_small_mod(0nat, p as nat);
    assert(k % p == 0);
    let num1 = lam * (x1 - x3) - y1;
    lemma_mul_mod_noop_left(lam2, x2 - x3, p);
    lemma_mul_mod_noop_left(lam, x2 - x3, p);
    assert((lam2 * (x2 - x3)) % p == (lam * (x2 - x3)) % p);
    lemma_sub_mod_noop(lam2 * (x2 - x3), y2, p);
    lemma_sub_mod_noop(lam * (x2 - x3), y2, p);
    assert((lam2 * (x2 - x3) - y2) % p == (lam * (x2 - x3) - y2) % p);
    assert(lam * (x2 - x3) - y2 == num1 + k) by (nonlinear_arith)
        requires
            d == x2 - x1,
            e == y2 - y1,
            num1 == lam * (x1 - x3) - y1,
            k == lam * d - e,
    ;
    lemma_add_mod_noop(num1, k, p);
    lemma_mod_twice(num1, p);
    assert((lam2 * (x2 - x3b) - y2) % p == num1 % p);
    assert(spec_add(a, b).same_point(spec_add(b, a)));
}

} // verus!
