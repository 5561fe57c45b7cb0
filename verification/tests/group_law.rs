use num_bigint::BigInt;
use num_traits::Num;

use ec_group::curve::{CurveError, EllipticCurve, EllipticCurveType};
use ec_group::point::Point;

fn hex(s: &str) -> BigInt {
    BigInt::from_str_radix(s, 16).unwrap()
}

fn secp256k1() -> EllipticCurve {
    EllipticCurve::default()
}

/// The base point of secp256k1.
fn g_point(curve: &EllipticCurve) -> Point {
    Point::new(
        curve.clone(),
        Some(hex("79BE667EF9DCBBAC55A06295CE870B07029BFCDB2DCE28D959F2815B16F81798")),
        Some(hex("483ADA7726A3C4655DA4FBFC0E1108A8FD17B448A68554199C47D08FFB10D4B8")),
    )
}

/// Twice the base point of secp256k1, from an independent reference.
fn g2_point(curve: &EllipticCurve) -> Point {
    Point::new(
        curve.clone(),
        Some(hex("C6047F9441ED7D6D3045406E95C07CD85C778E4B8CEF3CA7ABAC09B95C709EE5")),
        Some(hex("1AE168FEA63DC339A3C58419466CEAEEF7F632653266D0E1236431A950CFE52A")),
    )
}

/// Three times the base point of secp256k1, from an independent reference.
fn g3_point(curve: &EllipticCurve) -> Point {
    Point::new(
        curve.clone(),
        Some(hex("F9308A019258C31049344F85F89D5229B531C845836F99B08601F113BCE036F9")),
        Some(hex("388F7B0F632DE8140FE337E62A37F3566500A99934C2231B6CB9FD7584B8E672")),
    )
}

/// A small smooth curve `y^2 = x^3 - x` over `F_5`, which carries the
/// point `(0, 0)` of order two.
fn small_curve() -> EllipticCurve {
    EllipticCurve::new(
        String::from("tiny"),
        BigInt::from(8),
        BigInt::from(5),
        [BigInt::from(0), BigInt::from(-1), BigInt::from(0)],
    )
}

#[test]
fn default_curve_is_smooth() {
    assert!(secp256k1().is_smooth() == Ok(true));
    assert!(small_curve().is_smooth() == Ok(true));
}

#[test]
fn zero_discriminant_is_not_smooth() {
    let singular = EllipticCurve::new(
        String::from("singular"),
        BigInt::from(1),
        BigInt::from(5),
        [BigInt::from(0), BigInt::from(0), BigInt::from(0)],
    );
    assert!(singular.discriminant() == BigInt::from(0));
    assert!(singular.is_smooth() == Err(CurveError::NotSmooth));
}

#[test]
fn family_tag_follows_a2() {
    let c = small_curve();
    assert!(c.elliptic_curve_type == EllipticCurveType::Weierstrass);
    let m = EllipticCurve::new(
        String::from("montgomery"),
        BigInt::from(1),
        BigInt::from(17),
        [BigInt::from(3), BigInt::from(1), BigInt::from(0)],
    );
    assert!(m.elliptic_curve_type == EllipticCurveType::Montgomery);
}

#[test]
fn curve_equality_ignores_metadata() {
    let a = EllipticCurve::new(
        String::from("one name"),
        BigInt::from(1),
        BigInt::from(17),
        [BigInt::from(0), BigInt::from(2), BigInt::from(3)],
    );
    let b = EllipticCurve::new(
        String::from("another name"),
        BigInt::from(99),
        BigInt::from(17),
        [BigInt::from(0), BigInt::from(2), BigInt::from(3)],
    );
    assert!(a == b);
    let c = EllipticCurve::new(
        String::from("one name"),
        BigInt::from(1),
        BigInt::from(19),
        [BigInt::from(0), BigInt::from(2), BigInt::from(3)],
    );
    assert!(a != c);
}

#[test]
fn identity_law() {
    let curve = secp256k1();
    let g = g_point(&curve);
    let o = Point::new(curve.clone(), None, None);
    assert!(g.clone().add(o.clone()) == g);
    assert!(o.add(g.clone()) == g);
}

#[test]
fn inverse_law() {
    let curve = secp256k1();
    let g = g_point(&curve);
    let o = Point::new(curve.clone(), None, None);
    let neg_g = g.clone().neg();
    // -P keeps x and maps y to (-y) mod p, the canonical residue p - y here
    assert!(neg_g.x() == g.x());
    let p = curve.modulus();
    let expected_y = p - g.y().as_ref().unwrap();
    assert!(neg_g.y().as_ref().unwrap() == &expected_y);
    // P + (-P) = O
    assert!(g.add(neg_g) == o);
}

#[test]
fn infinity_is_its_own_negation() {
    let curve = secp256k1();
    let o = Point::new(curve, None, None);
    assert!(o.clone().neg() == o);
}

#[test]
fn doubling_matches_reference() {
    let curve = secp256k1();
    let g = g_point(&curve);
    assert!(g.clone().add(g) == g2_point(&curve));
}

#[test]
fn vertical_tangent_doubles_to_infinity() {
    let curve = small_curve();
    let two_torsion = Point::new(curve.clone(), Some(BigInt::from(0)), Some(BigInt::from(0)));
    let o = Point::new(curve, None, None);
    assert!(two_torsion.clone().add(two_torsion) == o);
}

#[test]
fn addition_commutes() {
    let curve = secp256k1();
    let g = g_point(&curve);
    let h = g2_point(&curve);
    assert!(g.clone().add(h.clone()) == h.add(g));
}

#[test]
fn small_curve_addition() {
    // on y^2 = x^3 - x over F_5: (2, 1) + (3, 2) = (1, 0)
    let curve = small_curve();
    let p1 = Point::new(curve.clone(), Some(BigInt::from(2)), Some(BigInt::from(1)));
    let p2 = Point::new(curve.clone(), Some(BigInt::from(3)), Some(BigInt::from(2)));
    let expected = Point::new(curve, Some(BigInt::from(1)), Some(BigInt::from(0)));
    assert!(p1.add(p2) == expected);
}

#[test]
fn coordinates_are_canonical() {
    let curve = secp256k1();
    let zero = BigInt::from(0);
    let p = curve.modulus().clone();
    let sum = g_point(&curve).add(g2_point(&curve));
    let x = sum.x().as_ref().unwrap();
    let y = sum.y().as_ref().unwrap();
    assert!(&zero <= x && x < &p);
    assert!(&zero <= y && y < &p);
    let neg_g = g_point(&curve).neg();
    let ny = neg_g.y().as_ref().unwrap();
    assert!(&zero <= ny && ny < &p);
}

#[test]
fn secp256k1_reference_scenario() {
    let curve = secp256k1();
    let g = g_point(&curve);
    let h = g2_point(&curve);
    let o = Point::new(curve.clone(), None, None);
    assert!(g.clone().add(h) == g3_point(&curve));
    let neg_g = g.clone().neg();
    assert!(g.clone().add(neg_g) == o);
    assert!(g.clone().add(o) == g);
}

#[test]
fn default_point_is_infinity_on_default_curve() {
    let p = Point::default();
    assert!(p.x().is_none());
    assert!(p.y().is_none());
    assert!(p.curve() == &secp256k1());
    let o = Point::new(secp256k1(), None, None);
    assert!(p == o);
}

#[test]
fn on_curve_validation() {
    let curve = secp256k1();
    assert!(g_point(&curve).is_on_curve());
    assert!(g2_point(&curve).is_on_curve());
    assert!(Point::new(curve.clone(), None, None).is_on_curve());
    let off = Point::new(curve, Some(BigInt::from(1)), Some(BigInt::from(1)));
    assert!(!off.is_on_curve());
    let sum = g_point(&secp256k1()).add(g2_point(&secp256k1()));
    assert!(sum.is_on_curve());
}
