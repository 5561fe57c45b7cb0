//! Trusted bridge to the arbitrary-precision integers of `num_bigint`.
//!
//! A `BigInt` is opaque to the verifier; `big_value` names the mathematical
//! integer it holds, and each wrapper below states, over that name, what one
//! `num_bigint` operation computes. Everything else in the crate is verified
//! against these contracts.

use vstd::prelude::*;
use vstd::arithmetic::power::pow;
use num_bigint::BigInt;

verus! {

#[verifier::external_type_specification]
#[verifier::external_body]
pub struct ExBigInt(BigInt);

/// The mathematical integer held by a `BigInt`.
pub uninterp spec fn big_value(b: BigInt) -> int;

/// The integer held by an optional `BigInt`, if any.
pub open spec fn opt_value(o: Option<BigInt>) -> Option<int> {
    match o {
        Some(b) => Some(big_value(b)),
        None => None,
    }
}

/// Relies on `BigInt::from(u64)`: an exact, lossless conversion.
#[verifier::external_body]
pub fn big_from_u64(v: u64) -> (r: BigInt)
    ensures
        big_value(r) == v as int,
{
    BigInt::from(v)
}

/// Relies on the derived `Clone` of `BigInt`: a clone holds the same integer.
#[verifier::external_body]
pub fn big_clone(a: &BigInt) -> (r: BigInt)
    ensures
        big_value(r) == big_value(*a),
{
    a.clone()
}

/// Relies on `PartialEq` of `BigInt`: the sign-and-magnitude representation
/// of an integer is unique, so representations are equal exactly when the
/// integers they hold are equal.
#[verifier::external_body]
pub fn big_eq(a: &BigInt, b: &BigInt) -> (r: bool)
    ensures
        r <==> big_value(*a) == big_value(*b),
{
    a == b
}

/// Relies on `Add` of `&BigInt`: exact integer addition.
#[verifier::external_body]
pub fn big_add(a: &BigInt, b: &BigInt) -> (r: BigInt)
    ensures
        big_value(r) == big_value(*a) + big_value(*b),
{
    a + b
}

/// Relies on `Sub` of `&BigInt`: exact integer subtraction.
#[verifier::external_body]
pub fn big_sub(a: &BigInt, b: &BigInt) -> (r: BigInt)
    ensures
        big_value(r) == big_value(*a) - big_value(*b),
{
    a - b
}

/// Relies on `Mul` of `&BigInt`: exact integer multiplication.
#[verifier::external_body]
pub fn big_mul(a: &BigInt, b: &BigInt) -> (r: BigInt)
    ensures
        big_value(r) == big_value(*a) * big_value(*b),
{
    a * b
}

/// Relies on `Neg` of `&BigInt`: exact integer negation.
#[verifier::external_body]
pub fn big_neg(a: &BigInt) -> (r: BigInt)
    ensures
        big_value(r) == -big_value(*a),
{
    -a
}

/// Relies on `BigInt::pow`: exact integer exponentiation.
#[verifier::external_body]
pub fn big_pow_u32(a: &BigInt, e: u32) -> (r: BigInt)
    ensures
        big_value(r) == pow(big_value(*a), e as nat),
{
    a.pow(e)
}

/// Relies on `num_traits::Euclid::rem_euclid` for `BigInt`: for a positive
/// modulus it returns the least non-negative residue, the value of the
/// mathematical `%` for a positive right operand.
#[verifier::external_body]
pub fn big_rem_euclid(a: &BigInt, m: &BigInt) -> (r: BigInt)
    requires
        big_value(*m) > 0,
    ensures
        big_value(r) == big_value(*a) % big_value(*m),
{
    num_traits::Euclid::rem_euclid(a, m)
}

/// Relies on `BigInt::modpow`: for a non-negative exponent and a positive
/// modulus it returns `(a ^ e) mod m`, rounded like `mod_floor` into
/// `[0, m)`, which is the mathematical `%` for a positive right operand.
#[verifier::external_body]
pub fn big_modpow(a: &BigInt, e: &BigInt, m: &BigInt) -> (r: BigInt)
    requires
        big_value(*e) >= 0,
        big_value(*m) > 0,
    ensures
        big_value(r) == pow(big_value(*a), big_value(*e) as nat) % big_value(*m),
{
    a.modpow(e, m)
}

} // verus!
