//! The trusted boundary to `num_bigint`.
//!
//! Protocol values are unbounded non-negative integers held as
//! `num_bigint::BigUint`.  The type is opaque to the verifier; the
//! uninterpreted function [`nat_of`] names the integer a `BigUint` holds,
//! and each wrapper below states, over `nat_of`, what the one call its
//! body makes returns.

use vstd::prelude::*;

use num_bigint::BigUint;

verus! {

#[verifier::external_type_specification]
#[verifier::external_body]
pub struct ExBigUint(BigUint);

/// The non-negative integer a `BigUint` holds.
pub uninterp spec fn nat_of(v: BigUint) -> nat;

/// Relies on `BigUint: From<u64>`: the result holds the given value.
#[verifier::external_body]
pub(crate) fn big_from_u64(n: u64) -> (r: BigUint)
    ensures
        nat_of(r) == n as nat,
{
    BigUint::from(n)
}

/// Relies on `num_traits::Zero::is_zero`: whether the held integer is zero.
#[verifier::external_body]
pub(crate) fn big_is_zero(a: &BigUint) -> (r: bool)
    ensures
        r == (nat_of(*a) == 0),
{
    num_traits::Zero::is_zero(a)
}

/// Relies on `<BigUint as PartialEq>::eq`: `BigUint`s are equal exactly
/// when they hold the same integer.
#[verifier::external_body]
pub(crate) fn big_eq(a: &BigUint, b: &BigUint) -> (r: bool)
    ensures
        r == (nat_of(*a) == nat_of(*b)),
{
    a == b
}

/// Relies on `<BigUint as Ord>::ge`: the order of `BigUint`s is the order
/// of the integers they hold.
#[verifier::external_body]
pub(crate) fn big_ge(a: &BigUint, b: &BigUint) -> (r: bool)
    ensures
        r == (nat_of(*a) >= nat_of(*b)),
{
    a >= b
}

/// Relies on `<BigUint as Clone>::clone`: the copy holds the same integer.
#[verifier::external_body]
pub(crate) fn big_clone(a: &BigUint) -> (r: BigUint)
    ensures
        nat_of(r) == nat_of(*a),
{
    a.clone()
}

/// Relies on `<&BigUint as Mul>::mul`: multiplication of the held integers.
#[verifier::external_body]
pub(crate) fn big_mul(a: &BigUint, b: &BigUint) -> (r: BigUint)
    ensures
        nat_of(r) == nat_of(*a) * nat_of(*b),
{
    a * b
}

/// Relies on `<&BigUint as Sub>::sub`: subtraction of the held integers;
/// it panics when the result would be negative, so that case is excluded.
#[verifier::external_body]
pub(crate) fn big_sub(a: &BigUint, b: &BigUint) -> (r: BigUint)
    requires
        nat_of(*b) <= nat_of(*a),
    ensures
        nat_of(r) == nat_of(*a) - nat_of(*b),
{
    a - b
}

/// Relies on `<&BigUint as Rem>::rem`: the remainder of the held integers;
/// it panics on a zero modulus, so that case is excluded.
#[verifier::external_body]
pub(crate) fn big_rem(a: &BigUint, m: &BigUint) -> (r: BigUint)
    requires
        nat_of(*m) > 0,
    ensures
        nat_of(r) == nat_of(*a) % nat_of(*m),
{
    a % m
}

/// Relies on `BigUint::modpow`: `(base ^ exp) mod m` on the held integers;
/// it panics on a zero modulus, so that case is excluded.
#[verifier::external_body]
pub(crate) fn big_modpow(base: &BigUint, exp: &BigUint, m: &BigUint) -> (r: BigUint)
    requires
        nat_of(*m) > 0,
    ensures
        nat_of(r) == vstd::arithmetic::power::pow(nat_of(*base) as int, nat_of(*exp)) % (
        nat_of(*m) as int),
{
    base.modpow(exp, m)
}

} // verus!
