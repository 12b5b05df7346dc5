//! Wire encoding of the protocol's big integers.
//!
//! A non-negative integer travels as its unsigned big-endian bytes.
//! [`be_val`] gives the integer a byte string denotes; [`min_be`] gives
//! the minimal encoding of an integer: no leading zero byte, and the
//! empty string for zero.  Decoding accepts any number of leading zero
//! bytes; encoding produces the minimal form.

use vstd::prelude::*;

use vstd::arithmetic::div_mod::{
    lemma_fundamental_div_mod, lemma_fundamental_div_mod_converse_div,
    lemma_fundamental_div_mod_converse_mod, lemma_mod_bound, lemma_small_mod,
};
use vstd::arithmetic::power::{lemma_pow_positive, pow};
use vstd::string::StringSliceAdditionalSpecFns;

use num_bigint::BigUint;

use crate::bigint::{big_is_zero, nat_of};

verus! {

/// The integer a big-endian byte string denotes.
pub open spec fn be_val(s: Seq<u8>) -> nat
    decreases s.len(),
{
    if s.len() == 0 {
        0
    } else {
        be_val(s.drop_last()) * 256 + s.last() as nat
    }
}

/// The minimal big-endian encoding of an integer: no leading zero byte,
/// and the empty string for zero.
pub open spec fn min_be(n: nat) -> Seq<u8>
    decreases n,
{
    if n == 0 {
        Seq::empty()
    } else {
        min_be(n / 256).push((n % 256) as u8)
    }
}

/// Whether a byte string is a minimal encoding: empty, or with a
/// non-zero first byte.
pub open spec fn minimal_be(s: Seq<u8>) -> bool {
    s.len() == 0 || s[0] != 0
}

/// Round trip: decoding the minimal encoding of any integer yields the
/// integer back.
pub proof fn lemma_min_be_round_trip(n: nat)
    ensures
        be_val(min_be(n)) == n,
    decreases n,
{
    if n > 0 {
        lemma_min_be_round_trip(n / 256);
        let s = min_be(n);
        assert(s.drop_last() =~= min_be(n / 256));
        lemma_fundamental_div_mod(n as int, 256);
        lemma_mod_bound(n as int, 256);
    }
}

/// The minimal encoding is indeed minimal, and empty exactly for zero.
pub proof fn lemma_min_be_minimal(n: nat)
    ensures
        minimal_be(min_be(n)),
        min_be(n).len() > 0 <==> n > 0,
    decreases n,
{
    if n > 0 {
        lemma_min_be_minimal(n / 256);
        if n < 256 {
            lemma_small_mod(n, 256);
        } else {
            assert(n / 256 > 0) by {
                lemma_fundamental_div_mod(n as int, 256);
                lemma_mod_bound(n as int, 256);
            }
            assert(min_be(n)[0] == min_be(n / 256)[0]);
        }
    }
}

/// A byte string with a non-zero first byte denotes at least
/// `256 ^ (len - 1)`.
pub proof fn lemma_be_val_lower_bound(s: Seq<u8>)
    requires
        s.len() > 0,
        s[0] != 0,
    ensures
        be_val(s) >= pow(256, (s.len() - 1) as nat),
    decreases s.len(),
{
    if s.len() == 1 {
        assert(be_val(s) == be_val(s.drop_last()) * 256 + s.last());
        assert(be_val(s) == s[0]);
        assert(pow(256, 0) == 1) by {
            vstd::arithmetic::power::lemma_pow0(256);
        }
    } else {
        lemma_be_val_lower_bound(s.drop_last());
        assert(pow(256, (s.len() - 1) as nat) == pow(256, (s.len() - 2) as nat) * 256) by {
            vstd::arithmetic::power::lemma_pow_adds(256, (s.len() - 2) as nat, 1);
            vstd::arithmetic::power::lemma_pow1(256);
        }
        assert(be_val(s.drop_last()) * 256 >= pow(256, (s.len() - 2) as nat) * 256);
    }
}

/// Two minimal encodings of the same integer are the same byte string.
pub proof fn lemma_be_val_injective_minimal(a: Seq<u8>, b: Seq<u8>)
    requires
        minimal_be(a),
        minimal_be(b),
        be_val(a) == be_val(b),
    ensures
        a == b,
    decreases a.len(),
{
    if a.len() == 0 && b.len() == 0 {
        assert(a =~= b);
    } else if a.len() == 0 {
        lemma_be_val_lower_bound(b);
        lemma_pow_positive(256, (b.len() - 1) as nat);
        assert(false);
    } else if b.len() == 0 {
        lemma_be_val_lower_bound(a);
        lemma_pow_positive(256, (a.len() - 1) as nat);
        assert(false);
    } else {
        let n = be_val(a) as int;
        lemma_fundamental_div_mod_converse_mod(n, 256, be_val(a.drop_last()) as int, a.last() as int);
        lemma_fundamental_div_mod_converse_div(n, 256, be_val(a.drop_last()) as int, a.last() as int);
        lemma_fundamental_div_mod_converse_mod(n, 256, be_val(b.drop_last()) as int, b.last() as int);
        lemma_fundamental_div_mod_converse_div(n, 256, be_val(b.drop_last()) as int, b.last() as int);
        assert(a.last() == b.last());
        assert(be_val(a.drop_last()) == be_val(b.drop_last()));
        assert(minimal_be(a.drop_last()));
        assert(minimal_be(b.drop_last()));
        lemma_be_val_injective_minimal(a.drop_last(), b.drop_last());
        assert(a =~= a.drop_last().push(a.last()));
        assert(b =~= b.drop_last().push(b.last()));
    }
}

/// Leading zero bytes do not change the denoted integer.
pub proof fn lemma_be_val_ignores_leading_zeros(k: nat, s: Seq<u8>)
    ensures
        be_val(Seq::new(k, |i| 0u8).add(s)) == be_val(s),
    decreases s.len(),
{
    let z = Seq::new(k, |i| 0u8);
    if s.len() == 0 {
        lemma_be_val_all_zeros(k);
        assert(z.add(s) =~= z);
    } else {
        lemma_be_val_ignores_leading_zeros(k, s.drop_last());
        assert(z.add(s).drop_last() =~= z.add(s.drop_last()));
        assert(z.add(s).last() == s.last());
    }
}

/// A string of zero bytes denotes zero.
pub proof fn lemma_be_val_all_zeros(k: nat)
    ensures
        be_val(Seq::new(k, |i| 0u8)) == 0,
    decreases k,
{
    if k > 0 {
        lemma_be_val_all_zeros((k - 1) as nat);
        let z = Seq::new(k, |i| 0u8);
        assert(z.drop_last() =~= Seq::new((k - 1) as nat, |i| 0u8));
        assert(z.last() == 0);
    }
}

/// Relies on `BigUint::to_bytes_be`: the big-endian bytes of the held
/// integer, with no leading zero byte for a positive value and the
/// single byte `0` for zero.
#[verifier::external_body]
pub(crate) fn big_to_bytes_be(v: &BigUint) -> (r: Vec<u8>)
    ensures
        be_val(r@) == nat_of(*v),
        nat_of(*v) > 0 ==> r@.len() > 0 && r@[0] != 0,
        nat_of(*v) == 0 ==> r@ =~= seq![0u8],
{
    v.to_bytes_be()
}

/// Relies on `BigUint::from_bytes_be`: the big-endian interpretation of
/// the bytes; leading zeros are accepted and the empty slice gives zero.
#[verifier::external_body]
pub fn deserialize(val: &[u8]) -> (r: BigUint)
    ensures
        nat_of(r) == be_val(val@),
{
    BigUint::from_bytes_be(val)
}

/// The wire encoding of a big integer: minimal big-endian bytes, with
/// zero encoded as the empty byte string.
pub fn serialize(val: BigUint) -> (r: Vec<u8>)
    ensures
        r@ == min_be(nat_of(val)),
        be_val(r@) == nat_of(val),
{
    proof {
        lemma_min_be_round_trip(nat_of(val));
    }
    if big_is_zero(&val) {
        let r: Vec<u8> = Vec::new();
        assert(r@ =~= min_be(nat_of(val)));
        r
    } else {
        let r = big_to_bytes_be(&val);
        proof {
            lemma_min_be_minimal(nat_of(val));
            lemma_be_val_injective_minimal(r@, min_be(nat_of(val)));
        }
        r
    }
}

/// The password-derived secret: the UTF-8 bytes of the string read as a
/// big-endian integer.  No hashing or stretching is applied; this is
/// the scheme's stated (and weak) derivation.
pub fn as_biguint(s: &str) -> (r: BigUint)
    ensures
        nat_of(r) == be_val(s.spec_bytes()),
{
    deserialize(s.as_bytes())
}

} // verus!
