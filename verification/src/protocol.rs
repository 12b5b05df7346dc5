//! The Chaum-Pedersen primitives: commitment, response and verification
//! over a prime-order subgroup.
//!
//! All operations are stated over the unbounded non-negative integers the
//! `BigUint` arguments hold, via [`crate::bigint::nat_of`].

use vstd::prelude::*;

use vstd::arithmetic::div_mod::{
    lemma_fundamental_div_mod, lemma_fundamental_div_mod_converse_mod, lemma_mod_bound,
    lemma_mul_mod_noop,
};
use vstd::arithmetic::power::pow;

use num_bigint::BigUint;

use crate::bigint::{big_eq, big_ge, big_is_zero, big_modpow, big_mul, big_rem, big_sub, nat_of};

verus! {

/// `(b ^ e) mod m` over unbounded integers.
pub open spec fn pow_mod(b: nat, e: nat, m: nat) -> nat
    recommends
        m > 0,
{
    (pow(b as int, e) % (m as int)) as nat
}

/// The canonical response `(k - c * x) mod q`, with the subtraction taken
/// over the signed integers and the result reduced into `[0, q)`.
pub open spec fn respond_spec(k: nat, c: nat, x: nat, q: nat) -> nat
    recommends
        q > 0,
{
    (((k as int) - ((c * x) as int)) % (q as int)) as nat
}

/// The verifier's acceptance condition: the ephemeral commitment
/// `(r1, r2)` matches what the response and the long-term commitment
/// reconstruct.
pub open spec fn verify_spec(
    g: nat,
    h: nat,
    p: nat,
    y1: nat,
    y2: nat,
    r1: nat,
    r2: nat,
    c: nat,
    s: nat,
) -> bool
    recommends
        p > 0,
{
    &&& r1 == (pow(g as int, s) * pow(y1 as int, c)) % (p as int)
    &&& r2 == (pow(h as int, s) * pow(y2 as int, c)) % (p as int)
}

/// The public group parameters: the safe prime `P`, the order
/// `Q = (P - 1) / 2` of the subgroup in use, and the two generators
/// `G` and `H`.
#[allow(non_snake_case)]
pub struct Parameters {
    pub G: BigUint,
    pub P: BigUint,
    pub Q: BigUint,
    pub H: BigUint,
}

impl Parameters {
    /// The commitment `(G^x mod P, H^x mod P)` to a secret `x`; it serves
    /// both for the long-term commitment to the password-derived secret
    /// and for the per-login ephemeral commitment.
    ///
    /// Both components are canonical representatives in `[0, P)`.
    pub fn obfuscate(&self, x: &BigUint) -> (r: (BigUint, BigUint))
        requires
            nat_of(self.P) > 0,
        ensures
            nat_of(r.0) == pow_mod(nat_of(self.G), nat_of(*x), nat_of(self.P)),
            nat_of(r.1) == pow_mod(nat_of(self.H), nat_of(*x), nat_of(self.P)),
            nat_of(r.0) < nat_of(self.P),
            nat_of(r.1) < nat_of(self.P),
    {
        let y1 = big_modpow(&self.G, x, &self.P);
        let y2 = big_modpow(&self.H, x, &self.P);
        proof {
            lemma_mod_bound(pow(nat_of(self.G) as int, nat_of(*x)), nat_of(self.P) as int);
            lemma_mod_bound(pow(nat_of(self.H) as int, nat_of(*x)), nat_of(self.P) as int);
        }
        (y1, y2)
    }

    /// The prover's response `s = (k - c * x) mod Q`, computed over the
    /// non-negative integers: when `c * x` exceeds `k` the difference is
    /// reduced and subtracted from `Q`, which yields the canonical
    /// representative in `[0, Q)` for every input.
    pub fn solve_challenge(&self, k: &BigUint, c: &BigUint, x: &BigUint) -> (s: BigUint)
        requires
            nat_of(self.Q) > 0,
        ensures
            nat_of(s) == respond_spec(nat_of(*k), nat_of(*c), nat_of(*x), nat_of(self.Q)),
            nat_of(s) < nat_of(self.Q),
    {
        let ghost kv = nat_of(*k) as int;
        let ghost qv = nat_of(self.Q) as int;
        let cx = big_mul(c, x);
        let ghost cxv = nat_of(cx) as int;
        if big_ge(k, &cx) {
            let s = big_rem(&big_sub(k, &cx), &self.Q);
            proof {
                lemma_mod_bound(kv - cxv, qv);
            }
            s
        } else {
            let t = big_rem(&big_sub(&cx, k), &self.Q);
            let ghost d = cxv - kv;
            let ghost tv = nat_of(t) as int;
            proof {
                lemma_mod_bound(d, qv);
                lemma_fundamental_div_mod(d, qv);
                assert(d == qv * (d / qv) + tv);
                assert((-(d / qv)) * qv == -(qv * (d / qv))) by (nonlinear_arith);
                assert((-(d / qv) - 1) * qv == -(qv * (d / qv)) - qv) by (nonlinear_arith);
                if tv == 0 {
                    assert(-d == (-(d / qv)) * qv + 0);
                    lemma_fundamental_div_mod_converse_mod(-d, qv, -(d / qv), 0);
                } else {
                    assert(-d == (-(d / qv) - 1) * qv + (qv - tv));
                    lemma_fundamental_div_mod_converse_mod(-d, qv, -(d / qv) - 1, qv - tv);
                }
            }
            if big_is_zero(&t) {
                t
            } else {
                big_sub(&self.Q, &t)
            }
        }
    }

    /// The verifier's check: recompute `v1 = G^s * y1^c mod P` and
    /// `v2 = H^s * y2^c mod P` and compare them with the ephemeral
    /// commitment `(r1, r2)`.
    pub fn verify(
        &self,
        ys: (&BigUint, &BigUint),
        rs: (&BigUint, &BigUint),
        c: &BigUint,
        s: &BigUint,
    ) -> (ok: bool)
        requires
            nat_of(self.P) > 0,
        ensures
            ok == verify_spec(
                nat_of(self.G),
                nat_of(self.H),
                nat_of(self.P),
                nat_of(*ys.0),
                nat_of(*ys.1),
                nat_of(*rs.0),
                nat_of(*rs.1),
                nat_of(*c),
                nat_of(*s),
            ),
    {
        let (y1, y2) = ys;
        let (r1, r2) = rs;
        let ghost pv = nat_of(self.P) as int;
        let gsp = big_modpow(&self.G, s, &self.P);
        let y1cp = big_modpow(y1, c, &self.P);
        let v1 = big_rem(&big_mul(&gsp, &y1cp), &self.P);
        let hsp = big_modpow(&self.H, s, &self.P);
        let y2cp = big_modpow(y2, c, &self.P);
        let v2 = big_rem(&big_mul(&hsp, &y2cp), &self.P);
        proof {
            lemma_mul_mod_noop(
                pow(nat_of(self.G) as int, nat_of(*s)),
                pow(nat_of(*y1) as int, nat_of(*c)),
                pv,
            );
            lemma_mul_mod_noop(
                pow(nat_of(self.H) as int, nat_of(*s)),
                pow(nat_of(*y2) as int, nat_of(*c)),
                pv,
            );
            lemma_mod_bound(pow(nat_of(self.G) as int, nat_of(*s)), pv);
            lemma_mod_bound(pow(nat_of(*y1) as int, nat_of(*c)), pv);
            lemma_mod_bound(pow(nat_of(self.H) as int, nat_of(*s)), pv);
            lemma_mod_bound(pow(nat_of(*y2) as int, nat_of(*c)), pv);
        }
        let ok1 = big_eq(r1, &v1);
        let ok2 = big_eq(r2, &v2);
        ok1 && ok2
    }
}

} // verus!
