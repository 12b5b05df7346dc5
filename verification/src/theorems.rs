//! The laws of the proof system.
//!
//! Stated over the mathematical parameters `(g, h, p, q)`.  The group
//! facts that the standard parameters provide — each generator has order
//! `q` in the group of units modulo `p` — are hypotheses here, written
//! with [`order_divides`] and [`exponents_injective`]; for the small
//! example parameters `(4, 9, 23, 11)` the first is proved below.

use vstd::prelude::*;

use vstd::arithmetic::div_mod::{
    lemma_add_mod_noop_right, lemma_fundamental_div_mod, lemma_mod_bound, lemma_mod_equivalence,
    lemma_mul_mod_noop_left, lemma_mul_mod_noop_right, lemma_small_mod,
};
use vstd::arithmetic::mul::lemma_mul_is_commutative;
use vstd::arithmetic::power::{
    lemma1_pow, lemma_pow1, lemma_pow_adds, lemma_pow_mod_noop, lemma_pow_multiplies, pow,
};

use crate::protocol::{pow_mod, respond_spec, verify_spec};

verus! {

/// `g` raised to the subgroup order `q` is the identity modulo `p`.
pub open spec fn order_divides(g: nat, p: nat, q: nat) -> bool {
    pow(g as int, q) % (p as int) == 1
}

/// Distinct exponents below `q` give distinct powers of `g` modulo `p`;
/// this is what it means for `g` to have order exactly `q`.
pub open spec fn exponents_injective(g: nat, p: nat, q: nat) -> bool {
    forall|a: nat, b: nat|
        a < q && b < q && #[trigger] pow(g as int, a) % (p as int) == #[trigger] pow(
            g as int,
            b,
        ) % (p as int) ==> a == b
}

/// In a group where `g ^ q mod p == 1`, exponents reduce modulo `q`.
pub proof fn lemma_pow_mod_exp_reduce(g: nat, p: nat, q: nat, e: nat)
    requires
        p > 1,
        q > 0,
        order_divides(g, p, q),
    ensures
        pow(g as int, e) % (p as int) == pow(g as int, e % q) % (p as int),
{
    let gi = g as int;
    let pi = p as int;
    let d = e / q;
    let r = e % q;
    lemma_fundamental_div_mod(e as int, q as int);
    assert(e == q * d + r);
    lemma_pow_adds(gi, q * d, r);
    assert(pow(gi, e) == pow(gi, q * d) * pow(gi, r));
    lemma_pow_multiplies(gi, q, d);
    assert(pow(gi, q * d) == pow(pow(gi, q), d));
    lemma_pow_mod_noop(pow(gi, q), d, pi);
    lemma1_pow(d);
    lemma_small_mod(1, p);
    assert(pow(gi, q * d) % pi == 1);
    lemma_mul_mod_noop_left(pow(gi, q * d), pow(gi, r), pi);
    assert(pow(gi, e) % pi == (1 * pow(gi, r)) % pi);
}

/// Exponents congruent modulo `q` give equal powers of `g` modulo `p`.
pub proof fn lemma_pow_mod_congruence(g: nat, p: nat, q: nat, e1: nat, e2: nat)
    requires
        p > 1,
        q > 0,
        order_divides(g, p, q),
        e1 % q == e2 % q,
    ensures
        pow(g as int, e1) % (p as int) == pow(g as int, e2) % (p as int),
{
    lemma_pow_mod_exp_reduce(g, p, q, e1);
    lemma_pow_mod_exp_reduce(g, p, q, e2);
}

/// What the verifier recomputes, as a single power of `g`: the product
/// `g^s * (g^x mod p)^c` is `g^(s + x*c)` modulo `p`.
proof fn lemma_recomputation_as_power(g: nat, p: nat, x: nat, c: nat, s: nat)
    requires
        p > 1,
    ensures
        (pow(g as int, s) * pow(pow_mod(g, x, p) as int, c)) % (p as int) == pow(
            g as int,
            s + x * c,
        ) % (p as int),
{
    let gi = g as int;
    let pi = p as int;
    let y = pow_mod(g, x, p);
    lemma_mod_bound(pow(gi, x), pi);
    assert(y as int == pow(gi, x) % pi);
    lemma_pow_mod_noop(pow(gi, x), c, pi);
    assert(pow(y as int, c) % pi == pow(pow(gi, x), c) % pi);
    lemma_pow_multiplies(gi, x, c);
    assert(pow(pow(gi, x), c) == pow(gi, x * c));
    lemma_mul_mod_noop_right(pow(gi, s), pow(y as int, c), pi);
    lemma_mul_mod_noop_right(pow(gi, s), pow(gi, x * c), pi);
    assert((pow(gi, s) * pow(y as int, c)) % pi == (pow(gi, s) * pow(gi, x * c)) % pi);
    lemma_pow_adds(gi, s, x * c);
}

/// The response exponent: `s + x*c` is congruent to `k` modulo `q` when
/// `s` is the honest response `(k - c*x) mod q`.
proof fn lemma_response_exponent(k: nat, c: nat, x: nat, q: nat)
    requires
        q > 0,
    ensures
        (respond_spec(k, c, x, q) + x * c) % q == k % q,
{
    let qi = q as int;
    let a = (k as int) - ((c * x) as int);
    let s = respond_spec(k, c, x, q);
    lemma_mod_bound(a, qi);
    assert(s as int == a % qi);
    lemma_add_mod_noop_right((x * c) as int, a, qi);
    assert(((x * c) as int + a % qi) % qi == ((x * c) as int + a) % qi);
    lemma_mul_is_commutative(x as int, c as int);
    assert((x * c) as int + a == k as int);
}

/// Completeness of the protocol: an honest prover who commits with the
/// secret `x`, commits ephemerally with `k`, and responds to the
/// challenge `c` with `(k - c*x) mod q`, is always accepted.
pub proof fn lemma_honest_prover_accepted(g: nat, h: nat, p: nat, q: nat, x: nat, k: nat, c: nat)
    requires
        p > 1,
        q > 0,
        order_divides(g, p, q),
        order_divides(h, p, q),
        1 <= x < q,
        1 <= k < q,
        1 <= c < q,
    ensures
        verify_spec(
            g,
            h,
            p,
            pow_mod(g, x, p),
            pow_mod(h, x, p),
            pow_mod(g, k, p),
            pow_mod(h, k, p),
            c,
            respond_spec(k, c, x, q),
        ),
{
    let s = respond_spec(k, c, x, q);
    lemma_recomputation_as_power(g, p, x, c, s);
    lemma_recomputation_as_power(h, p, x, c, s);
    lemma_response_exponent(k, c, x, q);
    lemma_pow_mod_congruence(g, p, q, s + x * c, k);
    lemma_pow_mod_congruence(h, p, q, s + x * c, k);
}

/// Rejection of a wrong secret: when the response is computed from a
/// secret `w` whose product with the challenge differs from `c * x`
/// modulo `q`, the verifier rejects.  (When `q` is prime, `c` lies in
/// `[1, q)` and `w != x` modulo `q`, that condition always holds; the
/// one escape is a challenge with `c*w == c*x` modulo `q`.)
pub proof fn lemma_wrong_secret_rejected(
    g: nat,
    h: nat,
    p: nat,
    q: nat,
    x: nat,
    w: nat,
    k: nat,
    c: nat,
)
    requires
        p > 1,
        q > 0,
        order_divides(g, p, q),
        exponents_injective(g, p, q),
        (c * x) % q != (c * w) % q,
    ensures
        !verify_spec(
            g,
            h,
            p,
            pow_mod(g, x, p),
            pow_mod(h, x, p),
            pow_mod(g, k, p),
            pow_mod(h, k, p),
            c,
            respond_spec(k, c, w, q),
        ),
{
    let gi = g as int;
    let pi = p as int;
    let qi = q as int;
    let s = respond_spec(k, c, w, q);
    let e = s + x * c;
    lemma_recomputation_as_power(g, p, x, c, s);
    if verify_spec(
        g,
        h,
        p,
        pow_mod(g, x, p),
        pow_mod(h, x, p),
        pow_mod(g, k, p),
        pow_mod(h, k, p),
        c,
        s,
    ) {
        assert(pow_mod(g, k, p) == pow(gi, e) % pi);
        lemma_pow_mod_exp_reduce(g, p, q, e);
        lemma_pow_mod_exp_reduce(g, p, q, k);
        lemma_mod_bound(e as int, qi);
        lemma_mod_bound(k as int, qi);
        assert(e % q == k % q);
        lemma_response_exponent(k, c, w, q);
        assert((s + w * c) % q == k % q);
        lemma_mod_equivalence(e as int, ((s + w * c) as nat) as int, qi);
        lemma_mod_equivalence((x * c) as int, (w * c) as int, qi);
        lemma_mul_is_commutative(x as int, c as int);
        lemma_mul_is_commutative(w as int, c as int);
        assert((c * x) % q == (c * w) % q);
        assert(false);
    }
}

/// Completeness at the example parameters: with `g = 4`, `h = 9`,
/// `p = 23`, `q = 11`, every honest run over `x, k, c` in `[1, 11)` is
/// accepted.
pub proof fn lemma_example_honest_prover_accepted(x: nat, k: nat, c: nat)
    requires
        1 <= x < 11,
        1 <= k < 11,
        1 <= c < 11,
    ensures
        verify_spec(
            4,
            9,
            23,
            pow_mod(4, x, 23),
            pow_mod(9, x, 23),
            pow_mod(4, k, 23),
            pow_mod(9, k, 23),
            c,
            respond_spec(k, c, x, 11),
        ),
{
    lemma_example_parameters_valid();
    lemma_honest_prover_accepted(4, 9, 23, 11, x, k, c);
}

/// The table of powers of 4 modulo 23, for exponents below 11.
spec fn example_power_table(a: nat) -> nat {
    if a == 0 {
        1
    } else if a == 1 {
        4
    } else if a == 2 {
        16
    } else if a == 3 {
        18
    } else if a == 4 {
        3
    } else if a == 5 {
        12
    } else if a == 6 {
        2
    } else if a == 7 {
        8
    } else if a == 8 {
        9
    } else if a == 9 {
        13
    } else {
        6
    }
}

/// Each power of 4 modulo 23 with exponent below 11 is as tabulated.
proof fn lemma_example_power_table(a: nat)
    requires
        a < 11,
    ensures
        pow(4, a) % 23 == example_power_table(a),
    decreases a,
{
    if a == 0 {
        reveal_with_fuel(pow, 1);
    } else {
        lemma_example_power_table((a - 1) as nat);
        lemma_mul_mod_noop_left(pow(4, (a - 1) as nat), 4, 23);
        assert(pow(4, a) == pow(4, (a - 1) as nat) * 4) by {
            lemma_pow_adds(4, (a - 1) as nat, 1);
            lemma_pow1(4);
        }
    }
}

/// The example parameters `g = 4`, `h = 9`, `p = 23`, `q = 11` satisfy
/// the hypotheses of the completeness and rejection laws: both
/// generators have order dividing 11, and the powers of 4 are distinct
/// below 11.
pub proof fn lemma_example_parameters_valid()
    ensures
        order_divides(4, 23, 11),
        order_divides(9, 23, 11),
        exponents_injective(4, 23, 11),
{
    reveal_with_fuel(pow, 12);
    assert(pow(4, 11) % 23 == 1);
    assert(pow(9, 11) % 23 == 1);
    assert forall|a: nat, b: nat|
        a < 11 && b < 11 && #[trigger] pow(4, a) % 23 == #[trigger] pow(4, b) % 23 implies a
        == b by {
        lemma_example_power_table(a);
        lemma_example_power_table(b);
    }
}

} // verus!
