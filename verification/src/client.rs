//! The client's side of the three-message exchange: everything it
//! computes between prompting and sending.
//!
//! The driver around these functions performs the RPCs and the
//! prompting; each step's arithmetic and encoding is here, stated over
//! the password's bytes and the received challenge bytes.

use vstd::prelude::*;

use vstd::string::StringSliceAdditionalSpecFns;

use num_bigint::BigUint;

use crate::bigint::nat_of;
use crate::codec::{as_biguint, be_val, deserialize, min_be, serialize};
use crate::protocol::{pow_mod, respond_spec, Parameters};
use crate::random::biguint;

verus! {

/// The wire-encoded long-term commitment a registration sends: the
/// commitment to the secret derived from the password's bytes.
pub fn registration_commitment(params: &Parameters, password: &str) -> (r: (Vec<u8>, Vec<u8>))
    requires
        nat_of(params.P) > 0,
    ensures
        ({
            let x = be_val(password.spec_bytes());
            &&& r.0@ == min_be(pow_mod(nat_of(params.G), x, nat_of(params.P)))
            &&& r.1@ == min_be(pow_mod(nat_of(params.H), x, nat_of(params.P)))
        }),
{
    let x = as_biguint(password);
    let (y1, y2) = params.obfuscate(&x);
    (serialize(y1), serialize(y2))
}

/// The start of a login: a fresh ephemeral secret `k` from `[1, Q)`
/// and its wire-encoded commitment, sent with the challenge request.
pub fn login_commitment(params: &Parameters) -> (r: (BigUint, Vec<u8>, Vec<u8>))
    requires
        nat_of(params.P) > 0,
        nat_of(params.Q) >= 2,
    ensures
        1 <= nat_of(r.0) < nat_of(params.Q),
        r.1@ == min_be(pow_mod(nat_of(params.G), nat_of(r.0), nat_of(params.P))),
        r.2@ == min_be(pow_mod(nat_of(params.H), nat_of(r.0), nat_of(params.P))),
{
    let k = biguint(&params.Q);
    let (r1, r2) = params.obfuscate(&k);
    (k, serialize(r1), serialize(r2))
}

/// The end of a login: the wire-encoded response to the received
/// challenge bytes, computed from the ephemeral secret and the
/// password-derived secret.
pub fn login_response(params: &Parameters, k: &BigUint, c: &[u8], password: &str) -> (r: Vec<u8>)
    requires
        nat_of(params.Q) > 0,
    ensures
        r@ == min_be(
            respond_spec(nat_of(*k), be_val(c@), be_val(password.spec_bytes()), nat_of(params.Q)),
        ),
{
    let c = deserialize(c);
    let x = as_biguint(password);
    let s = params.solve_challenge(k, &c, &x);
    serialize(s)
}

} // verus!
