//! Random sampling for challenges, ephemeral secrets and opaque
//! identifiers.
//!
//! Nothing can be promised about which value comes back — only the
//! range every outcome lies in.  All callers are verified for every
//! value these functions may return.

use vstd::prelude::*;

use num_bigint::BigUint;
use num_bigint::RandBigInt;
use rand::Rng;

use crate::bigint::nat_of;

verus! {

/// An ASCII letter or digit.
pub open spec fn is_alphanumeric_char(c: char) -> bool {
    ||| 'A' as int <= c as int <= 'Z' as int
    ||| 'a' as int <= c as int <= 'z' as int
    ||| '0' as int <= c as int <= '9' as int
}

/// Every character of the string is an ASCII letter or digit.
pub open spec fn is_alphanumeric_string(s: Seq<char>) -> bool {
    forall|i: int| 0 <= i < s.len() ==> is_alphanumeric_char(#[trigger] s[i])
}

/// Relies on rand's `Alphanumeric` distribution: every sampled character
/// is an ASCII letter or digit, drawn uniformly and independently.
#[verifier::external_body]
pub fn alphanumeric(n: usize) -> (r: String)
    ensures
        r@.len() == n as nat,
        is_alphanumeric_string(r@),
{
    rand::thread_rng().sample_iter(rand::distributions::Alphanumeric).take(n).map(
        char::from,
    ).collect()
}

/// Relies on `RandBigInt::gen_biguint_range` with `thread_rng`: a value
/// in `[1, ubound)`, drawn uniformly; it panics when the range is empty,
/// so upper bounds below two are excluded.
#[verifier::external_body]
pub fn biguint(ubound: &BigUint) -> (r: BigUint)
    requires
        nat_of(*ubound) >= 2,
    ensures
        1 <= nat_of(r) < nat_of(*ubound),
{
    rand::thread_rng().gen_biguint_range(&num_traits::One::one(), ubound)
}

} // verus!
