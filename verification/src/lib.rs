//! A password-authenticated login service built on the Chaum-Pedersen
//! zero-knowledge proof of discrete-log equivalence.
//!
//! A client proves knowledge of a secret `x` derived from a password by
//! publishing the commitment `(g^x, h^x) mod p` once, and then, per login,
//! an ephemeral commitment `(g^k, h^k) mod p`, a server-chosen challenge
//! `c`, and the response `s = (k - c*x) mod q`.  The server accepts when
//! `g^s * y1^c == r1` and `h^s * y2^c == r2` modulo `p`.

pub mod assoc;
pub mod bigint;
pub mod cli;
pub mod client;
pub mod codec;
pub mod consts;
pub mod protocol;
pub mod random;
pub mod service;
pub mod theorems;
