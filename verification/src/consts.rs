//! The fixed public group parameters.
//!
//! The 2048-bit MODP group: the safe prime `P` with generator `G = 2`,
//! the Sophie-Germain prime `Q = (P - 1) / 2`, and the second generator
//! `H = G ^ f mod P` for the fixed exponent `f = 2^127 - 1`.  All three
//! multi-kilobit values are embedded as big-endian byte literals, once
//! at the specification level and once in the builder, and parsed once;
//! `H` is precomputed, never recomputed at run time.

use vstd::prelude::*;

use vstd::arithmetic::power::{lemma_pow1, lemma_pow_increases, pow};

use crate::bigint::{big_from_u64, nat_of};
use crate::codec::{be_val, deserialize, lemma_be_val_lower_bound};
use crate::protocol::Parameters;

verus! {

/// The big-endian bytes of the 2048-bit MODP safe prime `P`.
pub open spec fn modulus_bytes() -> Seq<u8> {
    seq![
        0xFFu8, 0xFFu8, 0xFFu8, 0xFFu8, 0xFFu8, 0xFFu8, 0xFFu8, 0xFFu8, 0xC9u8, 0x0Fu8, 0xDAu8, 0xA2u8,
        0x21u8, 0x68u8, 0xC2u8, 0x34u8, 0xC4u8, 0xC6u8, 0x62u8, 0x8Bu8, 0x80u8, 0xDCu8, 0x1Cu8, 0xD1u8,
        0x29u8, 0x02u8, 0x4Eu8, 0x08u8, 0x8Au8, 0x67u8, 0xCCu8, 0x74u8, 0x02u8, 0x0Bu8, 0xBEu8, 0xA6u8,
        0x3Bu8, 0x13u8, 0x9Bu8, 0x22u8, 0x51u8, 0x4Au8, 0x08u8, 0x79u8, 0x8Eu8, 0x34u8, 0x04u8, 0xDDu8,
        0xEFu8, 0x95u8, 0x19u8, 0xB3u8, 0xCDu8, 0x3Au8, 0x43u8, 0x1Bu8, 0x30u8, 0x2Bu8, 0x0Au8, 0x6Du8,
        0xF2u8, 0x5Fu8, 0x14u8, 0x37u8, 0x4Fu8, 0xE1u8, 0x35u8, 0x6Du8, 0x6Du8, 0x51u8, 0xC2u8, 0x45u8,
        0xE4u8, 0x85u8, 0xB5u8, 0x76u8, 0x62u8, 0x5Eu8, 0x7Eu8, 0xC6u8, 0xF4u8, 0x4Cu8, 0x42u8, 0xE9u8,
        0xA6u8, 0x37u8, 0xEDu8, 0x6Bu8, 0x0Bu8, 0xFFu8, 0x5Cu8, 0xB6u8, 0xF4u8, 0x06u8, 0xB7u8, 0xEDu8,
        0xEEu8, 0x38u8, 0x6Bu8, 0xFBu8, 0x5Au8, 0x89u8, 0x9Fu8, 0xA5u8, 0xAEu8, 0x9Fu8, 0x24u8, 0x11u8,
        0x7Cu8, 0x4Bu8, 0x1Fu8, 0xE6u8, 0x49u8, 0x28u8, 0x66u8, 0x51u8, 0xECu8, 0xE4u8, 0x5Bu8, 0x3Du8,
        0xC2u8, 0x00u8, 0x7Cu8, 0xB8u8, 0xA1u8, 0x63u8, 0xBFu8, 0x05u8, 0x98u8, 0xDAu8, 0x48u8, 0x36u8,
        0x1Cu8, 0x55u8, 0xD3u8, 0x9Au8, 0x69u8, 0x16u8, 0x3Fu8, 0xA8u8, 0xFDu8, 0x24u8, 0xCFu8, 0x5Fu8,
        0x83u8, 0x65u8, 0x5Du8, 0x23u8, 0xDCu8, 0xA3u8, 0xADu8, 0x96u8, 0x1Cu8, 0x62u8, 0xF3u8, 0x56u8,
        0x20u8, 0x85u8, 0x52u8, 0xBBu8, 0x9Eu8, 0xD5u8, 0x29u8, 0x07u8, 0x70u8, 0x96u8, 0x96u8, 0x6Du8,
        0x67u8, 0x0Cu8, 0x35u8, 0x4Eu8, 0x4Au8, 0xBCu8, 0x98u8, 0x04u8, 0xF1u8, 0x74u8, 0x6Cu8, 0x08u8,
        0xCAu8, 0x18u8, 0x21u8, 0x7Cu8, 0x32u8, 0x90u8, 0x5Eu8, 0x46u8, 0x2Eu8, 0x36u8, 0xCEu8, 0x3Bu8,
        0xE3u8, 0x9Eu8, 0x77u8, 0x2Cu8, 0x18u8, 0x0Eu8, 0x86u8, 0x03u8, 0x9Bu8, 0x27u8, 0x83u8, 0xA2u8,
        0xECu8, 0x07u8, 0xA2u8, 0x8Fu8, 0xB5u8, 0xC5u8, 0x5Du8, 0xF0u8, 0x6Fu8, 0x4Cu8, 0x52u8, 0xC9u8,
        0xDEu8, 0x2Bu8, 0xCBu8, 0xF6u8, 0x95u8, 0x58u8, 0x17u8, 0x18u8, 0x39u8, 0x95u8, 0x49u8, 0x7Cu8,
        0xEAu8, 0x95u8, 0x6Au8, 0xE5u8, 0x15u8, 0xD2u8, 0x26u8, 0x18u8, 0x98u8, 0xFAu8, 0x05u8, 0x10u8,
        0x15u8, 0x72u8, 0x8Eu8, 0x5Au8, 0x8Au8, 0xACu8, 0xAAu8, 0x68u8, 0xFFu8, 0xFFu8, 0xFFu8, 0xFFu8,
        0xFFu8, 0xFFu8, 0xFFu8, 0xFFu8,
    ]
}

/// The big-endian bytes of the subgroup order `Q = (P - 1) / 2`.
pub open spec fn order_bytes() -> Seq<u8> {
    seq![
        0x7Fu8, 0xFFu8, 0xFFu8, 0xFFu8, 0xFFu8, 0xFFu8, 0xFFu8, 0xFFu8, 0xE4u8, 0x87u8, 0xEDu8, 0x51u8,
        0x10u8, 0xB4u8, 0x61u8, 0x1Au8, 0x62u8, 0x63u8, 0x31u8, 0x45u8, 0xC0u8, 0x6Eu8, 0x0Eu8, 0x68u8,
        0x94u8, 0x81u8, 0x27u8, 0x04u8, 0x45u8, 0x33u8, 0xE6u8, 0x3Au8, 0x01u8, 0x05u8, 0xDFu8, 0x53u8,
        0x1Du8, 0x89u8, 0xCDu8, 0x91u8, 0x28u8, 0xA5u8, 0x04u8, 0x3Cu8, 0xC7u8, 0x1Au8, 0x02u8, 0x6Eu8,
        0xF7u8, 0xCAu8, 0x8Cu8, 0xD9u8, 0xE6u8, 0x9Du8, 0x21u8, 0x8Du8, 0x98u8, 0x15u8, 0x85u8, 0x36u8,
        0xF9u8, 0x2Fu8, 0x8Au8, 0x1Bu8, 0xA7u8, 0xF0u8, 0x9Au8, 0xB6u8, 0xB6u8, 0xA8u8, 0xE1u8, 0x22u8,
        0xF2u8, 0x42u8, 0xDAu8, 0xBBu8, 0x31u8, 0x2Fu8, 0x3Fu8, 0x63u8, 0x7Au8, 0x26u8, 0x21u8, 0x74u8,
        0xD3u8, 0x1Bu8, 0xF6u8, 0xB5u8, 0x85u8, 0xFFu8, 0xAEu8, 0x5Bu8, 0x7Au8, 0x03u8, 0x5Bu8, 0xF6u8,
        0xF7u8, 0x1Cu8, 0x35u8, 0xFDu8, 0xADu8, 0x44u8, 0xCFu8, 0xD2u8, 0xD7u8, 0x4Fu8, 0x92u8, 0x08u8,
        0xBEu8, 0x25u8, 0x8Fu8, 0xF3u8, 0x24u8, 0x94u8, 0x33u8, 0x28u8, 0xF6u8, 0x72u8, 0x2Du8, 0x9Eu8,
        0xE1u8, 0x00u8, 0x3Eu8, 0x5Cu8, 0x50u8, 0xB1u8, 0xDFu8, 0x82u8, 0xCCu8, 0x6Du8, 0x24u8, 0x1Bu8,
        0x0Eu8, 0x2Au8, 0xE9u8, 0xCDu8, 0x34u8, 0x8Bu8, 0x1Fu8, 0xD4u8, 0x7Eu8, 0x92u8, 0x67u8, 0xAFu8,
        0xC1u8, 0xB2u8, 0xAEu8, 0x91u8, 0xEEu8, 0x51u8, 0xD6u8, 0xCBu8, 0x0Eu8, 0x31u8, 0x79u8, 0xABu8,
        0x10u8, 0x42u8, 0xA9u8, 0x5Du8, 0xCFu8, 0x6Au8, 0x94u8, 0x83u8, 0xB8u8, 0x4Bu8, 0x4Bu8, 0x36u8,
        0xB3u8, 0x86u8, 0x1Au8, 0xA7u8, 0x25u8, 0x5Eu8, 0x4Cu8, 0x02u8, 0x78u8, 0xBAu8, 0x36u8, 0x04u8,
        0x65u8, 0x0Cu8, 0x10u8, 0xBEu8, 0x19u8, 0x48u8, 0x2Fu8, 0x23u8, 0x17u8, 0x1Bu8, 0x67u8, 0x1Du8,
        0xF1u8, 0xCFu8, 0x3Bu8, 0x96u8, 0x0Cu8, 0x07u8, 0x43u8, 0x01u8, 0xCDu8, 0x93u8, 0xC1u8, 0xD1u8,
        0x76u8, 0x03u8, 0xD1u8, 0x47u8, 0xDAu8, 0xE2u8, 0xAEu8, 0xF8u8, 0x37u8, 0xA6u8, 0x29u8, 0x64u8,
        0xEFu8, 0x15u8, 0xE5u8, 0xFBu8, 0x4Au8, 0xACu8, 0x0Bu8, 0x8Cu8, 0x1Cu8, 0xCAu8, 0xA4u8, 0xBEu8,
        0x75u8, 0x4Au8, 0xB5u8, 0x72u8, 0x8Au8, 0xE9u8, 0x13u8, 0x0Cu8, 0x4Cu8, 0x7Du8, 0x02u8, 0x88u8,
        0x0Au8, 0xB9u8, 0x47u8, 0x2Du8, 0x45u8, 0x56u8, 0x55u8, 0x34u8, 0x7Fu8, 0xFFu8, 0xFFu8, 0xFFu8,
        0xFFu8, 0xFFu8, 0xFFu8, 0xFFu8,
    ]
}

/// The big-endian bytes of the second generator
/// `H = 2 ^ (2^127 - 1) mod P`.
pub open spec fn second_generator_bytes() -> Seq<u8> {
    seq![
        0x0Bu8, 0x46u8, 0x34u8, 0xB1u8, 0xB5u8, 0x37u8, 0x22u8, 0x8Eu8, 0x0Du8, 0xB8u8, 0x33u8, 0xC1u8,
        0x3Bu8, 0xFDu8, 0xB0u8, 0xB6u8, 0x51u8, 0x04u8, 0x95u8, 0x49u8, 0xD1u8, 0x27u8, 0xBDu8, 0xC1u8,
        0xC1u8, 0x88u8, 0x97u8, 0x3Eu8, 0x5Cu8, 0x49u8, 0x17u8, 0xF4u8, 0xE4u8, 0x6Au8, 0xC0u8, 0x06u8,
        0x0Eu8, 0xA7u8, 0xDAu8, 0x9Du8, 0x66u8, 0xF4u8, 0x89u8, 0xDDu8, 0x3Bu8, 0x3Du8, 0x8Cu8, 0x75u8,
        0xEEu8, 0xA3u8, 0xF8u8, 0x0Du8, 0x8Cu8, 0xCDu8, 0xA9u8, 0x87u8, 0x2Du8, 0x9Bu8, 0x49u8, 0x2Bu8,
        0xA0u8, 0xF4u8, 0x85u8, 0xD2u8, 0x53u8, 0x01u8, 0x52u8, 0x71u8, 0x70u8, 0x7Fu8, 0xC0u8, 0xE7u8,
        0x05u8, 0x97u8, 0x71u8, 0x7Au8, 0x92u8, 0x8Bu8, 0x2Eu8, 0xC0u8, 0xDCu8, 0xF8u8, 0x96u8, 0x77u8,
        0xA2u8, 0x11u8, 0x9Bu8, 0x56u8, 0xA3u8, 0xCEu8, 0x7Du8, 0x7Bu8, 0x8Bu8, 0x7Fu8, 0xD6u8, 0x6Au8,
        0x99u8, 0xBFu8, 0x03u8, 0x35u8, 0x2Du8, 0x03u8, 0x9Cu8, 0x2Cu8, 0x1Au8, 0x5Bu8, 0xD0u8, 0xB2u8,
        0x24u8, 0xCDu8, 0x4Au8, 0xECu8, 0xB1u8, 0xB5u8, 0x86u8, 0x13u8, 0x30u8, 0x7Bu8, 0xA3u8, 0x27u8,
        0x2Fu8, 0xECu8, 0xB0u8, 0x8Eu8, 0xB3u8, 0xD5u8, 0xC8u8, 0x1Fu8, 0x29u8, 0x99u8, 0xB5u8, 0xDDu8,
        0xB1u8, 0xF3u8, 0x6Bu8, 0x26u8, 0xDAu8, 0x25u8, 0x5Eu8, 0x98u8, 0x5Fu8, 0x81u8, 0x7Fu8, 0x1Fu8,
        0x84u8, 0x6Au8, 0xFFu8, 0x94u8, 0x89u8, 0x73u8, 0xE0u8, 0xC7u8, 0x28u8, 0x8Du8, 0x26u8, 0x6Eu8,
        0x44u8, 0x4Au8, 0xA9u8, 0x56u8, 0xD5u8, 0x6Cu8, 0xE3u8, 0x5Eu8, 0x0Au8, 0x31u8, 0xA4u8, 0xFEu8,
        0x62u8, 0x6Eu8, 0x15u8, 0xD8u8, 0x88u8, 0xC1u8, 0xCCu8, 0x09u8, 0x89u8, 0x7Au8, 0x1Fu8, 0xADu8,
        0x30u8, 0x05u8, 0x50u8, 0x36u8, 0x44u8, 0x16u8, 0xC8u8, 0x25u8, 0x62u8, 0x02u8, 0x67u8, 0x88u8,
        0xE6u8, 0x75u8, 0x3Cu8, 0xA0u8, 0x6Du8, 0x62u8, 0xBBu8, 0x0Du8, 0x3Bu8, 0x39u8, 0x76u8, 0xAFu8,
        0x8Fu8, 0xE0u8, 0x02u8, 0xEAu8, 0x02u8, 0xD2u8, 0x79u8, 0x94u8, 0x1Fu8, 0x4Bu8, 0xD1u8, 0x25u8,
        0x36u8, 0xC7u8, 0x8Eu8, 0x3Bu8, 0x09u8, 0x1Du8, 0x0Du8, 0xE4u8, 0x74u8, 0xE8u8, 0xFFu8, 0x05u8,
        0x0Fu8, 0xD3u8, 0x1Fu8, 0x78u8, 0xFBu8, 0x6Au8, 0x1Cu8, 0xABu8, 0x0Bu8, 0x9Eu8, 0x9Eu8, 0x0Au8,
        0x54u8, 0xD6u8, 0xCCu8, 0xDAu8, 0x5Fu8, 0x1Au8, 0x04u8, 0xB2u8, 0xC1u8, 0xB2u8, 0x65u8, 0x57u8,
        0x38u8, 0x53u8, 0x70u8, 0xEDu8,
    ]
}

/// The standard parameters, pinned exactly: each field holds the
/// integer its byte literal denotes, and `G` holds two.  The bound
/// clauses restate what the store and the protocol operations require
/// of workable parameters; the group-order facts are hypotheses of the
/// laws in [`crate::theorems`].
pub fn params() -> (ps: Parameters)
    ensures
        nat_of(ps.G) == 2,
        nat_of(ps.P) == be_val(modulus_bytes()),
        nat_of(ps.Q) == be_val(order_bytes()),
        nat_of(ps.H) == be_val(second_generator_bytes()),
        nat_of(ps.P) > 1,
        nat_of(ps.Q) >= 2,
        nat_of(ps.H) >= 1,
{
    let p_bytes: Vec<u8> = vec![
        0xFFu8, 0xFFu8, 0xFFu8, 0xFFu8, 0xFFu8, 0xFFu8, 0xFFu8, 0xFFu8, 0xC9u8, 0x0Fu8, 0xDAu8, 0xA2u8,
        0x21u8, 0x68u8, 0xC2u8, 0x34u8, 0xC4u8, 0xC6u8, 0x62u8, 0x8Bu8, 0x80u8, 0xDCu8, 0x1Cu8, 0xD1u8,
        0x29u8, 0x02u8, 0x4Eu8, 0x08u8, 0x8Au8, 0x67u8, 0xCCu8, 0x74u8, 0x02u8, 0x0Bu8, 0xBEu8, 0xA6u8,
        0x3Bu8, 0x13u8, 0x9Bu8, 0x22u8, 0x51u8, 0x4Au8, 0x08u8, 0x79u8, 0x8Eu8, 0x34u8, 0x04u8, 0xDDu8,
        0xEFu8, 0x95u8, 0x19u8, 0xB3u8, 0xCDu8, 0x3Au8, 0x43u8, 0x1Bu8, 0x30u8, 0x2Bu8, 0x0Au8, 0x6Du8,
        0xF2u8, 0x5Fu8, 0x14u8, 0x37u8, 0x4Fu8, 0xE1u8, 0x35u8, 0x6Du8, 0x6Du8, 0x51u8, 0xC2u8, 0x45u8,
        0xE4u8, 0x85u8, 0xB5u8, 0x76u8, 0x62u8, 0x5Eu8, 0x7Eu8, 0xC6u8, 0xF4u8, 0x4Cu8, 0x42u8, 0xE9u8,
        0xA6u8, 0x37u8, 0xEDu8, 0x6Bu8, 0x0Bu8, 0xFFu8, 0x5Cu8, 0xB6u8, 0xF4u8, 0x06u8, 0xB7u8, 0xEDu8,
        0xEEu8, 0x38u8, 0x6Bu8, 0xFBu8, 0x5Au8, 0x89u8, 0x9Fu8, 0xA5u8, 0xAEu8, 0x9Fu8, 0x24u8, 0x11u8,
        0x7Cu8, 0x4Bu8, 0x1Fu8, 0xE6u8, 0x49u8, 0x28u8, 0x66u8, 0x51u8, 0xECu8, 0xE4u8, 0x5Bu8, 0x3Du8,
        0xC2u8, 0x00u8, 0x7Cu8, 0xB8u8, 0xA1u8, 0x63u8, 0xBFu8, 0x05u8, 0x98u8, 0xDAu8, 0x48u8, 0x36u8,
        0x1Cu8, 0x55u8, 0xD3u8, 0x9Au8, 0x69u8, 0x16u8, 0x3Fu8, 0xA8u8, 0xFDu8, 0x24u8, 0xCFu8, 0x5Fu8,
        0x83u8, 0x65u8, 0x5Du8, 0x23u8, 0xDCu8, 0xA3u8, 0xADu8, 0x96u8, 0x1Cu8, 0x62u8, 0xF3u8, 0x56u8,
        0x20u8, 0x85u8, 0x52u8, 0xBBu8, 0x9Eu8, 0xD5u8, 0x29u8, 0x07u8, 0x70u8, 0x96u8, 0x96u8, 0x6Du8,
        0x67u8, 0x0Cu8, 0x35u8, 0x4Eu8, 0x4Au8, 0xBCu8, 0x98u8, 0x04u8, 0xF1u8, 0x74u8, 0x6Cu8, 0x08u8,
        0xCAu8, 0x18u8, 0x21u8, 0x7Cu8, 0x32u8, 0x90u8, 0x5Eu8, 0x46u8, 0x2Eu8, 0x36u8, 0xCEu8, 0x3Bu8,
        0xE3u8, 0x9Eu8, 0x77u8, 0x2Cu8, 0x18u8, 0x0Eu8, 0x86u8, 0x03u8, 0x9Bu8, 0x27u8, 0x83u8, 0xA2u8,
        0xECu8, 0x07u8, 0xA2u8, 0x8Fu8, 0xB5u8, 0xC5u8, 0x5Du8, 0xF0u8, 0x6Fu8, 0x4Cu8, 0x52u8, 0xC9u8,
        0xDEu8, 0x2Bu8, 0xCBu8, 0xF6u8, 0x95u8, 0x58u8, 0x17u8, 0x18u8, 0x39u8, 0x95u8, 0x49u8, 0x7Cu8,
        0xEAu8, 0x95u8, 0x6Au8, 0xE5u8, 0x15u8, 0xD2u8, 0x26u8, 0x18u8, 0x98u8, 0xFAu8, 0x05u8, 0x10u8,
        0x15u8, 0x72u8, 0x8Eu8, 0x5Au8, 0x8Au8, 0xACu8, 0xAAu8, 0x68u8, 0xFFu8, 0xFFu8, 0xFFu8, 0xFFu8,
        0xFFu8, 0xFFu8, 0xFFu8, 0xFFu8,
    ];
    let q_bytes: Vec<u8> = vec![
        0x7Fu8, 0xFFu8, 0xFFu8, 0xFFu8, 0xFFu8, 0xFFu8, 0xFFu8, 0xFFu8, 0xE4u8, 0x87u8, 0xEDu8, 0x51u8,
        0x10u8, 0xB4u8, 0x61u8, 0x1Au8, 0x62u8, 0x63u8, 0x31u8, 0x45u8, 0xC0u8, 0x6Eu8, 0x0Eu8, 0x68u8,
        0x94u8, 0x81u8, 0x27u8, 0x04u8, 0x45u8, 0x33u8, 0xE6u8, 0x3Au8, 0x01u8, 0x05u8, 0xDFu8, 0x53u8,
        0x1Du8, 0x89u8, 0xCDu8, 0x91u8, 0x28u8, 0xA5u8, 0x04u8, 0x3Cu8, 0xC7u8, 0x1Au8, 0x02u8, 0x6Eu8,
        0xF7u8, 0xCAu8, 0x8Cu8, 0xD9u8, 0xE6u8, 0x9Du8, 0x21u8, 0x8Du8, 0x98u8, 0x15u8, 0x85u8, 0x36u8,
        0xF9u8, 0x2Fu8, 0x8Au8, 0x1Bu8, 0xA7u8, 0xF0u8, 0x9Au8, 0xB6u8, 0xB6u8, 0xA8u8, 0xE1u8, 0x22u8,
        0xF2u8, 0x42u8, 0xDAu8, 0xBBu8, 0x31u8, 0x2Fu8, 0x3Fu8, 0x63u8, 0x7Au8, 0x26u8, 0x21u8, 0x74u8,
        0xD3u8, 0x1Bu8, 0xF6u8, 0xB5u8, 0x85u8, 0xFFu8, 0xAEu8, 0x5Bu8, 0x7Au8, 0x03u8, 0x5Bu8, 0xF6u8,
        0xF7u8, 0x1Cu8, 0x35u8, 0xFDu8, 0xADu8, 0x44u8, 0xCFu8, 0xD2u8, 0xD7u8, 0x4Fu8, 0x92u8, 0x08u8,
        0xBEu8, 0x25u8, 0x8Fu8, 0xF3u8, 0x24u8, 0x94u8, 0x33u8, 0x28u8, 0xF6u8, 0x72u8, 0x2Du8, 0x9Eu8,
        0xE1u8, 0x00u8, 0x3Eu8, 0x5Cu8, 0x50u8, 0xB1u8, 0xDFu8, 0x82u8, 0xCCu8, 0x6Du8, 0x24u8, 0x1Bu8,
        0x0Eu8, 0x2Au8, 0xE9u8, 0xCDu8, 0x34u8, 0x8Bu8, 0x1Fu8, 0xD4u8, 0x7Eu8, 0x92u8, 0x67u8, 0xAFu8,
        0xC1u8, 0xB2u8, 0xAEu8, 0x91u8, 0xEEu8, 0x51u8, 0xD6u8, 0xCBu8, 0x0Eu8, 0x31u8, 0x79u8, 0xABu8,
        0x10u8, 0x42u8, 0xA9u8, 0x5Du8, 0xCFu8, 0x6Au8, 0x94u8, 0x83u8, 0xB8u8, 0x4Bu8, 0x4Bu8, 0x36u8,
        0xB3u8, 0x86u8, 0x1Au8, 0xA7u8, 0x25u8, 0x5Eu8, 0x4Cu8, 0x02u8, 0x78u8, 0xBAu8, 0x36u8, 0x04u8,
        0x65u8, 0x0Cu8, 0x10u8, 0xBEu8, 0x19u8, 0x48u8, 0x2Fu8, 0x23u8, 0x17u8, 0x1Bu8, 0x67u8, 0x1Du8,
        0xF1u8, 0xCFu8, 0x3Bu8, 0x96u8, 0x0Cu8, 0x07u8, 0x43u8, 0x01u8, 0xCDu8, 0x93u8, 0xC1u8, 0xD1u8,
        0x76u8, 0x03u8, 0xD1u8, 0x47u8, 0xDAu8, 0xE2u8, 0xAEu8, 0xF8u8, 0x37u8, 0xA6u8, 0x29u8, 0x64u8,
        0xEFu8, 0x15u8, 0xE5u8, 0xFBu8, 0x4Au8, 0xACu8, 0x0Bu8, 0x8Cu8, 0x1Cu8, 0xCAu8, 0xA4u8, 0xBEu8,
        0x75u8, 0x4Au8, 0xB5u8, 0x72u8, 0x8Au8, 0xE9u8, 0x13u8, 0x0Cu8, 0x4Cu8, 0x7Du8, 0x02u8, 0x88u8,
        0x0Au8, 0xB9u8, 0x47u8, 0x2Du8, 0x45u8, 0x56u8, 0x55u8, 0x34u8, 0x7Fu8, 0xFFu8, 0xFFu8, 0xFFu8,
        0xFFu8, 0xFFu8, 0xFFu8, 0xFFu8,
    ];
    let h_bytes: Vec<u8> = vec![
        0x0Bu8, 0x46u8, 0x34u8, 0xB1u8, 0xB5u8, 0x37u8, 0x22u8, 0x8Eu8, 0x0Du8, 0xB8u8, 0x33u8, 0xC1u8,
        0x3Bu8, 0xFDu8, 0xB0u8, 0xB6u8, 0x51u8, 0x04u8, 0x95u8, 0x49u8, 0xD1u8, 0x27u8, 0xBDu8, 0xC1u8,
        0xC1u8, 0x88u8, 0x97u8, 0x3Eu8, 0x5Cu8, 0x49u8, 0x17u8, 0xF4u8, 0xE4u8, 0x6Au8, 0xC0u8, 0x06u8,
        0x0Eu8, 0xA7u8, 0xDAu8, 0x9Du8, 0x66u8, 0xF4u8, 0x89u8, 0xDDu8, 0x3Bu8, 0x3Du8, 0x8Cu8, 0x75u8,
        0xEEu8, 0xA3u8, 0xF8u8, 0x0Du8, 0x8Cu8, 0xCDu8, 0xA9u8, 0x87u8, 0x2Du8, 0x9Bu8, 0x49u8, 0x2Bu8,
        0xA0u8, 0xF4u8, 0x85u8, 0xD2u8, 0x53u8, 0x01u8, 0x52u8, 0x71u8, 0x70u8, 0x7Fu8, 0xC0u8, 0xE7u8,
        0x05u8, 0x97u8, 0x71u8, 0x7Au8, 0x92u8, 0x8Bu8, 0x2Eu8, 0xC0u8, 0xDCu8, 0xF8u8, 0x96u8, 0x77u8,
        0xA2u8, 0x11u8, 0x9Bu8, 0x56u8, 0xA3u8, 0xCEu8, 0x7Du8, 0x7Bu8, 0x8Bu8, 0x7Fu8, 0xD6u8, 0x6Au8,
        0x99u8, 0xBFu8, 0x03u8, 0x35u8, 0x2Du8, 0x03u8, 0x9Cu8, 0x2Cu8, 0x1Au8, 0x5Bu8, 0xD0u8, 0xB2u8,
        0x24u8, 0xCDu8, 0x4Au8, 0xECu8, 0xB1u8, 0xB5u8, 0x86u8, 0x13u8, 0x30u8, 0x7Bu8, 0xA3u8, 0x27u8,
        0x2Fu8, 0xECu8, 0xB0u8, 0x8Eu8, 0xB3u8, 0xD5u8, 0xC8u8, 0x1Fu8, 0x29u8, 0x99u8, 0xB5u8, 0xDDu8,
        0xB1u8, 0xF3u8, 0x6Bu8, 0x26u8, 0xDAu8, 0x25u8, 0x5Eu8, 0x98u8, 0x5Fu8, 0x81u8, 0x7Fu8, 0x1Fu8,
        0x84u8, 0x6Au8, 0xFFu8, 0x94u8, 0x89u8, 0x73u8, 0xE0u8, 0xC7u8, 0x28u8, 0x8Du8, 0x26u8, 0x6Eu8,
        0x44u8, 0x4Au8, 0xA9u8, 0x56u8, 0xD5u8, 0x6Cu8, 0xE3u8, 0x5Eu8, 0x0Au8, 0x31u8, 0xA4u8, 0xFEu8,
        0x62u8, 0x6Eu8, 0x15u8, 0xD8u8, 0x88u8, 0xC1u8, 0xCCu8, 0x09u8, 0x89u8, 0x7Au8, 0x1Fu8, 0xADu8,
        0x30u8, 0x05u8, 0x50u8, 0x36u8, 0x44u8, 0x16u8, 0xC8u8, 0x25u8, 0x62u8, 0x02u8, 0x67u8, 0x88u8,
        0xE6u8, 0x75u8, 0x3Cu8, 0xA0u8, 0x6Du8, 0x62u8, 0xBBu8, 0x0Du8, 0x3Bu8, 0x39u8, 0x76u8, 0xAFu8,
        0x8Fu8, 0xE0u8, 0x02u8, 0xEAu8, 0x02u8, 0xD2u8, 0x79u8, 0x94u8, 0x1Fu8, 0x4Bu8, 0xD1u8, 0x25u8,
        0x36u8, 0xC7u8, 0x8Eu8, 0x3Bu8, 0x09u8, 0x1Du8, 0x0Du8, 0xE4u8, 0x74u8, 0xE8u8, 0xFFu8, 0x05u8,
        0x0Fu8, 0xD3u8, 0x1Fu8, 0x78u8, 0xFBu8, 0x6Au8, 0x1Cu8, 0xABu8, 0x0Bu8, 0x9Eu8, 0x9Eu8, 0x0Au8,
        0x54u8, 0xD6u8, 0xCCu8, 0xDAu8, 0x5Fu8, 0x1Au8, 0x04u8, 0xB2u8, 0xC1u8, 0xB2u8, 0x65u8, 0x57u8,
        0x38u8, 0x53u8, 0x70u8, 0xEDu8,
    ];
    let p = deserialize(p_bytes.as_slice());
    let q = deserialize(q_bytes.as_slice());
    let h = deserialize(h_bytes.as_slice());
    proof {
        assert(p_bytes@ =~= modulus_bytes());
        assert(q_bytes@ =~= order_bytes());
        assert(h_bytes@ =~= second_generator_bytes());
        lemma_be_val_lower_bound(p_bytes@);
        lemma_be_val_lower_bound(q_bytes@);
        lemma_be_val_lower_bound(h_bytes@);
        lemma_pow1(256);
        lemma_pow_increases(256, 1, 255);
        assert(pow(256, 255) >= 256);
    }
    Parameters { G: big_from_u64(2), P: p, Q: q, H: h }
}

} // verus!
