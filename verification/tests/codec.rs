use num_bigint::BigUint;

use zkp_auth::codec::{as_biguint, deserialize, serialize};
use zkp_auth::consts;

#[test]
fn zero_serializes_to_empty() {
    let empty: Vec<u8> = Vec::new();
    assert_eq!(serialize(BigUint::from(0_u8)), empty);
}

#[test]
fn empty_deserializes_to_zero() {
    assert_eq!(deserialize(&[]), BigUint::from(0_u8));
}

#[test]
fn serialization_is_minimal_big_endian() {
    assert_eq!(serialize(BigUint::from(1_u8)), vec![1]);
    assert_eq!(serialize(BigUint::from(255_u8)), vec![255]);
    assert_eq!(serialize(BigUint::from(256_u16)), vec![1, 0]);
    assert_eq!(serialize(BigUint::from(258_u16)), vec![1, 2]);
    assert_eq!(serialize(BigUint::from(0x0123_4567_u32)), vec![0x01, 0x23, 0x45, 0x67]);
}

#[test]
fn deserialization_accepts_leading_zeros() {
    assert_eq!(deserialize(&[0, 0, 0]), BigUint::from(0_u8));
    assert_eq!(deserialize(&[0, 0, 1, 2]), BigUint::from(258_u16));
    assert_eq!(deserialize(&[0, 255]), BigUint::from(255_u8));
}

#[test]
fn round_trip_through_both_directions() {
    for v in [0_u64, 1, 127, 128, 255, 256, 65535, 65536, 0xDEAD_BEEF, u64::MAX] {
        let n = BigUint::from(v);
        assert_eq!(deserialize(&serialize(n.clone())), n);
    }
    let p = consts::params().P;
    assert_eq!(deserialize(&serialize(p.clone())), p);
}

#[test]
fn password_bytes_become_the_secret() {
    // "ab" is 0x61 0x62 in UTF-8, read big-endian
    assert_eq!(as_biguint("ab"), BigUint::from(0x6162_u16));
    assert_eq!(as_biguint(""), BigUint::from(0_u8));
}

#[test]
fn standard_parameters_parse_to_expected_sizes() {
    let params = consts::params();
    assert_eq!(serialize(params.G), vec![2]);
    assert_eq!(params.P.bits(), 2048);
    assert_eq!(params.Q.bits(), 2047);
    // q == (p - 1) / 2
    let two = BigUint::from(2_u8);
    let one = BigUint::from(1_u8);
    assert_eq!((&params.P - &one) / &two, params.Q);
    // h == 2^(2^127 - 1) mod p, precomputed
    let f = (BigUint::from(1_u8) << 127_u32) - &one;
    assert_eq!(BigUint::from(2_u8).modpow(&f, &params.P), params.H);
}
