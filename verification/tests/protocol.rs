use num_bigint::BigUint;

use zkp_auth::codec::as_biguint;
use zkp_auth::consts;
use zkp_auth::protocol::Parameters;
use zkp_auth::random;

#[allow(non_snake_case)]
fn toy_parameters() -> Parameters {
    let P = BigUint::from(23_u8);
    let Q = BigUint::from(11_u8);
    let G = BigUint::from(4_u8);
    let H = BigUint::from(9_u8);
    Parameters { G, P, Q, H }
}

#[test]
fn secret_obfuscation() {
    let params = toy_parameters();

    let x = BigUint::from(6_u8);

    let y1 = BigUint::from(2_u8);
    let y2 = BigUint::from(3_u8);

    assert_eq!(params.obfuscate(&x), (y1, y2));
}

#[test]
fn challenge_solution() {
    let params = toy_parameters();

    let k = BigUint::from(7_u8);
    let c = BigUint::from(4_u8);
    let x = BigUint::from(6_u8);

    assert_eq!(BigUint::from(5_u8), params.solve_challenge(&k, &c, &x))
}

#[test]
fn verification() {
    let params = toy_parameters();

    let y1 = BigUint::from(2_u8);
    let y2 = BigUint::from(3_u8);
    let r1 = BigUint::from(8_u8);
    let r2 = BigUint::from(4_u8);

    let c = BigUint::from(4_u8);
    let s = BigUint::from(5_u8);

    assert!(params.verify((&y1, &y2), (&r1, &r2), &c, &s));
}

#[test]
fn test_example() {
    let params = toy_parameters();

    let x = BigUint::from(6_u8);

    let (y1, y2) = params.obfuscate(&x);

    let k = BigUint::from(7_u8);
    let (r1, r2) = params.obfuscate(&k);

    let c = BigUint::from(4_u8);
    let s = params.solve_challenge(&k, &c, &x);

    assert!(params.verify((&y1, &y2), (&r1, &r2), &c, &s));
}

#[test]
fn authentication() {
    let params = consts::params();

    // Registration
    let x = as_biguint("oppenheimer");
    let (y1, y2) = params.obfuscate(&x);

    // Authentication attempt 1
    let k = random::biguint(&params.Q);
    let (r1, r2) = params.obfuscate(&k);

    let c = random::biguint(&params.Q);
    let s = params.solve_challenge(&k, &c, &x);

    assert!(params.verify((&y1, &y2), (&r1, &r2), &c, &s));

    // Authentication attempt 2: should fail (incorrect password)
    let x = as_biguint("barbie");

    let k = random::biguint(&params.Q);
    let (r1, r2) = params.obfuscate(&k);

    let c = random::biguint(&params.Q);
    let s = params.solve_challenge(&k, &c, &x);

    assert!(!params.verify((&y1, &y2), (&r1, &r2), &c, &s));
}

#[test]
fn honest_prover_accepted_everywhere_toy() {
    // exhaustive over the toy group: every honest run is accepted
    let params = toy_parameters();
    for x in 1_u8..11 {
        for k in 1_u8..11 {
            for c in 1_u8..11 {
                let x = BigUint::from(x);
                let k = BigUint::from(k);
                let c = BigUint::from(c);
                let (y1, y2) = params.obfuscate(&x);
                let (r1, r2) = params.obfuscate(&k);
                let s = params.solve_challenge(&k, &c, &x);
                assert!(params.verify((&y1, &y2), (&r1, &r2), &c, &s));
            }
        }
    }
}

#[test]
fn response_is_canonical() {
    let params = toy_parameters();
    // c * x far exceeds k, and (c*x - k) is a multiple of q: s must be 0
    let k = BigUint::from(4_u8);
    let c = BigUint::from(5_u8);
    let x = BigUint::from(3_u8);
    // c*x - k = 11 = q, so (k - c*x) mod q = 0
    assert_eq!(params.solve_challenge(&k, &c, &x), BigUint::from(0_u8));
    // and in general the response stays below q
    for k in 0_u8..12 {
        for c in 0_u8..12 {
            for x in 0_u8..12 {
                let s = params.solve_challenge(
                    &BigUint::from(k),
                    &BigUint::from(c),
                    &BigUint::from(x),
                );
                assert!(s < params.Q);
            }
        }
    }
}

#[test]
fn commitment_is_canonical() {
    let params = consts::params();
    let x = as_biguint("a long password whose secret exceeds the modulus? not quite, but large");
    let (y1, y2) = params.obfuscate(&x);
    assert!(y1 < params.P);
    assert!(y2 < params.P);
}

#[test]
fn random_biguint_stays_in_range() {
    let params = consts::params();
    let one = BigUint::from(1_u8);
    for _ in 0..32 {
        let v = random::biguint(&params.Q);
        assert!(v >= one);
        assert!(v < params.Q);
    }
}

#[test]
fn alphanumeric_length_and_charset() {
    for n in [0_usize, 1, 12, 32] {
        let s = random::alphanumeric(n);
        assert_eq!(s.len(), n);
        assert!(s.chars().all(|c| c.is_ascii_alphanumeric()));
    }
}
