use num_bigint::BigUint;

use zkp_auth::client::{login_commitment, login_response, registration_commitment};
use zkp_auth::consts;
use zkp_auth::protocol::Parameters;
use zkp_auth::service::{AuthError, AuthService, State};

#[allow(non_snake_case)]
fn toy_parameters() -> Parameters {
    let P = BigUint::from(23_u8);
    let Q = BigUint::from(11_u8);
    let G = BigUint::from(4_u8);
    let H = BigUint::from(9_u8);
    Parameters { G, P, Q, H }
}

fn state_of<'a>(svc: &'a AuthService, user: &str) -> &'a State {
    &svc.user_datastore.iter().find(|e| e.0 == user).expect("user registered").1.state
}

fn pending_len(svc: &AuthService) -> usize {
    svc.auth_pairs.len()
}

/// Run one full login for `user`, returning the auth_id and the result.
fn login(svc: &mut AuthService, params: &Parameters, user: &str, password: &str) -> (String, Result<String, AuthError>) {
    let (k, r1, r2) = login_commitment(params);
    let (auth_id, c) = svc
        .create_authentication_challenge(user.to_string(), r1, r2)
        .expect("challenge issued");
    let s = login_response(params, &k, &c, password);
    let res = svc.verify_authentication(auth_id.clone(), s);
    (auth_id, res)
}

#[test]
fn register_twice_reports_already_exists() {
    let params = toy_parameters();
    let mut svc = AuthService::new(toy_parameters());
    let (y1, y2) = registration_commitment(&params, "pw");
    assert!(svc.register("alice".to_string(), y1.clone(), y2.clone()).is_ok());
    assert_eq!(
        svc.register("alice".to_string(), y1, y2).unwrap_err(),
        AuthError::AlreadyExists
    );
}

#[test]
fn challenge_for_unknown_user_reports_not_found() {
    let params = toy_parameters();
    let mut svc = AuthService::new(toy_parameters());
    let (_k, r1, r2) = login_commitment(&params);
    assert_eq!(
        svc.create_authentication_challenge("bob".to_string(), r1, r2).unwrap_err(),
        AuthError::NotFound
    );
}

#[test]
fn happy_path_single_user() {
    let params = consts::params();
    let mut svc = AuthService::new(consts::params());
    let (y1, y2) = registration_commitment(&params, "open sesame");
    svc.register("alice".to_string(), y1, y2).unwrap();

    let (auth_id, res) = login(&mut svc, &params, "alice", "open sesame");
    let session_id = res.expect("honest login accepted");
    assert_eq!(session_id.len(), 12);
    assert!(session_id.chars().all(|c| c.is_ascii_alphanumeric()));
    assert!(matches!(state_of(&svc, "alice"), State::Authenticated { .. }));
    // the auth_id has been consumed
    assert_eq!(pending_len(&svc), 0);
    assert_eq!(
        svc.verify_authentication(auth_id, Vec::new()).unwrap_err(),
        AuthError::NotFound
    );
}

#[test]
fn wrong_password_reports_unauthenticated() {
    let params = toy_parameters();
    let mut svc = AuthService::new(toy_parameters());
    let (y1, y2) = registration_commitment(&params, "right");
    svc.register("alice".to_string(), y1, y2).unwrap();

    let (auth_id, res) = login(&mut svc, &params, "alice", "wrong");
    assert_eq!(res.unwrap_err(), AuthError::Unauthenticated);
    // the pending entry is gone and the user is reset
    assert_eq!(pending_len(&svc), 0);
    assert!(matches!(state_of(&svc, "alice"), State::Unauthenticated));
    assert_eq!(
        svc.verify_authentication(auth_id, Vec::new()).unwrap_err(),
        AuthError::NotFound
    );
}

#[test]
fn interleaved_logins_complete_independently() {
    let params = toy_parameters();
    let mut svc = AuthService::new(toy_parameters());
    let (y1, y2) = registration_commitment(&params, "alice pw");
    svc.register("alice".to_string(), y1, y2).unwrap();
    let (y1, y2) = registration_commitment(&params, "bob pw");
    svc.register("bob".to_string(), y1, y2).unwrap();

    // interleave: both challenges issued before either verify
    let (ka, r1a, r2a) = login_commitment(&params);
    let (aid_a, ca) = svc
        .create_authentication_challenge("alice".to_string(), r1a, r2a)
        .unwrap();
    let (kb, r1b, r2b) = login_commitment(&params);
    let (aid_b, cb) = svc
        .create_authentication_challenge("bob".to_string(), r1b, r2b)
        .unwrap();

    assert_ne!(aid_a, aid_b);

    let sb = login_response(&params, &kb, &cb, "bob pw");
    let sess_b = svc.verify_authentication(aid_b, sb).expect("bob accepted");
    let sa = login_response(&params, &ka, &ca, "alice pw");
    let sess_a = svc.verify_authentication(aid_a, sa).expect("alice accepted");

    assert_ne!(sess_a, sess_b);
    assert!(matches!(state_of(&svc, "alice"), State::Authenticated { .. }));
    assert!(matches!(state_of(&svc, "bob"), State::Authenticated { .. }));
}

#[test]
fn authenticated_user_can_start_a_new_login() {
    let params = toy_parameters();
    let mut svc = AuthService::new(toy_parameters());
    let (y1, y2) = registration_commitment(&params, "pw");
    svc.register("alice".to_string(), y1, y2).unwrap();

    let (_aid, res) = login(&mut svc, &params, "alice", "pw");
    res.expect("first login accepted");
    assert!(matches!(state_of(&svc, "alice"), State::Authenticated { .. }));

    // a fresh challenge moves the user back into authenticating, and a
    // second full login succeeds again
    let (_aid, res) = login(&mut svc, &params, "alice", "pw");
    res.expect("second login accepted");
    assert!(matches!(state_of(&svc, "alice"), State::Authenticated { .. }));
}

#[test]
fn second_challenge_replaces_the_first() {
    let params = toy_parameters();
    let mut svc = AuthService::new(toy_parameters());
    let (y1, y2) = registration_commitment(&params, "pw");
    svc.register("alice".to_string(), y1, y2).unwrap();

    let (_k1, r1, r2) = login_commitment(&params);
    let (aid_1, _c1) = svc
        .create_authentication_challenge("alice".to_string(), r1, r2)
        .unwrap();
    let (k2, r1, r2) = login_commitment(&params);
    let (aid_2, c2) = svc
        .create_authentication_challenge("alice".to_string(), r1, r2)
        .unwrap();

    // the per-user context now belongs to the second challenge, while the
    // first auth_id stays indexed
    assert_eq!(pending_len(&svc), 2);

    let s2 = login_response(&params, &k2, &c2, "pw");
    svc.verify_authentication(aid_2, s2).expect("second challenge verifies");

    // the stale auth_id now points at an authenticated user
    assert_eq!(
        svc.verify_authentication(aid_1, Vec::new()).unwrap_err(),
        AuthError::Internal
    );
    assert_eq!(pending_len(&svc), 0);
}
