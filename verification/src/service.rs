//! The authentication server's state and its three transitions.
//!
//! The store keeps two tables: users by name, and pending challenges by
//! opaque `auth_id`.  Each table is an association list with distinct
//! keys, read as a `Map` in the contracts.  The three methods are the
//! three RPC transitions: register, create an authentication challenge,
//! and verify an authentication answer.

use vstd::prelude::*;

use num_bigint::BigUint;

use crate::assoc::{
    assoc_view, distinct_keys, lemma_view_absent, lemma_view_at, lemma_view_contains,
    lemma_view_push, lemma_view_remove, lemma_view_update,
};
use crate::bigint::{big_clone, nat_of};
use crate::codec::{be_val, deserialize, min_be, serialize};
use crate::protocol::{verify_spec, Parameters};
use crate::random::{alphanumeric, biguint, is_alphanumeric_string};

verus! {

/// The length of a pending-challenge identifier.
pub const AUTH_ID_LEN: usize = 32;

/// The length of a session identifier.
pub const SESSION_ID_LEN: usize = 12;

/// A user's long-term commitment `(y1, y2)`, set once on registration.
pub struct Credentials {
    pub y1: BigUint,
    pub y2: BigUint,
}

/// The integers a [`Credentials`] holds.
pub struct CredentialsModel {
    pub y1: nat,
    pub y2: nat,
}

impl View for Credentials {
    type V = CredentialsModel;

    open spec fn view(&self) -> CredentialsModel {
        CredentialsModel { y1: nat_of(self.y1), y2: nat_of(self.y2) }
    }
}

/// A user's place in the authentication lifecycle.
pub enum State {
    Authenticated { session_id: String },
    Authenticating { r1: BigUint, r2: BigUint, c: BigUint },
    Unauthenticated,
}

/// The abstract value of a [`State`].
pub enum StateModel {
    Authenticated { session_id: Seq<char> },
    Authenticating { r1: nat, r2: nat, c: nat },
    Unauthenticated,
}

impl View for State {
    type V = StateModel;

    open spec fn view(&self) -> StateModel {
        match self {
            State::Authenticated { session_id } => StateModel::Authenticated {
                session_id: session_id@,
            },
            State::Authenticating { r1, r2, c } => StateModel::Authenticating {
                r1: nat_of(*r1),
                r2: nat_of(*r2),
                c: nat_of(*c),
            },
            State::Unauthenticated => StateModel::Unauthenticated,
        }
    }
}

/// Everything the server keeps about one user.
pub struct UserData {
    pub state: State,
    pub credentials: Credentials,
}

/// The abstract value of a [`UserData`].
pub struct UserDataModel {
    pub state: StateModel,
    pub credentials: CredentialsModel,
}

impl View for UserData {
    type V = UserDataModel;

    open spec fn view(&self) -> UserDataModel {
        UserDataModel { state: self.state@, credentials: self.credentials@ }
    }
}

/// A record with the same credentials and the given state.
pub open spec fn with_state(u: UserDataModel, st: StateModel) -> UserDataModel {
    UserDataModel { state: st, credentials: u.credentials }
}

/// The errors the three transitions report.
#[derive(Clone, Copy, Debug, PartialEq, Eq, Structural)]
pub enum AuthError {
    AlreadyExists,
    NotFound,
    Unauthenticated,
    Internal,
}

/// What an answer-verification call reports and does, by outcome.
///
/// `Ok` is returned exactly when `aid` named a pending challenge whose
/// user was awaiting authentication and whose challenge accepts the
/// response `sv`: the user is then `Authenticated` under the fresh
/// session identifier and the pending entry is gone.  `NotFound` is an
/// unknown `aid`, with nothing changed.  `Unauthenticated` is a
/// rejected response: the pending entry is gone and the user reset.
/// `Internal` is a stale `aid` whose user is no longer awaiting
/// authentication: only the pending entry goes.
pub open spec fn verify_outcome(
    pre: AuthService,
    post: AuthService,
    aid: Seq<char>,
    sv: nat,
    res: Result<String, AuthError>,
) -> bool {
    match res {
        Ok(sid) => {
            let u = pre.pending()[aid];
            &&& pre.pending().contains_key(aid)
            &&& pre.users().contains_key(u)
            &&& pre.users()[u].state is Authenticating
            &&& pre.accepts(pre.users()[u], sv)
            &&& sid@.len() == SESSION_ID_LEN as nat
            &&& is_alphanumeric_string(sid@)
            &&& post.users() == pre.users().insert(
                u,
                with_state(pre.users()[u], (StateModel::Authenticated { session_id: sid@ })),
            )
            &&& post.pending() == pre.pending().remove(aid)
        },
        Err(e) => match e {
            AuthError::NotFound => {
                &&& !pre.pending().contains_key(aid)
                &&& post.users() == pre.users()
                &&& post.pending() == pre.pending()
            },
            AuthError::Unauthenticated => {
                let u = pre.pending()[aid];
                &&& pre.pending().contains_key(aid)
                &&& pre.users().contains_key(u)
                &&& pre.users()[u].state is Authenticating
                &&& !pre.accepts(pre.users()[u], sv)
                &&& post.users() == pre.users().insert(
                    u,
                    with_state(pre.users()[u], StateModel::Unauthenticated),
                )
                &&& post.pending() == pre.pending().remove(aid)
            },
            AuthError::Internal => {
                let u = pre.pending()[aid];
                &&& pre.pending().contains_key(aid)
                &&& !(pre.users()[u].state is Authenticating)
                &&& post.users() == pre.users()
                &&& post.pending() == pre.pending().remove(aid)
            },
            AuthError::AlreadyExists => false,
        },
    }
}

/// The server's store: the group parameters, the users by name, and the
/// pending challenges by `auth_id`.
pub struct AuthService {
    pub params: Parameters,
    pub user_datastore: Vec<(String, UserData)>,
    pub auth_pairs: Vec<(String, String)>,
}

impl AuthService {
    /// The users table as a map from names to records.
    pub open spec fn users(&self) -> Map<Seq<char>, UserDataModel> {
        assoc_view(self.user_datastore@)
    }

    /// The pending-challenge table as a map from `auth_id`s to names.
    pub open spec fn pending(&self) -> Map<Seq<char>, Seq<char>> {
        assoc_view(self.auth_pairs@)
    }

    pub open spec fn g(&self) -> nat {
        nat_of(self.params.G)
    }

    pub open spec fn h(&self) -> nat {
        nat_of(self.params.H)
    }

    pub open spec fn p(&self) -> nat {
        nat_of(self.params.P)
    }

    pub open spec fn q(&self) -> nat {
        nat_of(self.params.Q)
    }

    /// Well-formedness: distinct keys in both tables, workable group
    /// parameters, and every pending challenge names a registered user.
    pub open spec fn wf(&self) -> bool {
        &&& distinct_keys(self.user_datastore@)
        &&& distinct_keys(self.auth_pairs@)
        &&& nat_of(self.params.P) > 1
        &&& nat_of(self.params.Q) >= 2
        &&& forall|a: Seq<char>|
            #[trigger] self.pending().contains_key(a) ==> self.users().contains_key(
                self.pending()[a],
            )
    }

    /// The same group parameters as `other`'s.
    pub open spec fn same_params(&self, other: &AuthService) -> bool {
        self.params == other.params
    }

    /// Whether the record's pending challenge accepts the response `s`.
    pub open spec fn accepts(&self, u: UserDataModel, s: nat) -> bool {
        match u.state {
            StateModel::Authenticating { r1, r2, c } => verify_spec(
                self.g(),
                self.h(),
                self.p(),
                u.credentials.y1,
                u.credentials.y2,
                r1,
                r2,
                c,
                s,
            ),
            _ => false,
        }
    }

    /// An empty store over the given parameters.
    pub fn new(params: Parameters) -> (s: AuthService)
        requires
            nat_of(params.P) > 1,
            nat_of(params.Q) >= 2,
        ensures
            s.wf(),
            s.params == params,
            s.users() == Map::<Seq<char>, UserDataModel>::empty(),
            s.pending() == Map::<Seq<char>, Seq<char>>::empty(),
    {
        AuthService { params, user_datastore: Vec::new(), auth_pairs: Vec::new() }
    }

    /// The index of the user's entry, if the name is registered.
    fn find_user(&self, user: &String) -> (r: Option<usize>)
        ensures
            match r {
                Some(i) => i < self.user_datastore@.len() && self.user_datastore@[i as int].0@
                    == user@,
                None => forall|i: int|
                    0 <= i < self.user_datastore@.len() ==> self.user_datastore@[i].0@ != user@,
            },
    {
        let mut i: usize = 0;
        while i < self.user_datastore.len()
            invariant
                i <= self.user_datastore@.len(),
                forall|j: int| 0 <= j < i ==> self.user_datastore@[j].0@ != user@,
            decreases self.user_datastore@.len() - i,
        {
            if self.user_datastore[i].0 == *user {
                return Some(i);
            }
            i += 1;
        }
        None
    }

    /// The index of the pending challenge, if the `auth_id` is known.
    fn find_pending(&self, auth_id: &String) -> (r: Option<usize>)
        ensures
            match r {
                Some(i) => i < self.auth_pairs@.len() && self.auth_pairs@[i as int].0@ == auth_id@,
                None => forall|i: int|
                    0 <= i < self.auth_pairs@.len() ==> self.auth_pairs@[i].0@ != auth_id@,
            },
    {
        let mut i: usize = 0;
        while i < self.auth_pairs.len()
            invariant
                i <= self.auth_pairs@.len(),
                forall|j: int| 0 <= j < i ==> self.auth_pairs@[j].0@ != auth_id@,
            decreases self.auth_pairs@.len() - i,
        {
            if self.auth_pairs[i].0 == *auth_id {
                return Some(i);
            }
            i += 1;
        }
        None
    }

    /// Register a new user under `user` with the wire-encoded long-term
    /// commitment `(y1, y2)`.  Fails with `AlreadyExists`, and changes
    /// nothing, exactly when the name is taken.
    pub fn register(&mut self, user: String, y1: Vec<u8>, y2: Vec<u8>) -> (r: Result<
        (),
        AuthError,
    >)
        requires
            old(self).wf(),
        ensures
            final(self).wf(),
            final(self).same_params(old(self)),
            match r {
                Ok(_) => !old(self).users().contains_key(user@) && final(self).users() == old(
                    self,
                ).users().insert(
                    user@,
                    (UserDataModel {
                        state: StateModel::Unauthenticated,
                        credentials: (CredentialsModel { y1: be_val(y1@), y2: be_val(y2@) }),
                    }),
                ) && final(self).pending() == old(self).pending(),
                Err(e) => e == AuthError::AlreadyExists && old(self).users().contains_key(user@)
                    && final(self).users() == old(self).users() && final(self).pending() == old(
                    self,
                ).pending(),
            },
    {
        let y1 = deserialize(y1.as_slice());
        let y2 = deserialize(y2.as_slice());
        match self.find_user(&user) {
            Some(i) => {
                proof {
                    lemma_view_at(self.user_datastore@, i as int);
                }
                Err(AuthError::AlreadyExists)
            },
            None => {
                proof {
                    lemma_view_absent(self.user_datastore@, user@);
                    lemma_view_push(
                        self.user_datastore@,
                        user,
                        UserData {
                            state: State::Unauthenticated,
                            credentials: Credentials { y1, y2 },
                        },
                    );
                }
                let user_details = UserData {
                    state: State::Unauthenticated,
                    credentials: Credentials { y1, y2 },
                };
                self.user_datastore.push((user, user_details));
                proof {
                    assert forall|a: Seq<char>| #[trigger] self.pending().contains_key(a) implies self.users().contains_key(self.pending()[a]) by {
                        assert(old(self).pending().contains_key(a));
                        assert(old(self).users().contains_key(old(self).pending()[a]));
                    }
                }
                Ok(())
            },
        }
    }

    /// Record the ephemeral commitment `(r1, r2)` for `user`, draw a
    /// fresh challenge `c` from `[1, Q)` and a fresh `auth_id`, and index
    /// the pending challenge.  A new challenge for the same user
    /// overwrites the one in the user's record, though an earlier
    /// `auth_id` stays indexed.  Fails with `NotFound`, and changes
    /// nothing, exactly when the user is not registered.
    pub fn create_authentication_challenge(&mut self, user: String, r1: Vec<u8>, r2: Vec<u8>) -> (res:
        Result<(String, Vec<u8>), AuthError>)
        requires
            old(self).wf(),
        ensures
            final(self).wf(),
            final(self).same_params(old(self)),
            match res {
                Ok(pair) => old(self).users().contains_key(user@) && pair.0@.len() == AUTH_ID_LEN
                    as nat && is_alphanumeric_string(pair.0@) && pair.1@ == min_be(be_val(pair.1@))
                    && 1 <= be_val(pair.1@) < old(self).q() && final(self).users() == old(
                    self,
                ).users().insert(
                    user@,
                    with_state(
                        old(self).users()[user@],
                        (StateModel::Authenticating {
                            r1: be_val(r1@),
                            r2: be_val(r2@),
                            c: be_val(pair.1@),
                        }),
                    ),
                ) && final(self).pending() == old(self).pending().insert(pair.0@, user@),
                Err(e) => e == AuthError::NotFound && !old(self).users().contains_key(user@)
                    && final(self).users() == old(self).users() && final(self).pending() == old(
                    self,
                ).pending(),
            },
    {
        let r1 = deserialize(r1.as_slice());
        let r2 = deserialize(r2.as_slice());
        let c = biguint(&self.params.Q);
        let auth_id = alphanumeric(AUTH_ID_LEN);
        match self.find_user(&user) {
            None => {
                proof {
                    lemma_view_absent(self.user_datastore@, user@);
                }
                Err(AuthError::NotFound)
            },
            Some(i) => {
                proof {
                    lemma_view_at(self.user_datastore@, i as int);
                }
                let ghost users_pre = self.user_datastore@;
                let (user_key, data) = self.user_datastore.remove(i);
                let new_data = UserData {
                    state: (State::Authenticating { r1, r2, c: big_clone(&c) }),
                    credentials: data.credentials,
                };
                let ghost gnew = new_data;
                self.user_datastore.insert(i, (user_key, new_data));
                proof {
                    assert(self.user_datastore@ =~= users_pre.update(
                        i as int,
                        (users_pre[i as int].0, gnew),
                    ));
                    lemma_view_update(users_pre, i as int, gnew);
                }
                let ghost pending_pre = self.auth_pairs@;
                let ghost guser = user;
                match self.find_pending(&auth_id) {
                    Some(j) => {
                        proof {
                            lemma_view_at(pending_pre, j as int);
                        }
                        let (aid_key, _stale_user) = self.auth_pairs.remove(j);
                        self.auth_pairs.insert(j, (aid_key, user));
                        proof {
                            assert(self.auth_pairs@ =~= pending_pre.update(
                                j as int,
                                (pending_pre[j as int].0, guser),
                            ));
                            lemma_view_update(pending_pre, j as int, guser);
                        }
                    },
                    None => {
                        let aid_copy = auth_id.clone();
                        proof {
                            lemma_view_push(pending_pre, aid_copy, guser);
                        }
                        self.auth_pairs.push((aid_copy, user));
                    },
                }
                let c_bytes = serialize(c);
                proof {
                    assert forall|a: Seq<char>| #[trigger] self.pending().contains_key(a) implies self.users().contains_key(self.pending()[a]) by {
                        if a != auth_id@ {
                            assert(old(self).pending().contains_key(a));
                            assert(old(self).users().contains_key(old(self).pending()[a]));
                        }
                    }
                }
                Ok((auth_id, c_bytes))
            },
        }
    }

    /// Consume the pending challenge named by `auth_id` and check the
    /// wire-encoded response `s` against it.  On acceptance the user
    /// becomes `Authenticated` under a fresh session identifier; on
    /// rejection the user resets to `Unauthenticated`; either way the
    /// pending entry is removed.  Fails with `NotFound`, and changes
    /// nothing, exactly when `auth_id` is not indexed, and with
    /// `Internal`, removing only the pending entry, when the challenged
    /// user is not awaiting authentication.
    pub fn verify_authentication(&mut self, auth_id: String, s: Vec<u8>) -> (res: Result<
        String,
        AuthError,
    >)
        requires
            old(self).wf(),
        ensures
            final(self).wf(),
            final(self).same_params(old(self)),
            verify_outcome(*old(self), *final(self), auth_id@, be_val(s@), res),
    {
        let s = deserialize(s.as_slice());
        match self.find_pending(&auth_id) {
            None => {
                proof {
                    lemma_view_absent(self.auth_pairs@, auth_id@);
                }
                Err(AuthError::NotFound)
            },
            Some(j) => {
                proof {
                    lemma_view_at(self.auth_pairs@, j as int);
                }
                let ghost pending_pre = self.auth_pairs@;
                let (_aid, user_id) = self.auth_pairs.remove(j);
                proof {
                    lemma_view_remove(pending_pre, j as int);
                }
                match self.find_user(&user_id) {
                    None => {
                        // unreachable under well-formedness: the pending
                        // entry named a registered user
                        proof {
                            assert(self.user_datastore@ == old(self).user_datastore@);
                            assert(old(self).pending().contains_key(auth_id@));
                            assert(old(self).pending()[auth_id@] == user_id@);
                            assert(old(self).users().contains_key(user_id@));
                            lemma_view_absent(self.user_datastore@, user_id@);
                            assert(false);
                        }
                        Err(AuthError::Internal)
                    },
                    Some(i) => {
                        proof {
                            lemma_view_at(self.user_datastore@, i as int);
                        }
                        let ghost users_pre = self.user_datastore@;
                        let (user_key, data) = self.user_datastore.remove(i);
                        match data.state {
                            State::Authenticating { r1, r2, c } => {
                                let ok = self.params.verify(
                                    (&data.credentials.y1, &data.credentials.y2),
                                    (&r1, &r2),
                                    &c,
                                    &s,
                                );
                                if ok {
                                    let session_id = alphanumeric(SESSION_ID_LEN);
                                    let new_data = UserData {
                                        state: (State::Authenticated {
                                            session_id: session_id.clone(),
                                        }),
                                        credentials: data.credentials,
                                    };
                                    let ghost gnew = new_data;
                                    self.user_datastore.insert(i, (user_key, new_data));
                                    proof {
                                        assert(self.user_datastore@ =~= users_pre.update(
                                            i as int,
                                            (users_pre[i as int].0, gnew),
                                        ));
                                        lemma_view_update(users_pre, i as int, gnew);
                                        self.lemma_wf_after_consume(*old(self), auth_id@);
                                    }
                                    Ok(session_id)
                                } else {
                                    let new_data = UserData {
                                        state: State::Unauthenticated,
                                        credentials: data.credentials,
                                    };
                                    let ghost gnew = new_data;
                                    self.user_datastore.insert(i, (user_key, new_data));
                                    proof {
                                        assert(self.user_datastore@ =~= users_pre.update(
                                            i as int,
                                            (users_pre[i as int].0, gnew),
                                        ));
                                        lemma_view_update(users_pre, i as int, gnew);
                                        self.lemma_wf_after_consume(*old(self), auth_id@);
                                    }
                                    Err(AuthError::Unauthenticated)
                                }
                            },
                            other_state => {
                                let new_data = UserData {
                                    state: other_state,
                                    credentials: data.credentials,
                                };
                                let ghost gnew = new_data;
                                self.user_datastore.insert(i, (user_key, new_data));
                                proof {
                                    assert(self.user_datastore@ =~= users_pre.update(
                                        i as int,
                                        (users_pre[i as int].0, gnew),
                                    ));
                                    lemma_view_update(users_pre, i as int, gnew);
                                    assert(gnew@ == users_pre[i as int].1@);
                                    assert(self.users() =~= assoc_view(users_pre));
                                    self.lemma_wf_after_consume(*old(self), auth_id@);
                                }
                                Err(AuthError::Internal)
                            },
                        }
                    },
                }
            },
        }
    }

    /// The pending-to-users invariant survives consuming one pending
    /// entry and rewriting the state of one already registered user.
    proof fn lemma_wf_after_consume(&self, pre: AuthService, consumed: Seq<char>)
        requires
            pre.wf(),
            self.pending() == pre.pending().remove(consumed),
            forall|u: Seq<char>|
                #[trigger] self.users().contains_key(u) <==> pre.users().contains_key(u),
        ensures
            forall|a: Seq<char>|
                #[trigger] self.pending().contains_key(a) ==> self.users().contains_key(
                    self.pending()[a],
                ),
    {
        assert forall|a: Seq<char>| #[trigger] self.pending().contains_key(a) implies self.users().contains_key(self.pending()[a]) by {
            assert(pre.pending().contains_key(a));
            assert(pre.users().contains_key(pre.pending()[a]));
        }
    }
}

} // verus!
