//! Signup, login, user lookup and token checking: the flows that tie the
//! credential hasher, the token issuer and the store together.

use vstd::prelude::*;

use crate::password::{digest_matches, hash_password, verify_password, well_formed_digest};
use crate::store::{email_taken, user_id_present, Store};
use crate::token::{
    bound_to_secret, issue_token_at, issued_token, now_unix_seconds, spec_verify_token,
    verify_token_at, TokenError,
};
use crate::user_type::{
    spec_response_of, AuthResponse, CreateUserRequest, LoginRequest, UserResponse,
};

verus! {

/// Why signup, login or a user lookup failed.
///
/// The durable store's connectivity failure (`StoreUnavailable` in the
/// service's taxonomy) has no counterpart here: the in-memory store
/// model cannot fail, so an adapter over a real store would add that
/// variant at its own boundary.
#[derive(Clone, Copy, Debug, PartialEq, Eq, Structural)]
pub enum AuthError {
    /// Signup: the store already holds a user with that email.
    DuplicateEmail,
    /// Login: no user with that email, or the password does not match
    /// the stored digest — deliberately one and the same error, so a
    /// caller cannot tell which check failed.
    InvalidCredentials,
    /// Lookup: no user with that identifier.
    NotFound,
    /// The hashing backend failed, or a stored digest is malformed.
    HashFailure,
}

/// The one user row that signup adds: it carries the next fresh
/// identifier, the requested email, a well-formed digest that matches
/// the requested password, and the signup time; nothing else in the
/// store moves.
pub open spec fn signed_up(
    prev: Store,
    cur: Store,
    request: CreateUserRequest,
    now: u64,
) -> bool {
    &&& cur.users@.len() == prev.users@.len() + 1
    &&& cur.users@ == prev.users@.push(cur.users@.last())
    &&& cur.users@.last().id == prev.next_user_id
    &&& cur.users@.last().email@ == request.email@
    &&& digest_matches(request.password@, cur.users@.last().password_hash@)
    &&& well_formed_digest(cur.users@.last().password_hash@)
    &&& cur.users@.last().created_at == now
    &&& cur.users@.last().updated_at is None
    &&& cur.games@ == prev.games@
    &&& cur.next_user_id == prev.next_user_id + 1
    &&& cur.next_game_id == prev.next_game_id
}

/// A token for `user_id` whose expiry is some clock reading plus
/// `lifetime` seconds — hence never below `lifetime` itself.
pub open spec fn issued_with_lifetime(
    token: Seq<char>,
    user_id: u128,
    exp: u64,
    lifetime: u64,
    secret: Seq<u8>,
) -> bool {
    exp >= lifetime && issued_token(token, user_id, exp, secret)
}

pub struct UserService;

impl UserService {
    /// Registers a new user: rejects a taken email, hashes the password,
    /// inserts the row, and mints a token for the fresh identifier.  The
    /// store's own uniqueness rule still decides at insertion time; the
    /// lookup beforehand only fixes which error is reported, and nothing
    /// can slip in between under an exclusive borrow.
    pub fn signup(
        store: &mut Store,
        request: CreateUserRequest,
        now: u64,
        secret: &[u8],
        token_lifetime: u64,
    ) -> (r: Result<AuthResponse, AuthError>)
        requires
            old(store).inv(),
            old(store).next_user_id < u128::MAX,
            now + token_lifetime <= u64::MAX,
        ensures
            final(store).inv(),
            r == Err::<AuthResponse, AuthError>(AuthError::DuplicateEmail) <==> email_taken(
                old(store).users@,
                request.email@,
            ),
            r is Err ==> *final(store) == *old(store) && (r == Err::<AuthResponse, AuthError>(
                AuthError::DuplicateEmail,
            ) || r == Err::<AuthResponse, AuthError>(AuthError::HashFailure)),
            !email_taken(old(store).users@, request.email@) ==> (r is Ok || r == Err::<
                AuthResponse,
                AuthError,
            >(AuthError::HashFailure)),
            r matches Ok(resp) ==> {
                &&& !email_taken(old(store).users@, request.email@)
                &&& signed_up(*old(store), *final(store), request, now)
                &&& resp.user == spec_response_of(final(store).users@.last())
                &&& issued_token(
                    resp.token@,
                    final(store).users@.last().id,
                    (now + token_lifetime) as u64,
                    secret@,
                )
                &&& bound_to_secret(
                    resp.token@,
                    final(store).users@.last().id,
                    (now + token_lifetime) as u64,
                    secret@,
                )
            },
    {
        let CreateUserRequest { email, password } = request;
        if store.find_user_by_email(&email).is_some() {
            return Err(AuthError::DuplicateEmail);
        }
        let digest = match hash_password(password.as_str()) {
            Ok(d) => d,
            Err(_) => {
                return Err(AuthError::HashFailure);
            },
        };
        let user = match store.create_user(email, digest, now) {
            Ok(u) => u,
            Err(_) => {
                return Err(AuthError::DuplicateEmail);
            },
        };
        let user_id = user.id;
        let response = UserResponse::from(user);
        let token = issue_token_at(user_id, now, token_lifetime, secret);
        Ok(AuthResponse { user: response, token })
    }

    /// Logs a user in: looks the email up, checks the password against
    /// the stored digest, and mints a token.  A missing user and a wrong
    /// password collapse into the identical `InvalidCredentials`; when
    /// the stored digest is well-formed — and every digest signup mints
    /// is — a matching password is guaranteed to succeed.
    pub fn login(
        store: &Store,
        request: LoginRequest,
        now: u64,
        secret: &[u8],
        token_lifetime: u64,
    ) -> (r: Result<AuthResponse, AuthError>)
        requires
            store.inv(),
            now + token_lifetime <= u64::MAX,
        ensures
            !email_taken(store.users@, request.email@) ==> r == Err::<AuthResponse, AuthError>(
                AuthError::InvalidCredentials,
            ),
            r == Err::<AuthResponse, AuthError>(AuthError::InvalidCredentials) ==> (!email_taken(
                store.users@,
                request.email@,
            ) || exists|i: int|
                #![auto]
                0 <= i < store.users@.len() && store.users@[i].email@ == request.email@
                    && well_formed_digest(store.users@[i].password_hash@) && !digest_matches(
                    request.password@,
                    store.users@[i].password_hash@,
                )),
            (exists|i: int|
                #![auto]
                0 <= i < store.users@.len() && store.users@[i].email@ == request.email@
                    && well_formed_digest(store.users@[i].password_hash@) && !digest_matches(
                    request.password@,
                    store.users@[i].password_hash@,
                )) ==> r == Err::<AuthResponse, AuthError>(AuthError::InvalidCredentials),
            (exists|i: int|
                #![auto]
                0 <= i < store.users@.len() && store.users@[i].email@ == request.email@
                    && well_formed_digest(store.users@[i].password_hash@) && digest_matches(
                    request.password@,
                    store.users@[i].password_hash@,
                )) ==> r is Ok,
            r == Err::<AuthResponse, AuthError>(AuthError::HashFailure) <==> exists|i: int|
                #![auto]
                0 <= i < store.users@.len() && store.users@[i].email@ == request.email@
                    && !well_formed_digest(store.users@[i].password_hash@),
            r matches Ok(resp) ==> exists|i: int|
                #![auto]
                0 <= i < store.users@.len() && store.users@[i].email@ == request.email@
                    && digest_matches(request.password@, store.users@[i].password_hash@)
                    && resp.user == spec_response_of(store.users@[i]) && issued_token(
                    resp.token@,
                    store.users@[i].id,
                    (now + token_lifetime) as u64,
                    secret@,
                ) && bound_to_secret(
                    resp.token@,
                    store.users@[i].id,
                    (now + token_lifetime) as u64,
                    secret@,
                ),
            r is Err ==> (r == Err::<AuthResponse, AuthError>(AuthError::InvalidCredentials) || r
                == Err::<AuthResponse, AuthError>(AuthError::HashFailure)),
    {
        let user = match store.find_user_by_email(&request.email) {
            Some(u) => u,
            None => {
                return Err(AuthError::InvalidCredentials);
            },
        };
        proof {
            let i0 = choose|i0: int|
                0 <= i0 < store.users@.len() && #[trigger] store.users@[i0] == *user
                    && user.email@ == request.email@;
            assert forall|i: int|
                #![auto]
                0 <= i < store.users@.len() && store.users@[i].email@
                    == request.email@ implies store.users@[i] == *user by {
                if i != i0 {
                    assert(store.users@[i].email@ != store.users@[i0].email@);
                }
            }
        }
        let valid = match verify_password(request.password.as_str(), user.password_hash.as_str()) {
            Ok(b) => b,
            Err(_) => {
                return Err(AuthError::HashFailure);
            },
        };
        if !valid {
            return Err(AuthError::InvalidCredentials);
        }
        let token = issue_token_at(user.id, now, token_lifetime, secret);
        Ok(AuthResponse { user: UserResponse::from(user.duplicate()), token })
    }

    /// Looks a user up by identifier and returns the public projection.
    pub fn get_user(store: &Store, user_id: u128) -> (r: Result<UserResponse, AuthError>)
        ensures
            r is Err <==> !user_id_present(store.users@, user_id),
            r is Err ==> r == Err::<UserResponse, AuthError>(AuthError::NotFound),
            r matches Ok(resp) ==> exists|i: int|
                #![auto]
                0 <= i < store.users@.len() && store.users@[i].id == user_id && resp
                    == spec_response_of(store.users@[i]),
    {
        match store.find_user_by_id(user_id) {
            Some(u) => Ok(UserResponse::from(u.duplicate())),
            None => Err(AuthError::NotFound),
        }
    }

    /// Mints a token for `user_id` against the wall clock: valid for
    /// `token_lifetime` seconds counted from now, under the given
    /// secret.  Declines only when the clock reading plus the lifetime
    /// would not fit — so the expiry of a minted token is always some
    /// clock reading plus the lifetime, never less than the lifetime.
    pub fn generate_token(user_id: u128, secret: &[u8], token_lifetime: u64) -> (r: Option<String>)
        ensures
            r matches Some(t) ==> exists|exp: u64|
                #[trigger] issued_with_lifetime(t@, user_id, exp, token_lifetime, secret@),
            r is None ==> token_lifetime > 0,
    {
        let raw = now_unix_seconds();
        let now: u64 = if raw < 0 {
            0
        } else {
            raw as u64
        };
        if now > u64::MAX - token_lifetime {
            return None;
        }
        let t = issue_token_at(user_id, now, token_lifetime, secret);
        let r = Some(t);
        proof {
            let exp = (now + token_lifetime) as u64;
            assert(issued_with_lifetime(r.unwrap()@, user_id, exp, token_lifetime, secret@));
        }
        r
    }

    /// Validates a token against the wall clock: the verdict is exactly
    /// [`spec_verify_token`] at the moment the clock was read.
    pub fn verify_token(token: &str, secret: &[u8]) -> (r: Result<u128, TokenError>)
        ensures
            exists|now: u64| r == spec_verify_token(token@, secret@, now),
    {
        let raw = now_unix_seconds();
        let now: u64 = if raw < 0 {
            0
        } else {
            raw as u64
        };
        let r = verify_token_at(token, secret, now);
        proof {
            assert(r == spec_verify_token(token@, secret@, now));
        }
        r
    }
}

} // verus!
