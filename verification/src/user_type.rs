//! User records, the requests that create or authenticate them, and the
//! outward projections that never carry a password digest.

use vstd::prelude::*;

verus! {

/// A stored user row.  The password is held only as a one-way digest.
#[derive(Debug)]
pub struct User {
    pub id: u128,
    pub email: String,
    pub password_hash: String,
    pub created_at: u64,
    pub updated_at: Option<u64>,
}

impl User {
    /// Copies the row, contents and all.
    pub fn duplicate(&self) -> (r: User)
        ensures
            r == *self,
    {
        User {
            id: self.id,
            email: self.email.clone(),
            password_hash: self.password_hash.clone(),
            created_at: self.created_at,
            updated_at: self.updated_at,
        }
    }
}

/// A signup request: an email and a plaintext password.
#[derive(Debug)]
pub struct CreateUserRequest {
    pub email: String,
    pub password: String,
}

/// A login request: an email and a plaintext password.
#[derive(Debug)]
pub struct LoginRequest {
    pub email: String,
    pub password: String,
}

/// The public projection of a user row: everything but the password digest.
#[derive(Debug)]
pub struct UserResponse {
    pub id: u128,
    pub email: String,
    pub created_at: u64,
}

/// The projection that `UserResponse::from` returns: the row with the
/// password digest and the update timestamp stripped.
pub open spec fn spec_response_of(user: User) -> UserResponse {
    UserResponse { id: user.id, email: user.email, created_at: user.created_at }
}

impl From<User> for UserResponse {
    fn from(user: User) -> (r: Self) {
        UserResponse { id: user.id, email: user.email, created_at: user.created_at }
    }
}

impl vstd::std_specs::convert::FromSpecImpl<User> for UserResponse {
    open spec fn obeys_from_spec() -> bool {
        true
    }

    open spec fn from_spec(user: User) -> Self {
        spec_response_of(user)
    }
}

/// What a successful signup or login hands back: the public projection of
/// the user and a freshly minted token.
#[derive(Debug)]
pub struct AuthResponse {
    pub user: UserResponse,
    pub token: String,
}

/// The claims a token carries: a subject (the user id as a decimal digit
/// string) and an absolute expiry in seconds since the epoch.
#[derive(Debug)]
pub struct Claims {
    pub sub: Vec<u8>,
    pub exp: u64,
}

} // verus!
