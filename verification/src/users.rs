//! Accounts.

use vstd::prelude::*;
use crate::time::Timestamp;

verus! {

/// An account as stored in the `users` table.
#[derive(Clone, Debug)]
pub struct User {
    pub id: u128,
    pub email: String,
    pub password_hash: String,
    pub is_verified: bool,
    pub failed_login_attempts: i32,
    pub locked_until: Option<Timestamp>,
    pub created_at: Timestamp,
    pub updated_at: Timestamp,
}

/// What a client is shown of an account: never the password hash nor the
/// lock-out state.
#[derive(Clone, Debug)]
pub struct UserResponse {
    pub id: u128,
    pub email: String,
    pub is_verified: bool,
    pub created_at: Timestamp,
}

/// The client's view of `u`.
pub open spec fn user_response_of(u: User) -> UserResponse {
    UserResponse { id: u.id, email: u.email, is_verified: u.is_verified, created_at: u.created_at }
}

impl From<User> for UserResponse {
    fn from(u: User) -> (res: Self) {
        UserResponse { id: u.id, email: u.email, is_verified: u.is_verified, created_at: u.created_at }
    }
}

impl vstd::std_specs::convert::FromSpecImpl<User> for UserResponse {
    open spec fn obeys_from_spec() -> bool {
        true
    }

    open spec fn from_spec(u: User) -> Self {
        user_response_of(u)
    }
}

/// Law: what a client is shown of an account is the account's own id,
/// e-mail, verification flag and creation time, whichever way it is built
/// (`UserResponse::from` or the spec view).
pub proof fn lemma_user_response_copies_account(u: User)
    ensures
        user_response_of(u).id == u.id,
        user_response_of(u).email == u.email,
        user_response_of(u).is_verified == u.is_verified,
        user_response_of(u).created_at == u.created_at,
        <UserResponse as vstd::std_specs::convert::FromSpec<User>>::from_spec(u).id == u.id,
        <UserResponse as vstd::std_specs::convert::FromSpec<User>>::from_spec(u).email == u.email,
        <UserResponse as vstd::std_specs::convert::FromSpec<User>>::from_spec(u).is_verified == u.is_verified,
        <UserResponse as vstd::std_specs::convert::FromSpec<User>>::from_spec(u).created_at == u.created_at,
{
}

} // verus!
