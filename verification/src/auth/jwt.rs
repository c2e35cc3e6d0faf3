//! The claims of an access token and what an authenticated request learns
//! from them. Signing and checking the token itself (HS256 over the claims'
//! JSON) is done by the caller with `jsonwebtoken`.

use vstd::prelude::*;
use crate::error::AppError;
use crate::ids::{lemma_uuid_text_reads_back, parse_uuid, uuid_parsed, uuid_text, uuid_to_text};
use crate::text::{owned, text_equals};
use crate::time::{can_add_seconds, clock_reading, utc_now, Timestamp};

verus! {

/// The claims of an access token.
#[derive(Clone, Debug)]
pub struct AccessClaims {
    /// Subject: the user id.
    pub sub: String,
    pub iat: i64,
    pub exp: i64,
    pub token_type: String,
}

/// The user an authenticated request acts for.
#[derive(Clone, Copy, Debug, PartialEq, Eq, Structural)]
pub struct CurrentUser {
    pub user_id: u128,
}

/// `c` are the claims of an access token for `user_id` issued at `now` and
/// valid for `ttl_seconds`.
pub open spec fn is_access_claims(c: AccessClaims, user_id: u128, now: Timestamp, ttl_seconds: int) -> bool {
    &&& c.sub@ == uuid_text(user_id)
    &&& c.iat == now.secs
    &&& c.exp == now.secs + ttl_seconds
    &&& c.token_type@ == "access"@
}

/// The claims of an access token for `user_id` issued at `now`, expiring
/// `ttl_seconds` later.
pub fn access_claims_at(user_id: u128, now: &Timestamp, ttl_seconds: i64) -> (res: AccessClaims)
    requires
        can_add_seconds(*now, ttl_seconds as int),
    ensures
        is_access_claims(res, user_id, *now, ttl_seconds as int),
{
    let exp = now.plus_seconds(ttl_seconds);
    AccessClaims {
        sub: uuid_to_text(user_id),
        iat: now.secs,
        exp: exp.secs,
        token_type: owned("access"),
    }
}

/// The claims of an access token for `user_id` issued now. `None` where
/// adding `ttl_seconds` to the current time leaves the range of
/// `chrono::DateTime` (there the service stops).
pub fn issue_access_claims(user_id: u128, ttl_seconds: i64) -> (res: Option<AccessClaims>)
    ensures
        res is Some ==> exists|now: Timestamp|
            #[trigger] clock_reading(now) && can_add_seconds(now, ttl_seconds as int)
                && is_access_claims(res->0, user_id, now, ttl_seconds as int),
        res is None ==> exists|now: Timestamp|
            #[trigger] clock_reading(now) && !can_add_seconds(now, ttl_seconds as int),
{
    let now = utc_now();
    if now.can_add_seconds(ttl_seconds) {
        let c = access_claims_at(user_id, &now, ttl_seconds);
        assert(clock_reading(now) && is_access_claims(c, user_id, now, ttl_seconds as int));
        Some(c)
    } else {
        assert(clock_reading(now) && !can_add_seconds(now, ttl_seconds as int));
        None
    }
}

/// Who the claims authenticate, given what `Uuid::parse_str` made of the
/// subject: only access tokens count, and their subject must be a user id.
pub open spec fn claims_user(token_type: Seq<char>, parsed_sub: Option<u128>) -> Result<CurrentUser, AppError> {
    if token_type != "access"@ {
        Err(AppError::Unauthorized)
    } else {
        match parsed_sub {
            Some(id) => Ok(CurrentUser { user_id: id }),
            None => Err(AppError::Unauthorized),
        }
    }
}

/// The user that verified claims authenticate, with the subject already
/// parsed into `parsed_sub`.
pub fn current_user_from_parsed(claims: &AccessClaims, parsed_sub: Option<u128>) -> (res: Result<CurrentUser, AppError>)
    ensures
        res == claims_user(claims.token_type@, parsed_sub),
{
    if !text_equals(claims.token_type.as_str(), "access") {
        return Err(AppError::Unauthorized);
    }
    match parsed_sub {
        Some(id) => Ok(CurrentUser { user_id: id }),
        None => Err(AppError::Unauthorized),
    }
}

/// The user that verified claims authenticate. Claims issued by
/// [`access_claims_at`] for a user authenticate that user.
pub fn current_user_from_claims(claims: &AccessClaims) -> (res: Result<CurrentUser, AppError>)
    ensures
        res == claims_user(claims.token_type@, uuid_parsed(claims.sub@)),
        forall|user_id: u128, now: Timestamp, ttl: int|
            #[trigger] is_access_claims(*claims, user_id, now, ttl) ==> res == Ok::<CurrentUser, AppError>(
                CurrentUser { user_id },
            ),
{
    let parsed = parse_uuid(claims.sub.as_str());
    proof {
        assert forall|user_id: u128, now: Timestamp, ttl: int|
            #[trigger] is_access_claims(*claims, user_id, now, ttl) implies parsed == Some(user_id) by {
            lemma_uuid_text_reads_back(user_id);
        }
    }
    current_user_from_parsed(claims, parsed)
}

} // verus!
