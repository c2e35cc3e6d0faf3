//! The decisions of the register, login, refresh and logout flows.
//!
//! Each flow alternates database work, done by the caller, with decisions
//! made here: the caller performs what a decision asks for and hands the
//! outcome to the next decision.

use vstd::prelude::*;
use crate::auth::refresh::{
    generate_refresh_token, hash_refresh_token, refresh_token_hash_text,
};
use crate::config::Config;
use crate::crypto::{base64_url_unpadded, is_url_safe_base64_char};
use crate::error::AppError;
use crate::text::owned;
use crate::time::{can_add_seconds, clock_reading, precedes, utc_now, Timestamp};
use crate::users::{user_response_of, User, UserResponse};

verus! {

/// Failed logins in a row after which an account is locked.
pub const MAX_FAILED_ATTEMPTS: i32 = 5;

/// Minutes an account stays locked.
pub const LOCK_MINUTES: i64 = 15;

/// A refresh token as stored in the `refresh_tokens` table.
#[derive(Clone, Debug)]
pub struct RefreshToken {
    pub id: u128,
    pub user_id: u128,
    pub token_hash: String,
    pub expires_at: Timestamp,
    pub revoked_at: Option<Timestamp>,
    pub replaced_by: Option<u128>,
    pub created_at: Timestamp,
    pub user_agent: Option<String>,
    pub ip_address: Option<String>,
}

/// Revoke the stored refresh token `token_id`, recording the token that
/// replaced it (`None` when it was revoked outright, on logout).
#[derive(Clone, Copy, Debug, PartialEq, Eq, Structural)]
pub struct Revocation {
    pub token_id: u128,
    pub replaced_by: Option<u128>,
}

/// A refresh token to hand out and the row to store for it.
#[derive(Clone, Debug)]
pub struct RefreshTokenPlan {
    /// The token itself, sent to the client in the refresh cookie.
    pub token: String,
    /// What is stored and looked up: the token's hash.
    pub token_hash: String,
    pub expires_at: Timestamp,
}

/// The body of a successful register, login or refresh.
#[derive(Clone, Debug)]
pub struct AuthResponse {
    pub access_token: String,
    pub token_type: String,
    pub expires_in: i64,
    pub user: UserResponse,
}

// ------------------------------------------------------------------------
// Issuing tokens

/// `p` is a valid plan for a refresh token issued at `now` that lives
/// `ttl_seconds`.
pub open spec fn is_refresh_plan(p: RefreshTokenPlan, now: Timestamp, ttl_seconds: int) -> bool {
    &&& exists|bytes: Seq<u8>| bytes.len() == 32 && p.token@ == #[trigger] base64_url_unpadded(bytes)
    &&& p.token@.len() == 43
    &&& forall|i: int| 0 <= i < p.token@.len() ==> #[trigger] is_url_safe_base64_char(p.token@[i])
    &&& p.token_hash@ == refresh_token_hash_text(p.token@)
    &&& p.expires_at.secs == now.secs + ttl_seconds
    &&& p.expires_at.nanos == now.nanos
}

/// A fresh refresh token issued at `now`, its hash, and when it expires.
pub fn plan_refresh_token_at(now: &Timestamp, ttl_seconds: i64) -> (res: RefreshTokenPlan)
    requires
        can_add_seconds(*now, ttl_seconds as int),
    ensures
        is_refresh_plan(res, *now, ttl_seconds as int),
{
    let token = generate_refresh_token();
    let token_hash = hash_refresh_token(token.as_str());
    let expires_at = now.plus_seconds(ttl_seconds);
    RefreshTokenPlan { token, token_hash, expires_at }
}

/// A fresh refresh token issued now. `None` where adding `ttl_seconds` to
/// the current time leaves the range of `chrono::DateTime` (there the
/// service stops).
pub fn plan_refresh_token(ttl_seconds: i64) -> (res: Option<RefreshTokenPlan>)
    ensures
        res is Some ==> exists|now: Timestamp|
            #[trigger] clock_reading(now) && can_add_seconds(now, ttl_seconds as int)
                && is_refresh_plan(res->0, now, ttl_seconds as int),
        res is None ==> exists|now: Timestamp|
            #[trigger] clock_reading(now) && !can_add_seconds(now, ttl_seconds as int),
{
    let now = utc_now();
    if now.can_add_seconds(ttl_seconds) {
        let p = plan_refresh_token_at(&now, ttl_seconds);
        assert(clock_reading(now) && is_refresh_plan(p, now, ttl_seconds as int));
        Some(p)
    } else {
        assert(clock_reading(now) && !can_add_seconds(now, ttl_seconds as int));
        None
    }
}

/// `r` is the body answered after a successful register, login or
/// refresh: a bearer access token, its lifetime and the account.
pub open spec fn is_auth_response(r: AuthResponse, access_token: Seq<char>, config: Config, user: User) -> bool {
    &&& r.access_token@ == access_token
    &&& r.token_type@ == "Bearer"@
    &&& r.expires_in == config.access_token_ttl_seconds
    &&& r.user == user_response_of(user)
}

/// Builds the body answered after a successful register, login or refresh.
pub fn auth_response(access_token: String, config: &Config, user: User) -> (res: AuthResponse)
    ensures
        is_auth_response(res, access_token@, *config, user),
        res.access_token == access_token,
{
    AuthResponse {
        access_token,
        token_type: owned("Bearer"),
        expires_in: config.access_token_ttl_seconds,
        user: UserResponse::from(user),
    }
}

// ------------------------------------------------------------------------
// Register

/// An e-mail address may be registered only when no account has it.
pub fn check_email_available(existing: &Option<User>) -> (res: Result<(), AppError>)
    ensures
        res == (if existing is Some { Err(AppError::EmailTaken) } else { Ok(()) }),
{
    match existing {
        Some(_) => Err(AppError::EmailTaken),
        None => Ok(()),
    }
}

// ------------------------------------------------------------------------
// Login

/// Outcome of looking an account up at the start of a login at time `now`.
pub open spec fn login_gate(found: Option<User>, now: Timestamp) -> Result<User, AppError> {
    match found {
        None => Err(AppError::InvalidCredentials),
        Some(u) => match u.locked_until {
            Some(t) if precedes(now, t) => Err(AppError::AccountLocked),
            _ => Ok(u),
        },
    }
}

/// Checks the account found for a login at time `now`: unknown accounts
/// fail as bad credentials, locked ones as locked; otherwise the password
/// is to be checked.
pub fn check_login_account(found: Option<User>, now: &Timestamp) -> (res: Result<User, AppError>)
    ensures
        res == login_gate(found, *now),
{
    match found {
        None => Err(AppError::InvalidCredentials),
        Some(u) => {
            match &u.locked_until {
                Some(t) => {
                    if now.is_before(t) {
                        return Err(AppError::AccountLocked);
                    }
                },
                None => {},
            }
            Ok(u)
        },
    }
}

/// [`check_login_account`] at the current time.
pub fn check_login_account_now(found: Option<User>) -> (res: Result<User, AppError>)
    ensures
        exists|now: Timestamp| #[trigger] clock_reading(now) && res == login_gate(found, now),
{
    let now = utc_now();
    let res = check_login_account(found, &now);
    assert(clock_reading(now) && res == login_gate(found, now));
    res
}

/// What follows the password check of a login.
#[derive(Clone, Copy, Debug, PartialEq, Eq, Structural)]
pub enum LoginAction {
    /// Count a failed attempt (locking the account for `lock_minutes` once
    /// `max_attempts` are reached), then fail with bad credentials.
    RecordFailure { user_id: u128, max_attempts: i32, lock_minutes: i64 },
    /// Clear the failed attempts and issue a token pair.
    ResetAndIssue { user_id: u128 },
}

pub open spec fn login_action(user: User, password_ok: bool) -> LoginAction {
    if password_ok {
        LoginAction::ResetAndIssue { user_id: user.id }
    } else {
        LoginAction::RecordFailure {
            user_id: user.id,
            max_attempts: MAX_FAILED_ATTEMPTS,
            lock_minutes: LOCK_MINUTES,
        }
    }
}

/// Decides what a login does once the password has been checked.
pub fn after_password_check(user: &User, password_ok: bool) -> (res: LoginAction)
    ensures
        res == login_action(*user, password_ok),
{
    if password_ok {
        LoginAction::ResetAndIssue { user_id: user.id }
    } else {
        LoginAction::RecordFailure {
            user_id: user.id,
            max_attempts: MAX_FAILED_ATTEMPTS,
            lock_minutes: LOCK_MINUTES,
        }
    }
}

// ------------------------------------------------------------------------
// Refresh

/// The hash to look the presented refresh token up by; a request without a
/// refresh cookie is unauthorized.
pub fn refresh_lookup_hash(cookie_value: Option<&str>) -> (res: Result<String, AppError>)
    ensures
        match cookie_value {
            None => res == Err::<String, AppError>(AppError::Unauthorized),
            Some(v) => res is Ok && res->Ok_0@ == refresh_token_hash_text(v@),
        },
{
    match cookie_value {
        None => Err(AppError::Unauthorized),
        Some(v) => Ok(hash_refresh_token(v)),
    }
}

/// What a refresh does with the stored token it found.
#[derive(Clone, Copy, Debug, PartialEq, Eq, Structural)]
pub enum RefreshCheck {
    /// Unknown or expired token: the request is unauthorized.
    Reject,
    /// The token was already revoked, so it is being reused: revoke every
    /// session of `user_id`, then answer unauthorized.
    RevokeAllAndReject { user_id: u128 },
    /// The token is live: look its user up and rotate it.
    Rotate { token_id: u128, user_id: u128 },
}

/// The decision for the stored token `stored` at time `now`.
pub open spec fn refresh_check(stored: Option<RefreshToken>, now: Timestamp) -> RefreshCheck {
    match stored {
        None => RefreshCheck::Reject,
        Some(t) => if t.revoked_at is Some {
            RefreshCheck::RevokeAllAndReject { user_id: t.user_id }
        } else if precedes(t.expires_at, now) {
            RefreshCheck::Reject
        } else {
            RefreshCheck::Rotate { token_id: t.id, user_id: t.user_id }
        },
    }
}

/// Decides what a refresh does with the stored token found at time `now`.
pub fn check_refresh_token(stored: &Option<RefreshToken>, now: &Timestamp) -> (res: RefreshCheck)
    ensures
        res == refresh_check(*stored, *now),
{
    match stored {
        None => RefreshCheck::Reject,
        Some(t) => {
            if t.revoked_at.is_some() {
                RefreshCheck::RevokeAllAndReject { user_id: t.user_id }
            } else if t.expires_at.is_before(now) {
                RefreshCheck::Reject
            } else {
                RefreshCheck::Rotate { token_id: t.id, user_id: t.user_id }
            }
        },
    }
}

/// [`check_refresh_token`] at the current time.
pub fn check_refresh_token_now(stored: &Option<RefreshToken>) -> (res: RefreshCheck)
    ensures
        exists|now: Timestamp| #[trigger] clock_reading(now) && res == refresh_check(*stored, now),
{
    let now = utc_now();
    let res = check_refresh_token(stored, &now);
    assert(clock_reading(now) && res == refresh_check(*stored, now));
    res
}

/// The account of a live refresh token; a token whose account is gone is
/// unauthorized.
pub fn refresh_account(found: Option<User>) -> (res: Result<User, AppError>)
    ensures
        res == (match found {
            Some(u) => Ok::<User, AppError>(u),
            None => Err(AppError::Unauthorized),
        }),
{
    match found {
        Some(u) => Ok(u),
        None => Err(AppError::Unauthorized),
    }
}

/// Once the replacement token is stored, the presented token is revoked
/// and points at its replacement.
pub fn rotation_revocation(presented: &RefreshToken, replacement: &RefreshToken) -> (res: Revocation)
    ensures
        res == (Revocation { token_id: presented.id, replaced_by: Some(replacement.id) }),
{
    Revocation { token_id: presented.id, replaced_by: Some(replacement.id) }
}

// ------------------------------------------------------------------------
// Logout

/// The revocation a logout makes: the presented token, if it is known and
/// still live, revoked with no replacement.
pub open spec fn logout_revocation_of(stored: Option<RefreshToken>) -> Option<Revocation> {
    match stored {
        Some(t) if t.revoked_at is None => Some(Revocation { token_id: t.id, replaced_by: None }),
        _ => None,
    }
}

/// Decides what a logout revokes.
pub fn logout_revocation(stored: &Option<RefreshToken>) -> (res: Option<Revocation>)
    ensures
        res == logout_revocation_of(*stored),
{
    match stored {
        Some(t) => {
            if t.revoked_at.is_none() {
                Some(Revocation { token_id: t.id, replaced_by: None })
            } else {
                None
            }
        },
        None => None,
    }
}

/// The message answered on logout.
pub fn logout_message() -> (res: String)
    ensures
        res@ == "logged out"@,
{
    owned("logged out")
}

// ------------------------------------------------------------------------
// Laws

/// What the revocation does to the stored row (`revoked_at = now()`,
/// `replaced_by` as given).
pub open spec fn revoked(t: RefreshToken, r: Revocation, at: Timestamp) -> RefreshToken {
    RefreshToken { revoked_at: Some(at), replaced_by: r.replaced_by, ..t }
}

/// Law (single use): once a refresh token has been revoked, by rotation or
/// by logout, presenting it again at any time is treated as reuse: every
/// session of its user is revoked and the request is refused. Its hash and
/// owner are unchanged by the revocation.
pub proof fn lemma_revoked_token_is_reuse(t: RefreshToken, r: Revocation, at: Timestamp, later: Timestamp)
    ensures
        refresh_check(Some(revoked(t, r, at)), later) == (RefreshCheck::RevokeAllAndReject { user_id: t.user_id }),
        revoked(t, r, at).token_hash == t.token_hash,
        logout_revocation_of(Some(revoked(t, r, at))) is None,
{
}

/// Law: a refresh token is rotated only while it is live: known, never
/// revoked and not yet expired.
pub proof fn lemma_rotate_only_live(stored: Option<RefreshToken>, now: Timestamp)
    ensures
        refresh_check(stored, now) is Rotate <==> (stored is Some && stored->0.revoked_at is None
            && !precedes(stored->0.expires_at, now)),
        refresh_check(stored, now) matches RefreshCheck::Rotate { token_id, user_id } ==> (
        token_id == stored->0.id && user_id == stored->0.user_id),
{
}

/// Law: a locked account is refused while its lock lasts whatever password
/// is presented, and is let through to the password check once the lock
/// has passed.
pub proof fn lemma_lock_precedes_password(u: User, now: Timestamp)
    ensures
        u.locked_until matches Some(t) && precedes(now, t) ==> login_gate(Some(u), now) == Err::<User, AppError>(AppError::AccountLocked),
        (u.locked_until is None || !precedes(now, u.locked_until->0)) ==> login_gate(Some(u), now) == Ok::<User, AppError>(u),
{
}

/// The row update that recording a failed login performs (run by the
/// caller in SQL at database time `now`): one more failed attempt and, once
/// `max_attempts` are reached, a lock until `lock_minutes` after `now`.
pub open spec fn after_failed_login(u: User, now: Timestamp, max_attempts: int, lock_minutes: int) -> User {
    let attempts = u.failed_login_attempts + 1;
    User {
        failed_login_attempts: attempts as i32,
        locked_until: if attempts >= max_attempts {
            Some(Timestamp { secs: (now.secs + 60 * lock_minutes) as i64, nanos: now.nanos })
        } else {
            u.locked_until
        },
        ..u
    }
}

/// The row update of a successful login: failed attempts cleared, lock
/// lifted.
pub open spec fn after_reset(u: User) -> User {
    User { failed_login_attempts: 0, locked_until: None, ..u }
}

/// Law (lock-out): the failed login that brings an account to
/// `MAX_FAILED_ATTEMPTS` locks it; until `LOCK_MINUTES` have passed every
/// login is refused as locked, and once they have, the account reaches the
/// password check again. A successful login leaves the account unlocked.
pub proof fn lemma_lockout(u: User, now: Timestamp, later: Timestamp)
    requires
        u.failed_login_attempts + 1 == MAX_FAILED_ATTEMPTS,
        i64::MIN <= now.secs + 60 * LOCK_MINUTES <= i64::MAX,
    ensures
        precedes(later, Timestamp { secs: (now.secs + 60 * LOCK_MINUTES) as i64, nanos: now.nanos })
            ==> login_gate(Some(after_failed_login(u, now, MAX_FAILED_ATTEMPTS as int, LOCK_MINUTES as int)), later)
            == Err::<User, AppError>(AppError::AccountLocked),
        !precedes(later, Timestamp { secs: (now.secs + 60 * LOCK_MINUTES) as i64, nanos: now.nanos })
            ==> login_gate(Some(after_failed_login(u, now, MAX_FAILED_ATTEMPTS as int, LOCK_MINUTES as int)), later)
            == Ok::<User, AppError>(after_failed_login(u, now, MAX_FAILED_ATTEMPTS as int, LOCK_MINUTES as int)),
        login_gate(Some(after_reset(u)), later) == Ok::<User, AppError>(after_reset(u)),
{
}

/// Law: while fewer than `MAX_FAILED_ATTEMPTS` logins have failed, a failed
/// login does not change whether the account is locked.
pub proof fn lemma_no_lock_below_limit(u: User, now: Timestamp, later: Timestamp)
    requires
        u.failed_login_attempts + 1 < MAX_FAILED_ATTEMPTS,
    ensures
        login_gate(Some(after_failed_login(u, now, MAX_FAILED_ATTEMPTS as int, LOCK_MINUTES as int)), later) is Ok
            == login_gate(Some(u), later) is Ok,
{
}

} // verus!
