//! Register and login as a machine: from the stage a request is in and the
//! outcome of the last piece of outside work, the next stage and the next
//! thing to do. The caller performs each step (a database query, hashing or
//! checking a password, signing the access token) and reports back.

use vstd::prelude::*;
use crate::auth::cookie::{build_refresh_cookie, is_refresh_cookie, RefreshCookie};
use crate::auth::flow::{
    after_password_check, auth_response, check_email_available, check_login_account_now,
    is_auth_response, is_refresh_plan, login_action, login_gate, plan_refresh_token, AuthResponse,
    LoginAction, LOCK_MINUTES, MAX_FAILED_ATTEMPTS,
};
use crate::auth::jwt::{issue_access_claims, is_access_claims, AccessClaims};
use crate::auth::refresh::refresh_token_hash_text;
use crate::config::Config;
use crate::error::AppError;
use crate::time::{can_add_seconds, clock_reading, Timestamp};
use crate::users::User;

verus! {

/// Where a register or login request stands.
#[derive(Clone, Debug)]
pub enum SignInStage {
    /// Register: waiting for the account that already has the e-mail, if any.
    CheckingEmail { email: String },
    /// Register: waiting for the hash of the chosen password.
    HashingPassword { email: String },
    /// Register: waiting for the new account.
    CreatingAccount,
    /// Login: waiting for the account with the e-mail, if any.
    LookingUpAccount { user_agent: Option<String> },
    /// Login: waiting for the password to be checked against the account's hash.
    CheckingPassword { user: User, user_agent: Option<String> },
    /// Login: waiting for the failed attempt to be counted.
    RecordingFailure,
    /// Login: waiting for the failed attempts to be cleared.
    ResettingFailures { user: User, user_agent: Option<String> },
    /// Waiting for the access token to be signed.
    SigningAccessToken { user: User, user_agent: Option<String>, created: bool },
    /// Waiting for the refresh token to be stored.
    StoringRefreshToken { user: User, access_token: String, refresh_token: String, created: bool },
    /// Nothing left to do.
    Finished,
}

/// The outcome of the outside work the last step asked for.
#[derive(Clone, Debug)]
pub enum SignInEvent {
    AccountLookedUp(Option<User>),
    PasswordHashed(String),
    AccountCreated(User),
    PasswordChecked(bool),
    FailureRecorded,
    FailuresReset,
    AccessTokenSigned(String),
    RefreshTokenStored,
}

/// What to do next.
#[derive(Clone, Debug)]
pub enum SignInStep {
    /// Look the account with this e-mail up.
    LookupAccount { email: String },
    /// Hash the password of the request.
    HashPassword,
    /// Create an account.
    CreateAccount { email: String, password_hash: String },
    /// Check the password of the request against this hash.
    VerifyPassword { password_hash: String },
    /// Count a failed login of the account, locking it for `lock_minutes`
    /// once `max_attempts` are reached.
    RecordFailure { user_id: u128, max_attempts: i32, lock_minutes: i64 },
    /// Clear the failed logins of the account.
    ResetFailures { user_id: u128 },
    /// Sign these claims as the access token.
    SignAccessToken { claims: AccessClaims },
    /// Store a refresh token row.
    StoreRefreshToken {
        user_id: u128,
        token_hash: String,
        expires_at: Timestamp,
        user_agent: Option<String>,
        ip_address: Option<String>,
    },
    /// Answer with this cookie and body; `created` when an account was
    /// registered.
    Succeed { cookie: RefreshCookie, body: AuthResponse, created: bool },
    /// Answer with this error.
    Fail(AppError),
    /// A token lifetime added to the current time leaves `chrono`'s range;
    /// the service stops.
    LifetimeOverflow { ttl_seconds: i64 },
}

/// `event` is the kind of outcome `stage` waits for.
pub open spec fn signin_event_fits(stage: SignInStage, event: SignInEvent) -> bool {
    match (stage, event) {
        (SignInStage::CheckingEmail { .. }, SignInEvent::AccountLookedUp(_)) => true,
        (SignInStage::HashingPassword { .. }, SignInEvent::PasswordHashed(_)) => true,
        (SignInStage::CreatingAccount, SignInEvent::AccountCreated(_)) => true,
        (SignInStage::LookingUpAccount { .. }, SignInEvent::AccountLookedUp(_)) => true,
        (SignInStage::CheckingPassword { .. }, SignInEvent::PasswordChecked(_)) => true,
        (SignInStage::RecordingFailure, SignInEvent::FailureRecorded) => true,
        (SignInStage::ResettingFailures { .. }, SignInEvent::FailuresReset) => true,
        (SignInStage::SigningAccessToken { .. }, SignInEvent::AccessTokenSigned(_)) => true,
        (SignInStage::StoringRefreshToken { .. }, SignInEvent::RefreshTokenStored) => true,
        _ => false,
    }
}

/// Whether `event` is the kind of outcome `stage` waits for.
pub fn signin_event_matches(stage: &SignInStage, event: &SignInEvent) -> (res: bool)
    ensures
        res == signin_event_fits(*stage, *event),
{
    match (stage, event) {
        (SignInStage::CheckingEmail { .. }, SignInEvent::AccountLookedUp(_)) => true,
        (SignInStage::HashingPassword { .. }, SignInEvent::PasswordHashed(_)) => true,
        (SignInStage::CreatingAccount, SignInEvent::AccountCreated(_)) => true,
        (SignInStage::LookingUpAccount { .. }, SignInEvent::AccountLookedUp(_)) => true,
        (SignInStage::CheckingPassword { .. }, SignInEvent::PasswordChecked(_)) => true,
        (SignInStage::RecordingFailure, SignInEvent::FailureRecorded) => true,
        (SignInStage::ResettingFailures { .. }, SignInEvent::FailuresReset) => true,
        (SignInStage::SigningAccessToken { .. }, SignInEvent::AccessTokenSigned(_)) => true,
        (SignInStage::StoringRefreshToken { .. }, SignInEvent::RefreshTokenStored) => true,
        _ => false,
    }
}

/// The move that issues the access token for `user`: the claims of an
/// access token for the account, issued at some reading of the clock;
/// where the lifetime leaves the clock's range, the service stops.
pub open spec fn issue_ok(user: User, user_agent: Option<String>, created: bool, config: Config, next: SignInStage, step: SignInStep) -> bool {
    exists|now: Timestamp|
        #[trigger] clock_reading(now) && if can_add_seconds(now, config.access_token_ttl_seconds as int) {
            &&& step matches SignInStep::SignAccessToken { claims }
            &&& is_access_claims(claims, user.id, now, config.access_token_ttl_seconds as int)
            &&& next == (SignInStage::SigningAccessToken { user, user_agent, created })
        } else {
            next is Finished && step == (SignInStep::LifetimeOverflow {
                ttl_seconds: config.access_token_ttl_seconds,
            })
        }
}

/// One move of register or login: from `stage`, on `event`, to `next`
/// asking for `step`. Where the current time matters, some reading of the
/// clock explains the move.
pub open spec fn signin_step_ok(stage: SignInStage, event: SignInEvent, config: Config, next: SignInStage, step: SignInStep) -> bool {
    match (stage, event) {
        (SignInStage::CheckingEmail { email }, SignInEvent::AccountLookedUp(found)) => match found {
            Some(_) => next is Finished && step == SignInStep::Fail(AppError::EmailTaken),
            None => next == (SignInStage::HashingPassword { email }) && step is HashPassword,
        },
        (SignInStage::HashingPassword { email }, SignInEvent::PasswordHashed(password_hash)) => next
            is CreatingAccount && step == (SignInStep::CreateAccount { email, password_hash }),
        (SignInStage::CreatingAccount, SignInEvent::AccountCreated(user)) => issue_ok(
            user,
            None,
            true,
            config,
            next,
            step,
        ),
        (SignInStage::LookingUpAccount { user_agent }, SignInEvent::AccountLookedUp(found)) => exists|now: Timestamp|
            #[trigger] clock_reading(now) && match login_gate(found, now) {
                Err(e) => next is Finished && step == SignInStep::Fail(e),
                Ok(user) => next == (SignInStage::CheckingPassword { user, user_agent })
                    && step == (SignInStep::VerifyPassword { password_hash: user.password_hash }),
            },
        (SignInStage::CheckingPassword { user, user_agent }, SignInEvent::PasswordChecked(ok)) => if ok {
            next == (SignInStage::ResettingFailures { user, user_agent }) && step
                == (SignInStep::ResetFailures { user_id: user.id })
        } else {
            next is RecordingFailure && step == (SignInStep::RecordFailure {
                user_id: user.id,
                max_attempts: MAX_FAILED_ATTEMPTS,
                lock_minutes: LOCK_MINUTES,
            })
        },
        (SignInStage::RecordingFailure, SignInEvent::FailureRecorded) => next is Finished && step
            == SignInStep::Fail(AppError::InvalidCredentials),
        (SignInStage::ResettingFailures { user, user_agent }, SignInEvent::FailuresReset) => issue_ok(
            user,
            user_agent,
            false,
            config,
            next,
            step,
        ),
        (SignInStage::SigningAccessToken { user, user_agent, created }, SignInEvent::AccessTokenSigned(token)) => exists|now: Timestamp|
            #[trigger] clock_reading(now) && if can_add_seconds(now, config.refresh_token_ttl_seconds as int) {
                &&& step matches SignInStep::StoreRefreshToken {
                    user_id,
                    token_hash,
                    expires_at,
                    user_agent: ua,
                    ip_address,
                }
                &&& next matches SignInStage::StoringRefreshToken {
                    user: u,
                    access_token,
                    refresh_token,
                    created: c,
                }
                &&& user_id == user.id && ua == user_agent && ip_address is None
                &&& u == user && access_token == token && c == created
                &&& token_hash@ == refresh_token_hash_text(refresh_token@)
                &&& expires_at.secs == now.secs + config.refresh_token_ttl_seconds
                    && expires_at.nanos == now.nanos
                &&& refresh_token@.len() == 43
            } else {
                next is Finished && step == (SignInStep::LifetimeOverflow {
                    ttl_seconds: config.refresh_token_ttl_seconds,
                })
            },
        (
            SignInStage::StoringRefreshToken { user, access_token, refresh_token, created },
            SignInEvent::RefreshTokenStored,
        ) => {
            &&& next is Finished
            &&& step matches SignInStep::Succeed { cookie, body, created: c }
            &&& c == created
            &&& is_refresh_cookie(cookie, config, refresh_token@)
            &&& is_auth_response(body, access_token@, config, user)
        },
        _ => false,
    }
}

/// Starts registering an account under `email`.
pub fn register_start(email: String) -> (res: (SignInStage, SignInStep))
    ensures
        res.0 == (SignInStage::CheckingEmail { email }),
        res.1 == (SignInStep::LookupAccount { email }),
{
    let lookup = email.clone();
    (SignInStage::CheckingEmail { email }, SignInStep::LookupAccount { email: lookup })
}

/// Starts a login as `email`, from a client that sent `user_agent`.
pub fn login_start(email: String, user_agent: Option<String>) -> (res: (SignInStage, SignInStep))
    ensures
        res.0 == (SignInStage::LookingUpAccount { user_agent }),
        res.1 == (SignInStep::LookupAccount { email }),
{
    (SignInStage::LookingUpAccount { user_agent }, SignInStep::LookupAccount { email })
}

fn issue_for(user: User, user_agent: Option<String>, created: bool, config: &Config) -> (res: (SignInStage, SignInStep))
    ensures
        issue_ok(user, user_agent, created, *config, res.0, res.1),
{
    let ttl = config.access_token_ttl_seconds;
    match issue_access_claims(user.id, ttl) {
        Some(claims) => {
            let ghost now = choose|now: Timestamp|
                #[trigger] clock_reading(now) && can_add_seconds(now, ttl as int) && is_access_claims(
                    claims,
                    user.id,
                    now,
                    ttl as int,
                );
            assert(clock_reading(now));
            (SignInStage::SigningAccessToken { user, user_agent, created }, SignInStep::SignAccessToken { claims })
        },
        None => {
            let ghost now = choose|now: Timestamp| #[trigger] clock_reading(now) && !can_add_seconds(now, ttl as int);
            assert(clock_reading(now));
            (SignInStage::Finished, SignInStep::LifetimeOverflow { ttl_seconds: ttl })
        },
    }
}

/// Moves register or login on.
pub fn signin_step(stage: SignInStage, event: SignInEvent, config: &Config) -> (res: (SignInStage, SignInStep))
    requires
        signin_event_fits(stage, event),
    ensures
        signin_step_ok(stage, event, *config, res.0, res.1),
{
    match (stage, event) {
        (SignInStage::CheckingEmail { email }, SignInEvent::AccountLookedUp(found)) => {
            match check_email_available(&found) {
                Err(e) => (SignInStage::Finished, SignInStep::Fail(e)),
                Ok(()) => (SignInStage::HashingPassword { email }, SignInStep::HashPassword),
            }
        },
        (SignInStage::HashingPassword { email }, SignInEvent::PasswordHashed(password_hash)) => {
            (SignInStage::CreatingAccount, SignInStep::CreateAccount { email, password_hash })
        },
        (SignInStage::CreatingAccount, SignInEvent::AccountCreated(user)) => issue_for(user, None, true, config),
        (SignInStage::LookingUpAccount { user_agent }, SignInEvent::AccountLookedUp(found)) => {
            let gate = check_login_account_now(found);
            let ghost now = choose|now: Timestamp| #[trigger] clock_reading(now) && gate == login_gate(found, now);
            assert(clock_reading(now));
            match gate {
                Err(e) => (SignInStage::Finished, SignInStep::Fail(e)),
                Ok(user) => {
                    let password_hash = user.password_hash.clone();
                    (SignInStage::CheckingPassword { user, user_agent }, SignInStep::VerifyPassword { password_hash })
                },
            }
        },
        (SignInStage::CheckingPassword { user, user_agent }, SignInEvent::PasswordChecked(ok)) => {
            match after_password_check(&user, ok) {
                LoginAction::RecordFailure { user_id, max_attempts, lock_minutes } => (
                    SignInStage::RecordingFailure,
                    SignInStep::RecordFailure { user_id, max_attempts, lock_minutes },
                ),
                LoginAction::ResetAndIssue { user_id } => (
                    SignInStage::ResettingFailures { user, user_agent },
                    SignInStep::ResetFailures { user_id },
                ),
            }
        },
        (SignInStage::RecordingFailure, SignInEvent::FailureRecorded) => {
            (SignInStage::Finished, SignInStep::Fail(AppError::InvalidCredentials))
        },
        (SignInStage::ResettingFailures { user, user_agent }, SignInEvent::FailuresReset) => {
            issue_for(user, user_agent, false, config)
        },
        (SignInStage::SigningAccessToken { user, user_agent, created }, SignInEvent::AccessTokenSigned(access_token)) => {
            let ttl = config.refresh_token_ttl_seconds;
            match plan_refresh_token(ttl) {
                Some(plan) => {
                    let ghost now = choose|now: Timestamp|
                        #[trigger] clock_reading(now) && can_add_seconds(now, ttl as int) && is_refresh_plan(
                            plan,
                            now,
                            ttl as int,
                        );
                    assert(clock_reading(now));
                    let step = SignInStep::StoreRefreshToken {
                        user_id: user.id,
                        token_hash: plan.token_hash,
                        expires_at: plan.expires_at,
                        user_agent,
                        ip_address: None,
                    };
                    (
                        SignInStage::StoringRefreshToken { user, access_token, refresh_token: plan.token, created },
                        step,
                    )
                },
                None => {
                    let ghost now = choose|now: Timestamp|
                        #[trigger] clock_reading(now) && !can_add_seconds(now, ttl as int);
                    assert(clock_reading(now));
                    (SignInStage::Finished, SignInStep::LifetimeOverflow { ttl_seconds: ttl })
                },
            }
        },
        (
            SignInStage::StoringRefreshToken { user, access_token, refresh_token, created },
            SignInEvent::RefreshTokenStored,
        ) => {
            let cookie = build_refresh_cookie(config, refresh_token);
            let body = auth_response(access_token, config, user);
            (SignInStage::Finished, SignInStep::Succeed { cookie, body, created })
        },
        _ => (SignInStage::Finished, SignInStep::Fail(AppError::Unauthorized)),
    }
}

/// `stages`, `events` and `steps` are a run of register or login:
/// `stages[i]` and `steps[i]` are where the request stood and what it asked
/// for before the `i`-th outcome `events[i]` came back.
pub open spec fn signin_run(config: Config, stages: Seq<SignInStage>, events: Seq<SignInEvent>, steps: Seq<SignInStep>) -> bool {
    &&& stages.len() == events.len() + 1
    &&& steps.len() == stages.len()
    &&& forall|i: int|
        0 <= i < events.len() ==> signin_event_fits(stages[i], #[trigger] events[i])
            && signin_step_ok(stages[i], events[i], config, stages[i + 1], steps[i + 1])
}

proof fn lemma_signin_previous_stage(stage: SignInStage, event: SignInEvent, config: Config, next: SignInStage, step: SignInStep)
    requires
        signin_step_ok(stage, event, config, next, step),
    ensures
        !(next is CheckingEmail),
        !(next is LookingUpAccount),
        next is HashingPassword ==> stage is CheckingEmail,
        next is CreatingAccount ==> stage is HashingPassword,
        next is CheckingPassword ==> stage is LookingUpAccount,
        next is ResettingFailures ==> stage is CheckingPassword,
        next matches SignInStage::SigningAccessToken { created, .. } ==> if created {
            stage is CreatingAccount
        } else {
            stage is ResettingFailures
        },
        next matches SignInStage::StoringRefreshToken { created, .. } ==> (stage matches SignInStage::SigningAccessToken {
            created: c,
            ..
        } && c == created),
        step matches SignInStep::Succeed { created, .. } ==> (stage matches SignInStage::StoringRefreshToken {
            created: c,
            ..
        } && c == created),
{
}

/// A register or login run that starts by looking an account up and ends
/// in success has exactly five outcomes: the account lookup, the password
/// step (hash or check), the account step (create or clear failures), the
/// signed access token and the stored refresh token.
proof fn lemma_successful_run_has_five_events(
    config: Config,
    stages: Seq<SignInStage>,
    events: Seq<SignInEvent>,
    steps: Seq<SignInStep>,
)
    requires
        signin_run(config, stages, events, steps),
        stages[0] is LookingUpAccount || stages[0] is CheckingEmail,
        steps[0] is LookupAccount,
        steps.last() is Succeed,
    ensures
        events.len() == 5,
{
    let n = events.len() as int;
    if n == 0 {
        assert(false);
    }
    assert forall|i: int| 0 <= i < n implies #[trigger] stages[i + 1] !is LookingUpAccount && stages[i + 1] !is CheckingEmail by {
        assert(signin_step_ok(stages[i], events[i], config, stages[i + 1], steps[i + 1]));
        lemma_signin_previous_stage(stages[i], events[i], config, stages[i + 1], steps[i + 1]);
    }
    // Walk back from the answer: each stage fixes the kind of the one before.
    assert(signin_event_fits(stages[n - 1], events[n - 1]));
    lemma_signin_previous_stage(stages[n - 1], events[n - 1], config, stages[n], steps[n]);
    assert(stages[n - 1] is StoringRefreshToken);
    assert(n - 1 >= 1);
    assert(signin_event_fits(stages[n - 2], events[n - 2]));
    lemma_signin_previous_stage(stages[n - 2], events[n - 2], config, stages[n - 1], steps[n - 1]);
    assert(stages[n - 2] is SigningAccessToken);
    assert(n - 2 >= 1);
    assert(signin_event_fits(stages[n - 3], events[n - 3]));
    lemma_signin_previous_stage(stages[n - 3], events[n - 3], config, stages[n - 2], steps[n - 2]);
    assert(stages[n - 3] is CreatingAccount || stages[n - 3] is ResettingFailures);
    assert(n - 3 >= 1);
    assert(signin_event_fits(stages[n - 4], events[n - 4]));
    lemma_signin_previous_stage(stages[n - 4], events[n - 4], config, stages[n - 3], steps[n - 3]);
    assert(stages[n - 4] is HashingPassword || stages[n - 4] is CheckingPassword);
    assert(n - 4 >= 1);
    assert(signin_event_fits(stages[n - 5], events[n - 5]));
    lemma_signin_previous_stage(stages[n - 5], events[n - 5], config, stages[n - 4], steps[n - 4]);
    assert(stages[n - 5] is CheckingEmail || stages[n - 5] is LookingUpAccount);
    if n - 5 > 0 {
        assert(stages[(n - 6) + 1] !is LookingUpAccount && stages[(n - 6) + 1] !is CheckingEmail);
        assert(false);
    }
}

/// Law (login): a login that succeeds took exactly six steps — look the
/// account up, check the password against its hash, clear its failed
/// logins, sign an access token, store a refresh token for it with the
/// client's user agent, answer — and the password was right and the
/// account was not locked at the time it was looked up.
pub proof fn lemma_successful_login_checked_password(
    config: Config,
    email: String,
    user_agent: Option<String>,
    stages: Seq<SignInStage>,
    events: Seq<SignInEvent>,
    steps: Seq<SignInStep>,
)
    requires
        signin_run(config, stages, events, steps),
        stages[0] == (SignInStage::LookingUpAccount { user_agent }),
        steps[0] == (SignInStep::LookupAccount { email }),
        steps.last() is Succeed,
    ensures
        events.len() == 5,
        events[0] matches SignInEvent::AccountLookedUp(Some(u)) && ({
            &&& exists|now: Timestamp| #[trigger] clock_reading(now) && login_gate(Some(u), now) == Ok::<User, AppError>(u)
            &&& steps[1] == (SignInStep::VerifyPassword { password_hash: u.password_hash })
            &&& events[1] == SignInEvent::PasswordChecked(true)
            &&& steps[2] == (SignInStep::ResetFailures { user_id: u.id })
            &&& (steps[3] matches SignInStep::SignAccessToken { claims } && claims.sub@ == crate::ids::uuid_text(u.id))
            &&& (steps[4] matches SignInStep::StoreRefreshToken { user_id, user_agent: ua, .. } && user_id == u.id
                && ua == user_agent)
            &&& (steps[5] matches SignInStep::Succeed { body, created, .. } && !created && body.user.id == u.id)
        }),
{
    lemma_successful_run_has_five_events(config, stages, events, steps);
    assert(signin_event_fits(stages[0], events[0]) && signin_step_ok(stages[0], events[0], config, stages[1], steps[1]));
    assert(signin_event_fits(stages[1], events[1]) && signin_step_ok(stages[1], events[1], config, stages[2], steps[2]));
    assert(signin_event_fits(stages[2], events[2]) && signin_step_ok(stages[2], events[2], config, stages[3], steps[3]));
    assert(signin_event_fits(stages[3], events[3]) && signin_step_ok(stages[3], events[3], config, stages[4], steps[4]));
    assert(signin_event_fits(stages[4], events[4]) && signin_step_ok(stages[4], events[4], config, stages[5], steps[5]));
}

/// Law (register): a registration that succeeds took exactly six steps —
/// look the e-mail up and find no account, hash the password, create the
/// account with that e-mail and hash, sign an access token, store a refresh
/// token for the new account, answer that an account was created.
pub proof fn lemma_successful_register_creates_account(
    config: Config,
    email: String,
    stages: Seq<SignInStage>,
    events: Seq<SignInEvent>,
    steps: Seq<SignInStep>,
)
    requires
        signin_run(config, stages, events, steps),
        stages[0] == (SignInStage::CheckingEmail { email }),
        steps[0] == (SignInStep::LookupAccount { email }),
        steps.last() is Succeed,
    ensures
        events.len() == 5,
        events[0] == SignInEvent::AccountLookedUp(None),
        steps[1] is HashPassword,
        events[1] matches SignInEvent::PasswordHashed(h) && steps[2] == (SignInStep::CreateAccount {
            email,
            password_hash: h,
        }),
        events[2] matches SignInEvent::AccountCreated(u) && ({
            &&& (steps[3] matches SignInStep::SignAccessToken { claims } && claims.sub@ == crate::ids::uuid_text(u.id))
            &&& (steps[4] matches SignInStep::StoreRefreshToken { user_id, user_agent, .. } && user_id == u.id
                && user_agent is None)
            &&& (steps[5] matches SignInStep::Succeed { body, created, .. } && created && body.user.id == u.id)
        }),
{
    lemma_successful_run_has_five_events(config, stages, events, steps);
    assert(signin_event_fits(stages[0], events[0]) && signin_step_ok(stages[0], events[0], config, stages[1], steps[1]));
    assert(signin_event_fits(stages[1], events[1]) && signin_step_ok(stages[1], events[1], config, stages[2], steps[2]));
    assert(signin_event_fits(stages[2], events[2]) && signin_step_ok(stages[2], events[2], config, stages[3], steps[3]));
    assert(signin_event_fits(stages[3], events[3]) && signin_step_ok(stages[3], events[3], config, stages[4], steps[4]));
    assert(signin_event_fits(stages[4], events[4]) && signin_step_ok(stages[4], events[4], config, stages[5], steps[5]));
}

/// Law (wrong password): a login whose password check fails counts the
/// failed attempt against the account, with the lock-out limits, and then
/// refuses with bad credentials.
pub proof fn lemma_wrong_password_is_counted_and_refused(
    config: Config,
    user: User,
    user_agent: Option<String>,
    next: SignInStage,
    step: SignInStep,
    after: SignInStage,
    answer: SignInStep,
)
    requires
        signin_step_ok(SignInStage::CheckingPassword { user, user_agent }, SignInEvent::PasswordChecked(false), config, next, step),
        signin_step_ok(next, SignInEvent::FailureRecorded, config, after, answer),
    ensures
        step == (SignInStep::RecordFailure {
            user_id: user.id,
            max_attempts: MAX_FAILED_ATTEMPTS,
            lock_minutes: LOCK_MINUTES,
        }),
        after is Finished,
        answer == SignInStep::Fail(AppError::InvalidCredentials),
{
}

/// Law (taken e-mail): registering an e-mail that an account already has
/// is refused as taken, before any password is hashed.
pub proof fn lemma_taken_email_is_refused(config: Config, email: String, existing: User, next: SignInStage, step: SignInStep)
    requires
        signin_step_ok(SignInStage::CheckingEmail { email }, SignInEvent::AccountLookedUp(Some(existing)), config, next, step),
    ensures
        next is Finished,
        step == SignInStep::Fail(AppError::EmailTaken),
{
}

/// Law (liveness): every stage of register and login accepts every outcome
/// of the work it asked for — in particular a password check that came out
/// either way — so `signin_step` can always be called with what came back;
/// only the finished request accepts nothing. A right password moves on to
/// clearing the failed logins of that account, a wrong one to counting a
/// failure against it, and a stored refresh token to the successful answer.
pub proof fn lemma_signin_flow_is_live(
    config: Config,
    email: String,
    found: Option<User>,
    password_hash: String,
    user: User,
    user_agent: Option<String>,
    ok: bool,
    created: bool,
    access_token: String,
    refresh_token: String,
    event: SignInEvent,
    next: SignInStage,
    step: SignInStep,
)
    ensures
        signin_event_fits(SignInStage::CheckingEmail { email }, SignInEvent::AccountLookedUp(found)),
        signin_event_fits(SignInStage::HashingPassword { email }, SignInEvent::PasswordHashed(password_hash)),
        signin_event_fits(SignInStage::CreatingAccount, SignInEvent::AccountCreated(user)),
        signin_event_fits(SignInStage::LookingUpAccount { user_agent }, SignInEvent::AccountLookedUp(found)),
        signin_event_fits(SignInStage::CheckingPassword { user, user_agent }, SignInEvent::PasswordChecked(ok)),
        signin_event_fits(SignInStage::RecordingFailure, SignInEvent::FailureRecorded),
        signin_event_fits(SignInStage::ResettingFailures { user, user_agent }, SignInEvent::FailuresReset),
        signin_event_fits(
            SignInStage::SigningAccessToken { user, user_agent, created },
            SignInEvent::AccessTokenSigned(access_token),
        ),
        signin_event_fits(
            SignInStage::StoringRefreshToken { user, access_token, refresh_token, created },
            SignInEvent::RefreshTokenStored,
        ),
        !signin_event_fits(SignInStage::Finished, event),
        signin_step_ok(SignInStage::CheckingPassword { user, user_agent }, SignInEvent::PasswordChecked(true), config, next, step)
            ==> next == (SignInStage::ResettingFailures { user, user_agent }) && step == (SignInStep::ResetFailures {
            user_id: user.id,
        }),
        signin_step_ok(SignInStage::CheckingPassword { user, user_agent }, SignInEvent::PasswordChecked(false), config, next, step)
            ==> (next is RecordingFailure && (step matches SignInStep::RecordFailure { user_id, .. } && user_id == user.id)),
        signin_step_ok(
            SignInStage::StoringRefreshToken { user, access_token, refresh_token, created },
            SignInEvent::RefreshTokenStored,
            config,
            next,
            step,
        ) ==> next is Finished && step is Succeed,
{
}

} // verus!
