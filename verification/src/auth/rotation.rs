//! The refresh flow as a machine: from the stage it is in and the outcome
//! of the last piece of outside work, the next stage and the next thing
//! to do. The caller performs each step (a database query, signing the
//! access token) and reports back.

use vstd::prelude::*;
use crate::auth::cookie::{build_refresh_cookie, is_refresh_cookie, RefreshCookie};
use crate::auth::flow::{
    auth_response, check_refresh_token_now, is_auth_response, is_refresh_plan, plan_refresh_token,
    refresh_check, refresh_lookup_hash, rotation_revocation, AuthResponse, RefreshCheck, RefreshToken,
    Revocation,
};
use crate::auth::jwt::{issue_access_claims, is_access_claims, AccessClaims};
use crate::auth::refresh::refresh_token_hash_text;
use crate::config::Config;
use crate::error::AppError;
use crate::time::{can_add_seconds, clock_reading, Timestamp};
use crate::users::User;

verus! {

/// Where a refresh stands.
#[derive(Clone, Debug)]
pub enum RefreshStage {
    /// Waiting for the stored token with the presented token's hash.
    LookingUpToken,
    /// A revoked token was presented: waiting for every session of its
    /// user to be revoked.
    RevokingAllSessions,
    /// The presented token is live: waiting for its account.
    LookingUpUser { presented: RefreshToken },
    /// Waiting for the access token to be signed.
    SigningAccessToken { presented: RefreshToken, user: User },
    /// Waiting for the replacement refresh token to be stored.
    StoringReplacement { presented: RefreshToken, user: User, access_token: String, replacement: String },
    /// Waiting for the presented token to be revoked.
    RevokingPresented { user: User, access_token: String, replacement: String },
    /// Nothing left to do.
    Finished,
}

/// The outcome of the outside work the last step asked for.
#[derive(Clone, Debug)]
pub enum RefreshEvent {
    TokenLookedUp(Option<RefreshToken>),
    SessionsRevoked,
    UserLookedUp(Option<User>),
    AccessTokenSigned(String),
    ReplacementStored(RefreshToken),
    PresentedRevoked,
}

/// What to do next.
#[derive(Clone, Debug)]
pub enum RefreshStep {
    /// Look the stored token up by its hash.
    LookupToken { token_hash: String },
    /// Revoke every live refresh token of the user.
    RevokeAllSessions { user_id: u128 },
    /// Look the account up.
    LookupUser { user_id: u128 },
    /// Sign these claims as the new access token.
    SignAccessToken { claims: AccessClaims },
    /// Store a refresh token row.
    StoreReplacement {
        user_id: u128,
        token_hash: String,
        expires_at: Timestamp,
        user_agent: Option<String>,
        ip_address: Option<String>,
    },
    /// Revoke a stored refresh token.
    RevokeToken(Revocation),
    /// Answer with this cookie and body.
    Succeed { cookie: RefreshCookie, body: AuthResponse },
    /// Answer with this error.
    Fail(AppError),
    /// A token lifetime added to the current time leaves `chrono`'s range;
    /// the service stops.
    LifetimeOverflow { ttl_seconds: i64 },
}

/// `event` is the kind of outcome `stage` waits for.
pub open spec fn refresh_event_fits(stage: RefreshStage, event: RefreshEvent) -> bool {
    match (stage, event) {
        (RefreshStage::LookingUpToken, RefreshEvent::TokenLookedUp(_)) => true,
        (RefreshStage::RevokingAllSessions, RefreshEvent::SessionsRevoked) => true,
        (RefreshStage::LookingUpUser { .. }, RefreshEvent::UserLookedUp(_)) => true,
        (RefreshStage::SigningAccessToken { .. }, RefreshEvent::AccessTokenSigned(_)) => true,
        (RefreshStage::StoringReplacement { .. }, RefreshEvent::ReplacementStored(_)) => true,
        (RefreshStage::RevokingPresented { .. }, RefreshEvent::PresentedRevoked) => true,
        _ => false,
    }
}

/// Whether `event` is the kind of outcome `stage` waits for.
pub fn refresh_event_matches(stage: &RefreshStage, event: &RefreshEvent) -> (res: bool)
    ensures
        res == refresh_event_fits(*stage, *event),
{
    match (stage, event) {
        (RefreshStage::LookingUpToken, RefreshEvent::TokenLookedUp(_)) => true,
        (RefreshStage::RevokingAllSessions, RefreshEvent::SessionsRevoked) => true,
        (RefreshStage::LookingUpUser { .. }, RefreshEvent::UserLookedUp(_)) => true,
        (RefreshStage::SigningAccessToken { .. }, RefreshEvent::AccessTokenSigned(_)) => true,
        (RefreshStage::StoringReplacement { .. }, RefreshEvent::ReplacementStored(_)) => true,
        (RefreshStage::RevokingPresented { .. }, RefreshEvent::PresentedRevoked) => true,
        _ => false,
    }
}

/// The unauthorized answer that ends a refresh.
pub open spec fn refused(next: RefreshStage, step: RefreshStep) -> bool {
    next is Finished && step == RefreshStep::Fail(AppError::Unauthorized)
}

/// How a refresh starts: without a refresh cookie it is unauthorized;
/// otherwise the presented token is looked up by its hash.
pub open spec fn refresh_start_ok(cookie_value: Option<Seq<char>>, next: RefreshStage, step: RefreshStep) -> bool {
    match cookie_value {
        None => refused(next, step),
        Some(v) => next is LookingUpToken && (step matches RefreshStep::LookupToken { token_hash }
            && token_hash@ == refresh_token_hash_text(v)),
    }
}

/// One move of the refresh flow: from `stage`, on `event`, to `next`
/// asking for `step`. Where the current time matters, some reading of
/// the clock explains the move.
pub open spec fn refresh_step_ok(stage: RefreshStage, event: RefreshEvent, config: Config, next: RefreshStage, step: RefreshStep) -> bool {
    match (stage, event) {
        (RefreshStage::LookingUpToken, RefreshEvent::TokenLookedUp(found)) => exists|now: Timestamp|
            #[trigger] clock_reading(now) && match refresh_check(found, now) {
                RefreshCheck::Reject => refused(next, step),
                RefreshCheck::RevokeAllAndReject { user_id } => next is RevokingAllSessions && step
                    == RefreshStep::RevokeAllSessions { user_id },
                RefreshCheck::Rotate { token_id, user_id } => next == (RefreshStage::LookingUpUser {
                    presented: found->0,
                }) && step == RefreshStep::LookupUser { user_id },
            },
        (RefreshStage::RevokingAllSessions, RefreshEvent::SessionsRevoked) => refused(next, step),
        (RefreshStage::LookingUpUser { presented }, RefreshEvent::UserLookedUp(found)) => match found {
            None => refused(next, step),
            Some(user) => exists|now: Timestamp|
                #[trigger] clock_reading(now) && if can_add_seconds(now, config.access_token_ttl_seconds as int) {
                    &&& step matches RefreshStep::SignAccessToken { claims }
                    &&& is_access_claims(claims, user.id, now, config.access_token_ttl_seconds as int)
                    &&& next == (RefreshStage::SigningAccessToken { presented, user })
                } else {
                    next is Finished && step == (RefreshStep::LifetimeOverflow {
                        ttl_seconds: config.access_token_ttl_seconds,
                    })
                },
        },
        (RefreshStage::SigningAccessToken { presented, user }, RefreshEvent::AccessTokenSigned(token)) => exists|now: Timestamp|
            #[trigger] clock_reading(now) && if can_add_seconds(now, config.refresh_token_ttl_seconds as int) {
                &&& step matches RefreshStep::StoreReplacement {
                    user_id,
                    token_hash,
                    expires_at,
                    user_agent,
                    ip_address,
                }
                &&& next matches RefreshStage::StoringReplacement {
                    presented: p,
                    user: u,
                    access_token,
                    replacement,
                }
                &&& user_id == user.id && user_agent == presented.user_agent && ip_address
                    == presented.ip_address
                &&& p == presented && u == user && access_token == token
                &&& token_hash@ == refresh_token_hash_text(replacement@)
                &&& expires_at.secs == now.secs + config.refresh_token_ttl_seconds
                    && expires_at.nanos == now.nanos
                &&& replacement@.len() == 43
            } else {
                next is Finished && step == (RefreshStep::LifetimeOverflow {
                    ttl_seconds: config.refresh_token_ttl_seconds,
                })
            },
        (
            RefreshStage::StoringReplacement { presented, user, access_token, replacement },
            RefreshEvent::ReplacementStored(stored),
        ) => next == (RefreshStage::RevokingPresented { user, access_token, replacement }) && step
            == RefreshStep::RevokeToken(Revocation { token_id: presented.id, replaced_by: Some(stored.id) }),
        (RefreshStage::RevokingPresented { user, access_token, replacement }, RefreshEvent::PresentedRevoked) => {
            &&& next is Finished
            &&& step matches RefreshStep::Succeed { cookie, body }
            &&& is_refresh_cookie(cookie, config, replacement@)
            &&& is_auth_response(body, access_token@, config, user)
        },
        _ => false,
    }
}

/// Starts a refresh with the value of the refresh cookie, if any.
pub fn refresh_start(cookie_value: Option<&str>) -> (res: (RefreshStage, RefreshStep))
    ensures
        refresh_start_ok(
            match cookie_value {
                Some(v) => Some(v@),
                None => None,
            },
            res.0,
            res.1,
        ),
{
    match refresh_lookup_hash(cookie_value) {
        Ok(token_hash) => (RefreshStage::LookingUpToken, RefreshStep::LookupToken { token_hash }),
        Err(e) => (RefreshStage::Finished, RefreshStep::Fail(e)),
    }
}

/// Moves the refresh flow on.
pub fn refresh_step(stage: RefreshStage, event: RefreshEvent, config: &Config) -> (res: (RefreshStage, RefreshStep))
    requires
        refresh_event_fits(stage, event),
    ensures
        refresh_step_ok(stage, event, *config, res.0, res.1),
{
    match (stage, event) {
        (RefreshStage::LookingUpToken, RefreshEvent::TokenLookedUp(found)) => {
            let check = check_refresh_token_now(&found);
            let ghost now = choose|now: Timestamp| #[trigger] clock_reading(now) && check == refresh_check(found, now);
            let res = match check {
                RefreshCheck::Reject => (RefreshStage::Finished, RefreshStep::Fail(AppError::Unauthorized)),
                RefreshCheck::RevokeAllAndReject { user_id } => (
                    RefreshStage::RevokingAllSessions,
                    RefreshStep::RevokeAllSessions { user_id },
                ),
                RefreshCheck::Rotate { token_id, user_id } => {
                    match found {
                        Some(presented) => (
                            RefreshStage::LookingUpUser { presented },
                            RefreshStep::LookupUser { user_id },
                        ),
                        None => (RefreshStage::Finished, RefreshStep::Fail(AppError::Unauthorized)),
                    }
                },
            };
            assert(clock_reading(now));
            res
        },
        (RefreshStage::RevokingAllSessions, RefreshEvent::SessionsRevoked) => {
            (RefreshStage::Finished, RefreshStep::Fail(AppError::Unauthorized))
        },
        (RefreshStage::LookingUpUser { presented }, RefreshEvent::UserLookedUp(found)) => {
            match found {
                None => (RefreshStage::Finished, RefreshStep::Fail(AppError::Unauthorized)),
                Some(user) => {
                    let ttl = config.access_token_ttl_seconds;
                    match issue_access_claims(user.id, ttl) {
                        Some(claims) => {
                            let ghost now = choose|now: Timestamp|
                                #[trigger] clock_reading(now) && can_add_seconds(now, ttl as int)
                                    && is_access_claims(claims, user.id, now, ttl as int);
                            assert(clock_reading(now));
                            (
                                RefreshStage::SigningAccessToken { presented, user },
                                RefreshStep::SignAccessToken { claims },
                            )
                        },
                        None => {
                            let ghost now = choose|now: Timestamp|
                                #[trigger] clock_reading(now) && !can_add_seconds(now, ttl as int);
                            assert(clock_reading(now));
                            (RefreshStage::Finished, RefreshStep::LifetimeOverflow { ttl_seconds: ttl })
                        },
                    }
                },
            }
        },
        (RefreshStage::SigningAccessToken { presented, user }, RefreshEvent::AccessTokenSigned(access_token)) => {
            let ttl = config.refresh_token_ttl_seconds;
            match plan_refresh_token(ttl) {
                Some(plan) => {
                    let ghost now = choose|now: Timestamp|
                        #[trigger] clock_reading(now) && can_add_seconds(now, ttl as int)
                            && is_refresh_plan(plan, now, ttl as int);
                    assert(clock_reading(now));
                    let step = RefreshStep::StoreReplacement {
                        user_id: user.id,
                        token_hash: plan.token_hash,
                        expires_at: plan.expires_at,
                        user_agent: presented.user_agent.clone(),
                        ip_address: presented.ip_address.clone(),
                    };
                    (
                        RefreshStage::StoringReplacement {
                            presented,
                            user,
                            access_token,
                            replacement: plan.token,
                        },
                        step,
                    )
                },
                None => {
                    let ghost now = choose|now: Timestamp|
                        #[trigger] clock_reading(now) && !can_add_seconds(now, ttl as int);
                    assert(clock_reading(now));
                    (RefreshStage::Finished, RefreshStep::LifetimeOverflow { ttl_seconds: ttl })
                },
            }
        },
        (
            RefreshStage::StoringReplacement { presented, user, access_token, replacement },
            RefreshEvent::ReplacementStored(stored),
        ) => {
            let revocation = rotation_revocation(&presented, &stored);
            (
                RefreshStage::RevokingPresented { user, access_token, replacement },
                RefreshStep::RevokeToken(revocation),
            )
        },
        (RefreshStage::RevokingPresented { user, access_token, replacement }, RefreshEvent::PresentedRevoked) => {
            let cookie = build_refresh_cookie(config, replacement);
            let body = auth_response(access_token, config, user);
            (RefreshStage::Finished, RefreshStep::Succeed { cookie, body })
        },
        _ => (RefreshStage::Finished, RefreshStep::Fail(AppError::Unauthorized)),
    }
}

/// `stages`, `events` and `steps` are a run of the refresh flow started
/// with `cookie_value`: `stages[i]` and `steps[i]` are where the flow stood
/// and what it asked for before the `i`-th outcome `events[i]` came back.
pub open spec fn refresh_run(
    config: Config,
    cookie_value: Option<Seq<char>>,
    stages: Seq<RefreshStage>,
    events: Seq<RefreshEvent>,
    steps: Seq<RefreshStep>,
) -> bool {
    &&& stages.len() == events.len() + 1
    &&& steps.len() == stages.len()
    &&& refresh_start_ok(cookie_value, stages[0], steps[0])
    &&& forall|i: int|
        0 <= i < events.len() ==> refresh_event_fits(stages[i], #[trigger] events[i])
            && refresh_step_ok(stages[i], events[i], config, stages[i + 1], steps[i + 1])
}

proof fn lemma_previous_stage(stage: RefreshStage, event: RefreshEvent, config: Config, next: RefreshStage, step: RefreshStep)
    requires
        refresh_step_ok(stage, event, config, next, step),
    ensures
        !(next is LookingUpToken),
        next is LookingUpUser ==> stage is LookingUpToken,
        next is SigningAccessToken ==> stage is LookingUpUser,
        next is StoringReplacement ==> stage is SigningAccessToken,
        next is RevokingPresented ==> stage is StoringReplacement,
        step is Succeed ==> stage is RevokingPresented,
{
}

/// Law (rotation): a refresh that succeeds took exactly six steps — look
/// the presented token up by the hash of the cookie's value, look its
/// account up, sign an access token, store a replacement refresh token,
/// revoke the presented token in favour of that replacement, answer — and
/// the token it found was never revoked before.
pub proof fn lemma_successful_refresh_rotates(
    config: Config,
    cookie_value: Option<Seq<char>>,
    stages: Seq<RefreshStage>,
    events: Seq<RefreshEvent>,
    steps: Seq<RefreshStep>,
)
    requires
        refresh_run(config, cookie_value, stages, events, steps),
        steps.last() is Succeed,
    ensures
        events.len() == 5,
        cookie_value is Some,
        steps[0] matches RefreshStep::LookupToken { token_hash } && token_hash@ == refresh_token_hash_text(
            cookie_value->0,
        ),
        events[0] matches RefreshEvent::TokenLookedUp(Some(t)) && ({
            &&& t.revoked_at is None
            &&& steps[1] == (RefreshStep::LookupUser { user_id: t.user_id })
            &&& (events[1] matches RefreshEvent::UserLookedUp(Some(u)) && {
                &&& (steps[2] matches RefreshStep::SignAccessToken { claims } && claims.sub@
                    == crate::ids::uuid_text(u.id))
                &&& (steps[3] matches RefreshStep::StoreReplacement { user_id, .. } && user_id == u.id)
            })
            &&& (events[3] matches RefreshEvent::ReplacementStored(r) && steps[4]
                == RefreshStep::RevokeToken(Revocation { token_id: t.id, replaced_by: Some(r.id) }))
        }),
{
    let n = events.len() as int;
    // The first stage waits for the token lookup, or the run already ended.
    assert(stages[0] is LookingUpToken || stages[0] is Finished);
    if n == 0 {
        assert(steps[0] is LookupToken || steps[0] is Fail);
        assert(false);
    }
    assert forall|i: int| 0 <= i < n implies #[trigger] stages[i + 1] !is LookingUpToken by {
        assert(refresh_step_ok(stages[i], events[i], config, stages[i + 1], steps[i + 1]));
        lemma_previous_stage(stages[i], events[i], config, stages[i + 1], steps[i + 1]);
    }
    assert(refresh_event_fits(stages[n - 1], events[n - 1]));
    lemma_previous_stage(stages[n - 1], events[n - 1], config, stages[n], steps[n]);
    assert(stages[n - 1] is RevokingPresented);
    assert(n - 1 >= 1);
    assert(refresh_event_fits(stages[n - 2], events[n - 2]));
    lemma_previous_stage(stages[n - 2], events[n - 2], config, stages[n - 1], steps[n - 1]);
    assert(stages[n - 2] is StoringReplacement);
    assert(n - 2 >= 1);
    assert(refresh_event_fits(stages[n - 3], events[n - 3]));
    lemma_previous_stage(stages[n - 3], events[n - 3], config, stages[n - 2], steps[n - 2]);
    assert(stages[n - 3] is SigningAccessToken);
    assert(n - 3 >= 1);
    assert(refresh_event_fits(stages[n - 4], events[n - 4]));
    lemma_previous_stage(stages[n - 4], events[n - 4], config, stages[n - 3], steps[n - 3]);
    assert(stages[n - 4] is LookingUpUser);
    assert(n - 4 >= 1);
    assert(refresh_event_fits(stages[n - 5], events[n - 5]));
    lemma_previous_stage(stages[n - 5], events[n - 5], config, stages[n - 4], steps[n - 4]);
    assert(stages[n - 5] is LookingUpToken);
    if n - 5 > 0 {
        assert(stages[(n - 6) + 1] !is LookingUpToken);
        assert(false);
    }
    assert(n == 5);
    assert(cookie_value is Some);
    assert(refresh_event_fits(stages[0], events[0]) && refresh_step_ok(stages[0], events[0], config, stages[1], steps[1]));
    assert(refresh_event_fits(stages[1], events[1]) && refresh_step_ok(stages[1], events[1], config, stages[2], steps[2]));
    assert(refresh_event_fits(stages[2], events[2]) && refresh_step_ok(stages[2], events[2], config, stages[3], steps[3]));
    assert(refresh_event_fits(stages[3], events[3]) && refresh_step_ok(stages[3], events[3], config, stages[4], steps[4]));
    assert(refresh_event_fits(stages[4], events[4]) && refresh_step_ok(stages[4], events[4], config, stages[5], steps[5]));
}

/// Law (reuse): presenting a token that was already revoked makes the flow
/// revoke every session of its owner and then refuse the request.
pub proof fn lemma_reused_token_revokes_all_sessions(
    config: Config,
    found: RefreshToken,
    next: RefreshStage,
    step: RefreshStep,
    after: RefreshStage,
    answer: RefreshStep,
)
    requires
        found.revoked_at is Some,
        refresh_step_ok(RefreshStage::LookingUpToken, RefreshEvent::TokenLookedUp(Some(found)), config, next, step),
        refresh_step_ok(next, RefreshEvent::SessionsRevoked, config, after, answer),
    ensures
        next is RevokingAllSessions,
        step == (RefreshStep::RevokeAllSessions { user_id: found.user_id }),
        refused(after, answer),
{
}

/// Law (liveness): every stage of the refresh flow accepts every outcome of
/// the work it asked for, so `refresh_step` can always be called with what
/// came back; only the finished flow accepts nothing. Along the rotation
/// path each accepted outcome moves on: a found account leads to signing an
/// access token (or the service stops on a lifetime out of range), a
/// stored replacement to revoking the presented token in its favour, and
/// the revocation to the successful answer.
pub proof fn lemma_refresh_flow_is_live(
    config: Config,
    found_token: Option<RefreshToken>,
    presented: RefreshToken,
    found_user: Option<User>,
    user: User,
    access_token: String,
    replacement: String,
    stored: RefreshToken,
    event: RefreshEvent,
    next: RefreshStage,
    step: RefreshStep,
)
    ensures
        refresh_event_fits(RefreshStage::LookingUpToken, RefreshEvent::TokenLookedUp(found_token)),
        refresh_event_fits(RefreshStage::RevokingAllSessions, RefreshEvent::SessionsRevoked),
        refresh_event_fits(RefreshStage::LookingUpUser { presented }, RefreshEvent::UserLookedUp(found_user)),
        refresh_event_fits(
            RefreshStage::SigningAccessToken { presented, user },
            RefreshEvent::AccessTokenSigned(access_token),
        ),
        refresh_event_fits(
            RefreshStage::StoringReplacement { presented, user, access_token, replacement },
            RefreshEvent::ReplacementStored(stored),
        ),
        refresh_event_fits(
            RefreshStage::RevokingPresented { user, access_token, replacement },
            RefreshEvent::PresentedRevoked,
        ),
        !refresh_event_fits(RefreshStage::Finished, event),
        refresh_step_ok(RefreshStage::LookingUpUser { presented }, RefreshEvent::UserLookedUp(Some(user)), config, next, step)
            ==> (next == (RefreshStage::SigningAccessToken { presented, user }) && step is SignAccessToken)
            || step is LifetimeOverflow,
        refresh_step_ok(
            RefreshStage::StoringReplacement { presented, user, access_token, replacement },
            RefreshEvent::ReplacementStored(stored),
            config,
            next,
            step,
        ) ==> next == (RefreshStage::RevokingPresented { user, access_token, replacement }) && step
            == RefreshStep::RevokeToken(Revocation { token_id: presented.id, replaced_by: Some(stored.id) }),
        refresh_step_ok(
            RefreshStage::RevokingPresented { user, access_token, replacement },
            RefreshEvent::PresentedRevoked,
            config,
            next,
            step,
        ) ==> next is Finished && step is Succeed,
{
}

} // verus!
