use media_pipeline::auth::refresh::hash_refresh_token;
use media_pipeline::auth::signin::{
    login_start, register_start, signin_event_matches, signin_step, SignInEvent, SignInStage, SignInStep,
};
use media_pipeline::config::{Config, EnvVars};
use media_pipeline::error::AppError;
use media_pipeline::time::Timestamp;
use media_pipeline::users::User;

fn config() -> Config {
    Config::from_vars(EnvVars {
        database_url: Some("postgres://db".to_string()),
        jwt_access_secret: Some("a".repeat(40)),
        jwt_refresh_secret: Some("b".repeat(40)),
        access_token_ttl_seconds: Some("600".to_string()),
        refresh_token_ttl_seconds: Some("3600".to_string()),
        server_addr: None,
        cors_origin: None,
        app_env: None,
        cloudinary_cloud_name: Some("demo".to_string()),
        cloudinary_api_key: Some("key".to_string()),
        cloudinary_api_secret: Some("secret".to_string()),
        cloudinary_notification_url: None,
        cookie_secure: Some("false".to_string()),
        cookie_same_site: Some("strict".to_string()),
    })
    .unwrap()
}

fn ts(secs: i64) -> Timestamp {
    Timestamp { secs, nanos: 0 }
}

fn account(locked_until: Option<Timestamp>) -> User {
    User {
        id: 42,
        email: "a@b.c".to_string(),
        password_hash: "$argon2id$stored".to_string(),
        is_verified: false,
        failed_login_attempts: 1,
        locked_until,
        created_at: ts(1),
        updated_at: ts(2),
    }
}

/// Drives the issuing part shared by register and login from the signed
/// access token on, and returns the final step.
fn finish(stage: SignInStage, config: &Config, user_agent: Option<&str>) -> SignInStep {
    let (stage, step) = signin_step(stage, SignInEvent::AccessTokenSigned("jwt".to_string()), config);
    let refresh_hash = match &step {
        SignInStep::StoreRefreshToken { user_id, token_hash, expires_at, user_agent: ua, ip_address } => {
            assert_eq!(*user_id, 42);
            assert_eq!(token_hash.len(), 64);
            assert_eq!(ua.as_deref(), user_agent);
            assert_eq!(*ip_address, None);
            assert!(expires_at.secs > 1_600_000_000);
            token_hash.clone()
        },
        other => panic!("unexpected step {:?}", other),
    };
    let (stage, step) = signin_step(stage, SignInEvent::RefreshTokenStored, config);
    assert!(matches!(stage, SignInStage::Finished));
    if let SignInStep::Succeed { cookie, .. } = &step {
        assert_eq!(hash_refresh_token(&cookie.value), refresh_hash);
    }
    step
}

#[test]
fn register_creates_the_account_and_issues_tokens() {
    let config = config();
    let (stage, step) = register_start("a@b.c".to_string());
    assert!(matches!(&step, SignInStep::LookupAccount { email } if email == "a@b.c"));

    let (stage, step) = signin_step(stage, SignInEvent::AccountLookedUp(None), &config);
    assert!(matches!(step, SignInStep::HashPassword));

    let (stage, step) = signin_step(stage, SignInEvent::PasswordHashed("$argon2id$new".to_string()), &config);
    match &step {
        SignInStep::CreateAccount { email, password_hash } => {
            assert_eq!(email, "a@b.c");
            assert_eq!(password_hash, "$argon2id$new");
        },
        other => panic!("unexpected step {:?}", other),
    }

    let (stage, step) = signin_step(stage, SignInEvent::AccountCreated(account(None)), &config);
    match &step {
        SignInStep::SignAccessToken { claims } => {
            assert_eq!(claims.sub, "00000000-0000-0000-0000-00000000002a");
            assert_eq!(claims.exp - claims.iat, 600);
        },
        other => panic!("unexpected step {:?}", other),
    }

    match finish(stage, &config, None) {
        SignInStep::Succeed { cookie, body, created } => {
            assert!(created);
            assert!(!cookie.secure);
            assert_eq!(cookie.max_age_seconds, 3600);
            assert_eq!(body.access_token, "jwt");
            assert_eq!(body.expires_in, 600);
            assert_eq!(body.user.email, "a@b.c");
        },
        other => panic!("unexpected step {:?}", other),
    }
}

#[test]
fn register_with_a_taken_email_is_refused() {
    let config = config();
    let (stage, _) = register_start("a@b.c".to_string());
    let (stage, step) = signin_step(stage, SignInEvent::AccountLookedUp(Some(account(None))), &config);
    assert!(matches!(stage, SignInStage::Finished));
    assert!(matches!(step, SignInStep::Fail(AppError::EmailTaken)));
}

#[test]
fn login_with_the_right_password_issues_tokens() {
    let config = config();
    let (stage, step) = login_start("a@b.c".to_string(), Some("curl/8".to_string()));
    assert!(matches!(&step, SignInStep::LookupAccount { email } if email == "a@b.c"));

    // A lock that has run out does not stop the login.
    let (stage, step) = signin_step(stage, SignInEvent::AccountLookedUp(Some(account(Some(ts(10))))), &config);
    assert!(matches!(&step, SignInStep::VerifyPassword { password_hash } if password_hash == "$argon2id$stored"));

    let (stage, step) = signin_step(stage, SignInEvent::PasswordChecked(true), &config);
    assert!(matches!(step, SignInStep::ResetFailures { user_id: 42 }));

    let (stage, step) = signin_step(stage, SignInEvent::FailuresReset, &config);
    assert!(matches!(step, SignInStep::SignAccessToken { .. }));

    match finish(stage, &config, Some("curl/8")) {
        SignInStep::Succeed { body, created, .. } => {
            assert!(!created);
            assert_eq!(body.user.id, 42);
            assert_eq!(body.token_type, "Bearer");
        },
        other => panic!("unexpected step {:?}", other),
    }
}

#[test]
fn login_with_a_wrong_password_counts_the_failure() {
    let config = config();
    let (stage, _) = login_start("a@b.c".to_string(), None);
    let (stage, _) = signin_step(stage, SignInEvent::AccountLookedUp(Some(account(None))), &config);
    let (stage, step) = signin_step(stage, SignInEvent::PasswordChecked(false), &config);
    assert!(matches!(step, SignInStep::RecordFailure { user_id: 42, max_attempts: 5, lock_minutes: 15 }));
    let (stage, step) = signin_step(stage, SignInEvent::FailureRecorded, &config);
    assert!(matches!(stage, SignInStage::Finished));
    assert!(matches!(step, SignInStep::Fail(AppError::InvalidCredentials)));
}

#[test]
fn login_of_unknown_or_locked_accounts_is_refused() {
    let config = config();
    let (stage, _) = login_start("nobody@b.c".to_string(), None);
    let (_, step) = signin_step(stage, SignInEvent::AccountLookedUp(None), &config);
    assert!(matches!(step, SignInStep::Fail(AppError::InvalidCredentials)));

    let (stage, _) = login_start("a@b.c".to_string(), None);
    let (_, step) = signin_step(stage, SignInEvent::AccountLookedUp(Some(account(Some(ts(4_000_000_000))))), &config);
    assert!(matches!(step, SignInStep::Fail(AppError::AccountLocked)));
}

#[test]
fn sign_in_events_out_of_step_are_detected() {
    let (stage, _) = login_start("a@b.c".to_string(), None);
    assert!(signin_event_matches(&stage, &SignInEvent::AccountLookedUp(None)));
    assert!(!signin_event_matches(&stage, &SignInEvent::PasswordHashed("h".to_string())));
    assert!(!signin_event_matches(&SignInStage::Finished, &SignInEvent::RefreshTokenStored));
}
