use base64::Engine;
use media_pipeline::auth::cookie::{build_refresh_cookie, removal_cookie, same_site_from_config, SameSitePolicy};
use media_pipeline::auth::flow::{
    after_password_check, auth_response, check_email_available, check_login_account,
    check_refresh_token, logout_message, logout_revocation, plan_refresh_token, plan_refresh_token_at,
    refresh_account, refresh_lookup_hash, rotation_revocation, LoginAction, RefreshCheck, RefreshToken,
    Revocation, LOCK_MINUTES, MAX_FAILED_ATTEMPTS,
};
use media_pipeline::auth::jwt::{access_claims_at, current_user_from_claims, current_user_from_parsed, issue_access_claims, AccessClaims, CurrentUser};
use media_pipeline::auth::refresh::{generate_refresh_token, hash_refresh_token};
use media_pipeline::config::{Config, EnvVars};
use media_pipeline::error::AppError;
use media_pipeline::time::Timestamp;
use media_pipeline::users::{User, UserResponse};

fn config() -> Config {
    Config::from_vars(EnvVars {
        database_url: Some("postgres://db".to_string()),
        jwt_access_secret: Some("a".repeat(40)),
        jwt_refresh_secret: Some("b".repeat(40)),
        access_token_ttl_seconds: None,
        refresh_token_ttl_seconds: None,
        server_addr: None,
        cors_origin: None,
        app_env: None,
        cloudinary_cloud_name: Some("demo".to_string()),
        cloudinary_api_key: Some("key".to_string()),
        cloudinary_api_secret: Some("secret".to_string()),
        cloudinary_notification_url: None,
        cookie_secure: None,
        cookie_same_site: Some("None".to_string()),
    })
    .unwrap()
}

fn ts(secs: i64) -> Timestamp {
    Timestamp { secs, nanos: 0 }
}

fn user(locked_until: Option<Timestamp>) -> User {
    User {
        id: 7,
        email: "a@b.c".to_string(),
        password_hash: "hash".to_string(),
        is_verified: false,
        failed_login_attempts: 2,
        locked_until,
        created_at: ts(1),
        updated_at: ts(2),
    }
}

fn token(revoked_at: Option<Timestamp>, expires_at: i64) -> RefreshToken {
    RefreshToken {
        id: 11,
        user_id: 7,
        token_hash: "h".to_string(),
        expires_at: ts(expires_at),
        revoked_at,
        replaced_by: None,
        created_at: ts(0),
        user_agent: Some("curl".to_string()),
        ip_address: None,
    }
}

#[test]
fn refresh_token_hash_is_sha256_hex() {
    assert_eq!(
        hash_refresh_token("abc"),
        "ba7816bf8f01cfea414140de5dae2223b00361a396177a9cb410ff61f20015ad"
    );
    assert_eq!(hash_refresh_token("x").len(), 64);
}

#[test]
fn generated_refresh_tokens() {
    let a = generate_refresh_token();
    let b = generate_refresh_token();
    assert_eq!(a.len(), 43);
    assert!(a.chars().all(|c| c.is_ascii_alphanumeric() || c == '-' || c == '_'));
    assert_ne!(a, b);
    let raw = base64::engine::general_purpose::URL_SAFE_NO_PAD.decode(&a).unwrap();
    assert_eq!(raw.len(), 32);
}

#[test]
fn refresh_plan_hashes_its_token() {
    let p = plan_refresh_token_at(&ts(1000), 60);
    assert_eq!(p.token_hash, hash_refresh_token(&p.token));
    assert_eq!(p.expires_at, ts(1060));
    let q = plan_refresh_token(1209600).unwrap();
    assert_eq!(q.token_hash, hash_refresh_token(&q.token));
    assert!(plan_refresh_token(i64::MAX).is_none());
}

#[test]
fn access_claims_and_authentication() {
    let id: u128 = 0x550e8400e29b41d4a716446655440000;
    let c = access_claims_at(id, &Timestamp { secs: 1700000000, nanos: 5 }, 900);
    assert_eq!(c.sub, "550e8400-e29b-41d4-a716-446655440000");
    assert_eq!(c.iat, 1700000000);
    assert_eq!(c.exp, 1700000900);
    assert_eq!(c.token_type, "access");
    assert_eq!(current_user_from_claims(&c).unwrap(), CurrentUser { user_id: id });
    let issued = issue_access_claims(id, 900).unwrap();
    assert_eq!(issued.exp - issued.iat, 900);
    assert!(issue_access_claims(id, i64::MAX).is_none());
}

#[test]
fn claims_that_do_not_authenticate() {
    let wrong_type = AccessClaims {
        sub: "550e8400-e29b-41d4-a716-446655440000".to_string(),
        iat: 0,
        exp: 10,
        token_type: "refresh".to_string(),
    };
    assert!(matches!(current_user_from_claims(&wrong_type), Err(AppError::Unauthorized)));
    let bad_sub = AccessClaims { sub: "not-a-uuid".to_string(), iat: 0, exp: 10, token_type: "access".to_string() };
    assert!(matches!(current_user_from_claims(&bad_sub), Err(AppError::Unauthorized)));
    assert_eq!(current_user_from_parsed(&bad_sub, Some(3)).unwrap(), CurrentUser { user_id: 3 });
    assert!(matches!(current_user_from_parsed(&wrong_type, Some(3)), Err(AppError::Unauthorized)));
}

#[test]
fn cookies() {
    assert_eq!(same_site_from_config("STRICT"), SameSitePolicy::Strict);
    assert_eq!(same_site_from_config("none"), SameSitePolicy::CrossSite);
    assert_eq!(same_site_from_config("lax"), SameSitePolicy::Lax);
    assert_eq!(same_site_from_config("whatever"), SameSitePolicy::Lax);
    let c = build_refresh_cookie(&config(), "tok".to_string());
    assert_eq!(c.name, "0x0RT");
    assert_eq!(c.value, "tok");
    assert!(c.http_only);
    assert!(c.secure);
    assert_eq!(c.same_site, SameSitePolicy::CrossSite);
    assert_eq!(c.path, "/api/auth");
    assert_eq!(c.max_age_seconds, 1209600);
    let r = removal_cookie();
    assert_eq!((r.name.as_str(), r.value.as_str(), r.path.as_str()), ("0x0RT", "", "/api/auth"));
}

#[test]
fn register_and_login_decisions() {
    assert!(matches!(check_email_available(&Some(user(None))), Err(AppError::EmailTaken)));
    assert!(check_email_available(&None).is_ok());
    assert!(matches!(check_login_account(None, &ts(10)), Err(AppError::InvalidCredentials)));
    assert!(matches!(check_login_account(Some(user(Some(ts(20)))), &ts(10)), Err(AppError::AccountLocked)));
    assert!(check_login_account(Some(user(Some(ts(20)))), &ts(20)).is_ok());
    assert!(check_login_account(Some(user(Some(ts(5)))), &ts(10)).is_ok());
    assert!(check_login_account(Some(user(None)), &ts(10)).is_ok());
    assert_eq!(
        after_password_check(&user(None), false),
        LoginAction::RecordFailure { user_id: 7, max_attempts: MAX_FAILED_ATTEMPTS, lock_minutes: LOCK_MINUTES }
    );
    assert_eq!(MAX_FAILED_ATTEMPTS, 5);
    assert_eq!(LOCK_MINUTES, 15);
    assert_eq!(after_password_check(&user(None), true), LoginAction::ResetAndIssue { user_id: 7 });
    let r = auth_response("jwt".to_string(), &config(), user(None));
    assert_eq!(r.token_type, "Bearer");
    assert_eq!(r.expires_in, 900);
    assert_eq!(r.user.id, 7);
    assert_eq!(r.user.email, "a@b.c");
    let plain: UserResponse = UserResponse::from(user(None));
    assert_eq!(plain.created_at, ts(1));
}

#[test]
fn refresh_decisions() {
    assert!(matches!(refresh_lookup_hash(None), Err(AppError::Unauthorized)));
    assert_eq!(refresh_lookup_hash(Some("abc")).unwrap(), hash_refresh_token("abc"));
    assert_eq!(check_refresh_token(&None, &ts(10)), RefreshCheck::Reject);
    assert_eq!(
        check_refresh_token(&Some(token(Some(ts(3)), 100)), &ts(10)),
        RefreshCheck::RevokeAllAndReject { user_id: 7 }
    );
    assert_eq!(check_refresh_token(&Some(token(None, 5)), &ts(10)), RefreshCheck::Reject);
    assert_eq!(
        check_refresh_token(&Some(token(None, 100)), &ts(10)),
        RefreshCheck::Rotate { token_id: 11, user_id: 7 }
    );
    assert!(matches!(refresh_account(None), Err(AppError::Unauthorized)));
    let mut replacement = token(None, 200);
    replacement.id = 12;
    assert_eq!(
        rotation_revocation(&token(None, 100), &replacement),
        Revocation { token_id: 11, replaced_by: Some(12) }
    );
}

#[test]
fn logout_decisions() {
    assert_eq!(logout_revocation(&None), None);
    assert_eq!(logout_revocation(&Some(token(Some(ts(1)), 100))), None);
    assert_eq!(
        logout_revocation(&Some(token(None, 100))),
        Some(Revocation { token_id: 11, replaced_by: None })
    );
    assert_eq!(logout_message(), "logged out");
}

#[test]
fn revoked_token_presented_again_is_reuse() {
    let presented = token(None, 100);
    assert_eq!(check_refresh_token(&Some(presented.clone()), &ts(10)), RefreshCheck::Rotate { token_id: 11, user_id: 7 });
    let mut after = presented;
    after.revoked_at = Some(ts(10));
    after.replaced_by = Some(12);
    assert_eq!(check_refresh_token(&Some(after), &ts(11)), RefreshCheck::RevokeAllAndReject { user_id: 7 });
}

#[test]
fn fifth_failed_login_locks_for_fifteen_minutes() {
    // The row update a failed login performs once the limit is reached.
    let now = ts(1_000);
    let mut u = user(None);
    u.failed_login_attempts = MAX_FAILED_ATTEMPTS - 1;
    u.failed_login_attempts += 1;
    u.locked_until = Some(Timestamp { secs: now.secs + 60 * LOCK_MINUTES, nanos: now.nanos });
    assert!(matches!(check_login_account(Some(u.clone()), &ts(1_000)), Err(AppError::AccountLocked)));
    assert!(matches!(check_login_account(Some(u.clone()), &ts(1_899)), Err(AppError::AccountLocked)));
    assert!(check_login_account(Some(u.clone()), &ts(1_900)).is_ok());
    // A successful login clears the lock.
    u.failed_login_attempts = 0;
    u.locked_until = None;
    assert!(check_login_account(Some(u), &ts(1_000)).is_ok());
}
