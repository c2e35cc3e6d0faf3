use media_pipeline::auth::flow::{RefreshToken, Revocation};
use media_pipeline::auth::refresh::hash_refresh_token;
use media_pipeline::auth::rotation::{refresh_event_matches, refresh_start, refresh_step, RefreshEvent, RefreshStage, RefreshStep};
use media_pipeline::config::{Config, EnvVars};
use media_pipeline::error::AppError;
use media_pipeline::time::Timestamp;
use media_pipeline::users::User;

fn config() -> Config {
    Config::from_vars(EnvVars {
        database_url: Some("postgres://db".to_string()),
        jwt_access_secret: Some("a".repeat(40)),
        jwt_refresh_secret: Some("b".repeat(40)),
        access_token_ttl_seconds: None,
        refresh_token_ttl_seconds: None,
        server_addr: None,
        cors_origin: None,
        app_env: None,
        cloudinary_cloud_name: Some("demo".to_string()),
        cloudinary_api_key: Some("key".to_string()),
        cloudinary_api_secret: Some("secret".to_string()),
        cloudinary_notification_url: None,
        cookie_secure: None,
        cookie_same_site: None,
    })
    .unwrap()
}

fn ts(secs: i64) -> Timestamp {
    Timestamp { secs, nanos: 0 }
}

fn account() -> User {
    User {
        id: 7,
        email: "a@b.c".to_string(),
        password_hash: "hash".to_string(),
        is_verified: true,
        failed_login_attempts: 0,
        locked_until: None,
        created_at: ts(1),
        updated_at: ts(2),
    }
}

fn stored(id: u128, revoked_at: Option<Timestamp>) -> RefreshToken {
    RefreshToken {
        id,
        user_id: 7,
        token_hash: hash_refresh_token("presented"),
        expires_at: ts(4_000_000_000),
        revoked_at,
        replaced_by: None,
        created_at: ts(0),
        user_agent: Some("curl".to_string()),
        ip_address: Some("10.0.0.1".to_string()),
    }
}

#[test]
fn refresh_without_cookie_is_unauthorized() {
    let (stage, step) = refresh_start(None);
    assert!(matches!(stage, RefreshStage::Finished));
    assert!(matches!(step, RefreshStep::Fail(AppError::Unauthorized)));
}

#[test]
fn successful_refresh_rotates_the_token() {
    let config = config();
    let (stage, step) = refresh_start(Some("presented"));
    match &step {
        RefreshStep::LookupToken { token_hash } => assert_eq!(token_hash, &hash_refresh_token("presented")),
        other => panic!("unexpected step {:?}", other),
    }

    let event = RefreshEvent::TokenLookedUp(Some(stored(11, None)));
    assert!(refresh_event_matches(&stage, &event));
    let (stage, step) = refresh_step(stage, event, &config);
    assert!(matches!(step, RefreshStep::LookupUser { user_id: 7 }));

    let (stage, step) = refresh_step(stage, RefreshEvent::UserLookedUp(Some(account())), &config);
    match &step {
        RefreshStep::SignAccessToken { claims } => {
            assert_eq!(claims.sub, "00000000-0000-0000-0000-000000000007");
            assert_eq!(claims.token_type, "access");
            assert_eq!(claims.exp - claims.iat, 900);
        },
        other => panic!("unexpected step {:?}", other),
    }

    let (stage, step) = refresh_step(stage, RefreshEvent::AccessTokenSigned("signed".to_string()), &config);
    let replacement_hash = match &step {
        RefreshStep::StoreReplacement { user_id, token_hash, user_agent, ip_address, .. } => {
            assert_eq!(*user_id, 7);
            assert_eq!(token_hash.len(), 64);
            assert_eq!(user_agent.as_deref(), Some("curl"));
            assert_eq!(ip_address.as_deref(), Some("10.0.0.1"));
            token_hash.clone()
        },
        other => panic!("unexpected step {:?}", other),
    };

    let (stage, step) = refresh_step(stage, RefreshEvent::ReplacementStored(stored(12, None)), &config);
    match &step {
        RefreshStep::RevokeToken(Revocation { token_id, replaced_by }) => {
            assert_eq!(*token_id, 11);
            assert_eq!(*replaced_by, Some(12));
        },
        other => panic!("unexpected step {:?}", other),
    }

    let (stage, step) = refresh_step(stage, RefreshEvent::PresentedRevoked, &config);
    assert!(matches!(stage, RefreshStage::Finished));
    match step {
        RefreshStep::Succeed { cookie, body } => {
            assert_eq!(cookie.name, "0x0RT");
            assert_eq!(cookie.value.len(), 43);
            assert_eq!(hash_refresh_token(&cookie.value), replacement_hash);
            assert_eq!(body.access_token, "signed");
            assert_eq!(body.token_type, "Bearer");
            assert_eq!(body.expires_in, 900);
            assert_eq!(body.user.id, 7);
        },
        other => panic!("unexpected step {:?}", other),
    }
}

#[test]
fn reused_refresh_token_revokes_every_session() {
    let config = config();
    let (stage, _) = refresh_start(Some("presented"));
    let (stage, step) = refresh_step(stage, RefreshEvent::TokenLookedUp(Some(stored(11, Some(ts(5))))), &config);
    assert!(matches!(stage, RefreshStage::RevokingAllSessions));
    assert!(matches!(step, RefreshStep::RevokeAllSessions { user_id: 7 }));
    let (stage, step) = refresh_step(stage, RefreshEvent::SessionsRevoked, &config);
    assert!(matches!(stage, RefreshStage::Finished));
    assert!(matches!(step, RefreshStep::Fail(AppError::Unauthorized)));
}

#[test]
fn unknown_or_expired_or_orphaned_tokens_are_refused() {
    let config = config();
    let (stage, _) = refresh_start(Some("presented"));
    let (_, step) = refresh_step(stage, RefreshEvent::TokenLookedUp(None), &config);
    assert!(matches!(step, RefreshStep::Fail(AppError::Unauthorized)));

    let mut expired = stored(11, None);
    expired.expires_at = ts(1);
    let (stage, _) = refresh_start(Some("presented"));
    let (_, step) = refresh_step(stage, RefreshEvent::TokenLookedUp(Some(expired)), &config);
    assert!(matches!(step, RefreshStep::Fail(AppError::Unauthorized)));

    let (stage, _) = refresh_start(Some("presented"));
    let (stage, _) = refresh_step(stage, RefreshEvent::TokenLookedUp(Some(stored(11, None))), &config);
    let (stage, step) = refresh_step(stage, RefreshEvent::UserLookedUp(None), &config);
    assert!(matches!(stage, RefreshStage::Finished));
    assert!(matches!(step, RefreshStep::Fail(AppError::Unauthorized)));
}

#[test]
fn events_out_of_step_are_detected() {
    let (stage, _) = refresh_start(Some("presented"));
    assert!(!refresh_event_matches(&stage, &RefreshEvent::SessionsRevoked));
    assert!(!refresh_event_matches(&RefreshStage::Finished, &RefreshEvent::PresentedRevoked));
}
