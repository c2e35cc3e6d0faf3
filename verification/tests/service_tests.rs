use media_pipeline::config::{Config, EnvVars};
use media_pipeline::error::AppError;
use media_pipeline::storage::client::CloudinaryClient;
use media_pipeline::storage::webhook::{authenticate_webhook, compute_signature, invalid_payload, plan_webhook, plan_webhook_parsed, WebhookAction};
use media_pipeline::time::Timestamp;
use media_pipeline::videos::{create_video_response, new_video_id, resolve_response, upload_response, Video, VideoResponse, VideoStatus};
use sha1::Digest;

fn config(notification_url: Option<&str>) -> Config {
    Config::from_vars(EnvVars {
        database_url: Some("postgres://db".to_string()),
        jwt_access_secret: Some("a".repeat(40)),
        jwt_refresh_secret: Some("b".repeat(40)),
        access_token_ttl_seconds: None,
        refresh_token_ttl_seconds: None,
        server_addr: None,
        cors_origin: None,
        app_env: None,
        cloudinary_cloud_name: Some("demo".to_string()),
        cloudinary_api_key: Some("key123".to_string()),
        cloudinary_api_secret: Some("shh".to_string()),
        cloudinary_notification_url: notification_url.map(|u| u.to_string()),
        cookie_secure: None,
        cookie_same_site: None,
    })
    .unwrap()
}

fn sha1_hex(data: &[u8]) -> String {
    hex::encode(sha1::Sha1::digest(data))
}

fn video(thumbnail: Option<&str>, manifest: Option<&str>) -> Video {
    Video {
        id: 5,
        user_id: 6,
        title: "clip".to_string(),
        status: VideoStatus::Ready,
        storage_key: "k".to_string(),
        duration_seconds: Some(12),
        thumbnail_key: thumbnail.map(|s| s.to_string()),
        hls_manifest_key: manifest.map(|s| s.to_string()),
        error_message: None,
        created_at: Timestamp { secs: 1, nanos: 0 },
        updated_at: Timestamp { secs: 2, nanos: 0 },
    }
}

#[test]
fn signed_upload_without_notification_url() {
    let client = CloudinaryClient::from_config(&config(None));
    let s = client.signed_upload_at("abc", 1700000000);
    assert_eq!(s.upload_url, "https://api.cloudinary.com/v1_1/demo/video/upload");
    assert_eq!(s.cloud_name, "demo");
    assert_eq!(s.api_key, "key123");
    assert_eq!(s.timestamp, 1700000000);
    assert_eq!(s.public_id, "abc");
    assert_eq!(s.signature, sha1_hex(b"public_id=abc&timestamp=1700000000shh"));
    assert_eq!(s.signature.len(), 40);
    assert!(s.signature.chars().all(|c| c.is_ascii_digit() || ('a'..='f').contains(&c)));
}

#[test]
fn signed_upload_with_notification_url_sorts_it_first() {
    let client = CloudinaryClient::from_config(&config(Some("https://x.test/hook")));
    let s = client.signed_upload_at("abc", -42);
    assert_eq!(
        s.signature,
        sha1_hex(b"notification_url=https://x.test/hook&public_id=abc&timestamp=-42shh")
    );
    let now = client.build_signed_upload("abc");
    let expected = format!("notification_url=https://x.test/hook&public_id=abc&timestamp={}shh", now.timestamp);
    assert_eq!(now.signature, sha1_hex(expected.as_bytes()));
}

#[test]
fn delivery_urls() {
    let client = CloudinaryClient::from_config(&config(None));
    assert_eq!(client.hls_playback_url("m1"), "https://res.cloudinary.com/demo/video/upload/sp_hd/m1.m3u8");
    assert_eq!(client.thumbnail_url("t1"), "https://res.cloudinary.com/demo/video/upload/t1.jpg");
}

#[test]
fn video_responses() {
    let r = resolve_response(&config(None), video(Some("t"), None));
    assert_eq!(r.thumbnail_url.as_deref(), Some("https://res.cloudinary.com/demo/video/upload/t.jpg"));
    assert_eq!(r.playback_url, None);
    assert_eq!(r.duration_seconds, Some(12));
    let r = resolve_response(&config(None), video(None, Some("m")));
    assert_eq!(r.playback_url.as_deref(), Some("https://res.cloudinary.com/demo/video/upload/sp_hd/m.m3u8"));
    let bare = VideoResponse::from(video(Some("t"), Some("m")));
    assert_eq!(bare.thumbnail_url, None);
    assert_eq!(bare.playback_url, None);
    assert_eq!(bare.title, "clip");
}

#[test]
fn new_videos_and_their_response() {
    let n = new_video_id();
    let u = uuid::Uuid::from_u128(n.id);
    assert_eq!(n.public_id, u.to_string());
    assert_eq!(u.get_version_num(), 4);
    assert_eq!(u.get_variant(), uuid::Variant::RFC4122);
    assert_eq!((n.id >> 62) & 0x3, 2);
    let client = CloudinaryClient::from_config(&config(None));
    let signed = client.signed_upload_at(&n.public_id, 10);
    let mut v = video(None, None);
    v.id = n.id;
    v.status = VideoStatus::Pending;
    let r = create_video_response(&v, signed);
    assert_eq!(r.video_id, n.id);
    assert_eq!(r.status, VideoStatus::Pending);
    assert_eq!(r.public_id, n.public_id);
    assert_eq!(r.timestamp, 10);

    let r = upload_response(&config(None), &v, &n.public_id);
    assert_eq!(r.video_id, n.id);
    assert_eq!(r.status, VideoStatus::Pending);
    assert_eq!(r.public_id, n.public_id);
    assert_eq!(r.upload_url, "https://api.cloudinary.com/v1_1/demo/video/upload");
    let expected = format!("public_id={}&timestamp={}shh", n.public_id, r.timestamp);
    assert_eq!(r.signature, sha1_hex(expected.as_bytes()));
}

#[test]
fn webhook_signatures() {
    let body = br#"{"public_id":"x","notification_type":"upload"}"#;
    let sig = compute_signature(body, "1700000000", "shh");
    let mut data = body.to_vec();
    data.extend_from_slice(b"1700000000shh");
    assert_eq!(sig, sha1_hex(&data));
    assert!(authenticate_webhook(body, Some("1700000000"), Some(&sig), "shh").is_ok());
    assert!(matches!(authenticate_webhook(body, Some("1700000001"), Some(&sig), "shh"), Err(AppError::Unauthorized)));
    assert!(matches!(authenticate_webhook(body, None, Some(&sig), "shh"), Err(AppError::Unauthorized)));
    assert!(matches!(authenticate_webhook(body, Some("1700000000"), None, "shh"), Err(AppError::Unauthorized)));
    // Without a configured secret even a signature made with the empty
    // secret is refused.
    let empty_sig = compute_signature(body, "1700000000", "");
    assert!(matches!(authenticate_webhook(body, Some("1700000000"), Some(&empty_sig), ""), Err(AppError::Unauthorized)));
}

#[test]
fn webhook_actions() {
    let id = "550e8400-e29b-41d4-a716-446655440000";
    let value: u128 = 0x550e8400e29b41d4a716446655440000;
    match plan_webhook("upload", id, Some(30)).unwrap() {
        WebhookAction::MarkUploaded { video_id, duration_seconds } => {
            assert_eq!(video_id, value);
            assert_eq!(duration_seconds, Some(30));
        },
        _ => panic!("expected MarkUploaded"),
    }
    match plan_webhook("eager", id, None).unwrap() {
        WebhookAction::MarkReady { video_id, thumbnail_key, hls_manifest_key } => {
            assert_eq!(video_id, value);
            assert_eq!(thumbnail_key, id);
            assert_eq!(hls_manifest_key, id);
        },
        _ => panic!("expected MarkReady"),
    }
    assert!(matches!(plan_webhook("delete", "not-an-id", None), Ok(WebhookAction::Ignore)));
    match plan_webhook("upload", "not-an-id", None) {
        Err(AppError::Validation(m)) => assert_eq!(m, "public_id is not a valid video id"),
        _ => panic!("expected a validation error"),
    }
    assert!(matches!(plan_webhook_parsed("eager", "p", None, None), Err(AppError::Validation(_))));
    match invalid_payload() {
        AppError::Validation(m) => assert_eq!(m, "invalid webhook payload"),
        _ => panic!("expected a validation error"),
    }
}

#[test]
fn error_answers() {
    let cases: Vec<(AppError, u16, &str)> = vec![
        (AppError::Validation("bad title".to_string()), 422, "bad title"),
        (AppError::InvalidCredentials, 401, "invalid email or password"),
        (AppError::AccountLocked, 423, "account temporarily locked due to too many failed login attempts"),
        (AppError::EmailTaken, 409, "an account with this email already exists"),
        (AppError::Unauthorized, 401, "authentication required"),
        (AppError::Forbidden, 403, "you do not have access to this resource"),
        (AppError::NotFound, 404, "resource not found"),
        (AppError::Database("connection refused".to_string()), 500, "internal server error"),
        (AppError::Token("bad signature".to_string()), 401, "invalid or expired token"),
        (AppError::Internal("boom".to_string()), 500, "internal server error"),
    ];
    for (e, status, message) in cases {
        assert_eq!(e.status_code(), status);
        assert_eq!(e.public_message(), message);
    }
    assert_eq!(AppError::Validation("x".to_string()).description(), "validation error: x");
    assert_eq!(AppError::Database("y".to_string()).description(), "database error");
}
