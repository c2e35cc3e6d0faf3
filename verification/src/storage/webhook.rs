//! Cloudinary notification webhooks: checking their signature and deciding
//! what a notification changes.

use vstd::prelude::*;
use crate::crypto::{sha1_digest, sha1_of};
use crate::error::AppError;
use crate::hex::{hex_encode, hex_text, is_lower_hex_char, lemma_hex_text_shape};
use crate::ids::{parse_uuid, uuid_parsed};
use crate::storage::client::append_bytes;
use crate::text::{owned, text_equals};

verus! {

/// The signature Cloudinary sends with a notification: hexadecimal SHA-1
/// of the body, then the `X-Cld-Timestamp` value, then the API secret.
pub open spec fn webhook_signature(body: Seq<u8>, timestamp: Seq<char>, api_secret: Seq<char>) -> Seq<char> {
    hex_text(sha1_of(body + vstd::utf8::encode_utf8(timestamp) + vstd::utf8::encode_utf8(api_secret)))
}

/// Computes the signature expected for a notification.
pub fn compute_signature(body: &[u8], timestamp: &str, api_secret: &str) -> (res: String)
    ensures
        res@ == webhook_signature(body@, timestamp@, api_secret@),
        res@.len() == 40,
        forall|i: int| 0 <= i < res@.len() ==> #[trigger] is_lower_hex_char(res@[i]),
{
    let mut data: Vec<u8> = Vec::new();
    append_bytes(&mut data, body);
    append_bytes(&mut data, timestamp.as_bytes());
    append_bytes(&mut data, api_secret.as_bytes());
    let digest = sha1_digest(data.as_slice());
    proof {
        lemma_hex_text_shape(digest@);
    }
    hex_encode(digest.as_slice())
}

/// Whether a notification is genuine: an API secret is configured, both the
/// `X-Cld-Timestamp` and the `X-Cld-Signature` headers are present and the
/// signature is the one computed with the API secret. Anything else is
/// unauthorized; without a secret nobody can be told apart from Cloudinary.
pub open spec fn webhook_authentic(body: Seq<u8>, timestamp: Option<Seq<char>>, signature: Option<Seq<char>>, api_secret: Seq<char>) -> bool {
    api_secret.len() > 0 && match (timestamp, signature) {
        (Some(t), Some(s)) => s == webhook_signature(body, t, api_secret),
        _ => false,
    }
}

pub open spec fn header_text(h: Option<&str>) -> Option<Seq<char>> {
    match h {
        Some(s) => Some(s@),
        None => None,
    }
}

/// Accepts a notification only when [`webhook_authentic`] holds; otherwise
/// answers unauthorized.
pub fn authenticate_webhook(
    body: &[u8],
    timestamp: Option<&str>,
    signature: Option<&str>,
    api_secret: &str,
) -> (res: Result<(), AppError>)
    ensures
        res == (if webhook_authentic(body@, header_text(timestamp), header_text(signature), api_secret@) {
            Ok::<(), AppError>(())
        } else {
            Err(AppError::Unauthorized)
        }),
{
    let timestamp = match timestamp {
        Some(t) => t,
        None => return Err(AppError::Unauthorized),
    };
    let received = match signature {
        Some(s) => s,
        None => return Err(AppError::Unauthorized),
    };
    proof {
        reveal_strlit("");
    }
    if text_equals(api_secret, "") {
        return Err(AppError::Unauthorized);
    }
    assert(api_secret@.len() > 0) by {
        if api_secret@.len() == 0 {
            assert(api_secret@ =~= ""@);
        }
    }
    let expected = compute_signature(body, timestamp, api_secret);
    if !text_equals(expected.as_str(), received) {
        return Err(AppError::Unauthorized);
    }
    Ok(())
}

/// What a genuine notification changes.
#[derive(Clone, Debug)]
pub enum WebhookAction {
    /// The video finished uploading: mark it uploaded (if still pending).
    MarkUploaded { video_id: u128, duration_seconds: Option<i32> },
    /// Eager transformations are done: mark the video ready.
    MarkReady { video_id: u128, thumbnail_key: String, hls_manifest_key: String },
    /// Any other notification type is acknowledged and ignored.
    Ignore,
}

/// The answer to a notification whose `public_id` is not a video id.
pub open spec fn invalid_video_id_error(e: AppError) -> bool {
    e is Validation && e->Validation_0@ == "public_id is not a valid video id"@
}

/// The action for a notification of type `notification_type` about
/// `public_id`, given what `Uuid::parse_str` made of `public_id`.
pub open spec fn webhook_plan_ok(notification_type: Seq<char>, public_id: Seq<char>, parsed_id: Option<u128>, duration_seconds: Option<i32>, res: Result<WebhookAction, AppError>) -> bool {
    if notification_type == "upload"@ {
        match parsed_id {
            Some(id) => res == Ok::<WebhookAction, AppError>(
                WebhookAction::MarkUploaded { video_id: id, duration_seconds },
            ),
            None => res is Err && invalid_video_id_error(res->Err_0),
        }
    } else if notification_type == "eager"@ {
        match parsed_id {
            Some(id) => res is Ok && (res->Ok_0 matches WebhookAction::MarkReady {
                video_id,
                thumbnail_key,
                hls_manifest_key,
            } && video_id == id && thumbnail_key@ == public_id && hls_manifest_key@ == public_id),
            None => res is Err && invalid_video_id_error(res->Err_0),
        }
    } else {
        res == Ok::<WebhookAction, AppError>(WebhookAction::Ignore)
    }
}

fn bad_video_id() -> (res: AppError)
    ensures
        invalid_video_id_error(res),
{
    AppError::Validation(owned("public_id is not a valid video id"))
}

/// Decides the action of a genuine notification, with `public_id` already
/// parsed into `parsed_id`.
pub fn plan_webhook_parsed(
    notification_type: &str,
    public_id: &str,
    parsed_id: Option<u128>,
    duration_seconds: Option<i32>,
) -> (res: Result<WebhookAction, AppError>)
    ensures
        webhook_plan_ok(notification_type@, public_id@, parsed_id, duration_seconds, res),
{
    if text_equals(notification_type, "upload") {
        match parsed_id {
            Some(id) => Ok(WebhookAction::MarkUploaded { video_id: id, duration_seconds }),
            None => Err(bad_video_id()),
        }
    } else if text_equals(notification_type, "eager") {
        match parsed_id {
            Some(id) => Ok(
                WebhookAction::MarkReady {
                    video_id: id,
                    thumbnail_key: owned(public_id),
                    hls_manifest_key: owned(public_id),
                },
            ),
            None => Err(bad_video_id()),
        }
    } else {
        Ok(WebhookAction::Ignore)
    }
}

/// Decides the action of a genuine notification: `upload` marks the video
/// uploaded with the reported duration, `eager` marks it ready with its
/// public id as thumbnail and manifest key, and any other type is ignored.
/// For the two known types the public id must be a video id.
pub fn plan_webhook(notification_type: &str, public_id: &str, duration_seconds: Option<i32>) -> (res: Result<WebhookAction, AppError>)
    ensures
        webhook_plan_ok(notification_type@, public_id@, uuid_parsed(public_id@), duration_seconds, res),
{
    if text_equals(notification_type, "upload") || text_equals(notification_type, "eager") {
        let parsed = parse_uuid(public_id);
        plan_webhook_parsed(notification_type, public_id, parsed, duration_seconds)
    } else {
        plan_webhook_parsed(notification_type, public_id, None, duration_seconds)
    }
}

/// The answer to a notification whose body is not the expected JSON.
pub fn invalid_payload() -> (res: AppError)
    ensures
        res is Validation && res->Validation_0@ == "invalid webhook payload"@,
{
    AppError::Validation(owned("invalid webhook payload"))
}

/// Law: with an API secret configured, a notification signed with it over
/// its own body and timestamp is accepted, and one whose signature differs
/// from that is refused; without a secret every notification is refused.
pub proof fn lemma_webhook_signature_decides(body: Seq<u8>, timestamp: Seq<char>, signature: Seq<char>, api_secret: Seq<char>)
    ensures
        api_secret.len() > 0 ==> webhook_authentic(
            body,
            Some(timestamp),
            Some(webhook_signature(body, timestamp, api_secret)),
            api_secret,
        ),
        api_secret.len() == 0 ==> !webhook_authentic(body, Some(timestamp), Some(signature), api_secret),
        signature != webhook_signature(body, timestamp, api_secret) ==> !webhook_authentic(body, Some(timestamp), Some(signature), api_secret),
        !webhook_authentic(body, None, Some(signature), api_secret),
        !webhook_authentic(body, Some(timestamp), None, api_secret),
{
}

} // verus!
