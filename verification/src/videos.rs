//! Videos: records, request and response bodies, and how a stored video is
//! shown to its owner.

use vstd::prelude::*;
use crate::config::Config;
use crate::ids::{new_uuid_v4, uuid_text, uuid_to_text};
use crate::storage::client::{
    cloudinary_signature, option_text, playback_url_text, thumbnail_url_text, upload_signing_text,
    upload_url_text, CloudinaryClient, SignedUpload,
};
use crate::time::{clock_reading, Timestamp};

verus! {

/// Where a video is in its life: uploaded by the client, processed, and
/// ready to play (or failed).
#[derive(Clone, Copy, Debug, PartialEq, Eq, Structural)]
pub enum VideoStatus {
    Pending,
    Uploaded,
    Processing,
    Ready,
    Failed,
}

/// A video as stored in the `videos` table.
#[derive(Clone, Debug)]
pub struct Video {
    pub id: u128,
    pub user_id: u128,
    pub title: String,
    pub status: VideoStatus,
    pub storage_key: String,
    pub duration_seconds: Option<i32>,
    pub thumbnail_key: Option<String>,
    pub hls_manifest_key: Option<String>,
    pub error_message: Option<String>,
    pub created_at: Timestamp,
    pub updated_at: Timestamp,
}

/// Body of a request to create a video.
#[derive(Clone, Debug)]
pub struct CreateVideoRequest {
    pub title: String,
}

/// Answer to a created video: its id and what the client needs to upload
/// the file to Cloudinary.
#[derive(Clone, Debug)]
pub struct CreateVideoResponse {
    pub video_id: u128,
    pub upload_url: String,
    pub cloud_name: String,
    pub api_key: String,
    pub timestamp: i64,
    pub signature: String,
    pub public_id: String,
    pub status: VideoStatus,
}

/// A video as its owner is shown it.
#[derive(Clone, Debug)]
pub struct VideoResponse {
    pub id: u128,
    pub title: String,
    pub status: VideoStatus,
    pub duration_seconds: Option<i32>,
    pub thumbnail_url: Option<String>,
    pub playback_url: Option<String>,
    pub error_message: Option<String>,
    pub created_at: Timestamp,
    pub updated_at: Timestamp,
}

/// The response for `v` without delivery URLs.
pub open spec fn bare_response_of(v: Video) -> VideoResponse {
    VideoResponse {
        id: v.id,
        title: v.title,
        status: v.status,
        duration_seconds: v.duration_seconds,
        thumbnail_url: None,
        playback_url: None,
        error_message: v.error_message,
        created_at: v.created_at,
        updated_at: v.updated_at,
    }
}

impl From<Video> for VideoResponse {
    fn from(v: Video) -> (res: Self) {
        VideoResponse {
            id: v.id,
            title: v.title,
            status: v.status,
            duration_seconds: v.duration_seconds,
            thumbnail_url: None,
            playback_url: None,
            error_message: v.error_message,
            created_at: v.created_at,
            updated_at: v.updated_at,
        }
    }
}

impl vstd::std_specs::convert::FromSpecImpl<Video> for VideoResponse {
    open spec fn obeys_from_spec() -> bool {
        true
    }

    open spec fn from_spec(v: Video) -> Self {
        bare_response_of(v)
    }
}

/// `url` is present exactly when `key` is, and then is `make(key)`.
pub open spec fn url_for_key(key: Option<String>, url: Option<String>, cloud: Seq<char>, thumbnail: bool) -> bool {
    match key {
        None => url is None,
        Some(k) => url is Some && url->0@ == (if thumbnail {
            thumbnail_url_text(cloud, k@)
        } else {
            playback_url_text(cloud, k@)
        }),
    }
}

/// Shows `video` to its owner, with thumbnail and playback URLs in the
/// configured cloud for the keys the video has.
pub fn resolve_response(config: &Config, video: Video) -> (res: VideoResponse)
    ensures
        res.id == video.id,
        res.title == video.title,
        res.status == video.status,
        res.duration_seconds == video.duration_seconds,
        url_for_key(video.thumbnail_key, res.thumbnail_url, config.cloudinary_cloud_name@, true),
        url_for_key(video.hls_manifest_key, res.playback_url, config.cloudinary_cloud_name@, false),
        res.error_message == video.error_message,
        res.created_at == video.created_at,
        res.updated_at == video.updated_at,
{
    let cloudinary = CloudinaryClient::from_config(config);
    let thumbnail_url = match &video.thumbnail_key {
        Some(key) => Some(cloudinary.thumbnail_url(key.as_str())),
        None => None,
    };
    let playback_url = match &video.hls_manifest_key {
        Some(key) => Some(cloudinary.hls_playback_url(key.as_str())),
        None => None,
    };
    VideoResponse {
        id: video.id,
        title: video.title,
        status: video.status,
        duration_seconds: video.duration_seconds,
        thumbnail_url,
        playback_url,
        error_message: video.error_message,
        created_at: video.created_at,
        updated_at: video.updated_at,
    }
}

/// A new video's id and the public id it is uploaded under.
#[derive(Clone, Debug)]
pub struct NewVideoId {
    pub id: u128,
    /// The id's text; it names the file in Cloudinary and is its storage key.
    pub public_id: String,
}

/// Picks a random (version 4) id for a new video.
pub fn new_video_id() -> (res: NewVideoId)
    ensures
        res.public_id@ == uuid_text(res.id),
        (res.id >> 76u32) & 0xfu128 == 4,
        (res.id >> 62u32) & 0x3u128 == 2,
{
    let id = new_uuid_v4();
    NewVideoId { id, public_id: uuid_to_text(id) }
}

/// The answer to a created video: the stored video's id and status with
/// the signed upload parameters.
pub fn create_video_response(video: &Video, signed: SignedUpload) -> (res: CreateVideoResponse)
    ensures
        res.video_id == video.id,
        res.status == video.status,
        res.upload_url == signed.upload_url,
        res.cloud_name == signed.cloud_name,
        res.api_key == signed.api_key,
        res.timestamp == signed.timestamp,
        res.signature == signed.signature,
        res.public_id == signed.public_id,
{
    CreateVideoResponse {
        video_id: video.id,
        upload_url: signed.upload_url,
        cloud_name: signed.cloud_name,
        api_key: signed.api_key,
        timestamp: signed.timestamp,
        signature: signed.signature,
        public_id: signed.public_id,
        status: video.status,
    }
}

/// The answer to a video just stored under `public_id`: the stored video's
/// id and status, with upload parameters for `public_id` signed now for the
/// configured Cloudinary account.
pub fn upload_response(config: &Config, video: &Video, public_id: &str) -> (res: CreateVideoResponse)
    ensures
        res.video_id == video.id,
        res.status == video.status,
        res.upload_url@ == upload_url_text(config.cloudinary_cloud_name@),
        res.cloud_name@ == config.cloudinary_cloud_name@,
        res.api_key@ == config.cloudinary_api_key@,
        res.public_id@ == public_id@,
        exists|now: Timestamp|
            #[trigger] clock_reading(now) && res.timestamp == now.secs && res.signature@ == cloudinary_signature(
                upload_signing_text(public_id@, now.secs, option_text(config.cloudinary_notification_url)),
                config.cloudinary_api_secret@,
            ),
        res.signature@.len() == 40,
{
    let client = CloudinaryClient::from_config(config);
    let signed = client.build_signed_upload(public_id);
    create_video_response(video, signed)
}

} // verus!
