//! Signed upload parameters and delivery URLs for Cloudinary.

use vstd::prelude::*;
use crate::config::Config;
use crate::crypto::{sha1_digest, sha1_of};
use crate::decimal::{decimal_text, format_i64};
use crate::hex::{hex_encode, hex_text, is_lower_hex_char, lemma_hex_text_shape};
use crate::text::{owned, push_text};
use crate::time::{clock_reading, utc_now, Timestamp};

verus! {

/// What a client needs to upload a video straight to Cloudinary.
#[derive(Clone, Debug)]
pub struct SignedUpload {
    pub upload_url: String,
    pub cloud_name: String,
    pub api_key: String,
    pub timestamp: i64,
    pub signature: String,
    pub public_id: String,
}

/// Cloudinary account settings.
#[derive(Clone, Debug)]
pub struct CloudinaryClient {
    cloud_name: String,
    api_key: String,
    api_secret: String,
    notification_url: Option<String>,
}

/// The upload endpoint of cloud `cloud`.
pub open spec fn upload_url_text(cloud: Seq<char>) -> Seq<char> {
    "https://api.cloudinary.com/v1_1/"@ + cloud + "/video/upload"@
}

/// The HLS playback URL of the manifest `key` in cloud `cloud`.
pub open spec fn playback_url_text(cloud: Seq<char>, key: Seq<char>) -> Seq<char> {
    "https://res.cloudinary.com/"@ + cloud + "/video/upload/sp_hd/"@ + key + ".m3u8"@
}

/// The thumbnail URL of `key` in cloud `cloud`.
pub open spec fn thumbnail_url_text(cloud: Seq<char>, key: Seq<char>) -> Seq<char> {
    "https://res.cloudinary.com/"@ + cloud + "/video/upload/"@ + key + ".jpg"@
}

/// Strict order of texts, character by character (the order of `str`).
pub open spec fn text_less(a: Seq<char>, b: Seq<char>) -> bool
    decreases a.len(),
{
    if a.len() == 0 {
        b.len() > 0
    } else if b.len() == 0 {
        false
    } else if a[0] != b[0] {
        a[0] < b[0]
    } else {
        text_less(a.drop_first(), b.drop_first())
    }
}

/// The parameters that are signed, as (name, value) pairs in ascending
/// order of name: `notification_url` when one is configured, `public_id`,
/// `timestamp`.
pub open spec fn signing_params(public_id: Seq<char>, timestamp: i64, notification_url: Option<Seq<char>>) -> Seq<(Seq<char>, Seq<char>)> {
    let base = seq![("public_id"@, public_id), ("timestamp"@, decimal_text(timestamp as int))];
    match notification_url {
        Some(u) => seq![("notification_url"@, u)] + base,
        None => base,
    }
}

/// `name=value` pairs joined by `&`.
pub open spec fn joined_params(ps: Seq<(Seq<char>, Seq<char>)>) -> Seq<char>
    decreases ps.len(),
{
    if ps.len() == 0 {
        Seq::empty()
    } else if ps.len() == 1 {
        ps[0].0 + "="@ + ps[0].1
    } else {
        joined_params(ps.drop_last()) + "&"@ + ps.last().0 + "="@ + ps.last().1
    }
}

/// The text that is signed for an upload.
pub open spec fn upload_signing_text(public_id: Seq<char>, timestamp: i64, notification_url: Option<Seq<char>>) -> Seq<char> {
    joined_params(signing_params(public_id, timestamp, notification_url))
}

/// Cloudinary's signature: hexadecimal SHA-1 of the signed text followed
/// directly by the API secret.
pub open spec fn cloudinary_signature(text: Seq<char>, api_secret: Seq<char>) -> Seq<char> {
    hex_text(sha1_of(vstd::utf8::encode_utf8(text) + vstd::utf8::encode_utf8(api_secret)))
}

pub open spec fn option_text(o: Option<String>) -> Option<Seq<char>> {
    match o {
        Some(s) => Some(s@),
        None => None,
    }
}

/// Law: the signed parameters are in strictly ascending order of name, the
/// order in which Cloudinary expects them (the service sorts them by name
/// before joining).
pub proof fn lemma_signing_params_sorted(public_id: Seq<char>, timestamp: i64, notification_url: Option<Seq<char>>)
    ensures
        forall|i: int, j: int|
            0 <= i < j < signing_params(public_id, timestamp, notification_url).len() ==> text_less(
                #[trigger] signing_params(public_id, timestamp, notification_url)[i].0,
                #[trigger] signing_params(public_id, timestamp, notification_url)[j].0,
            ),
{
    reveal_strlit("notification_url");
    reveal_strlit("public_id");
    reveal_strlit("timestamp");
    let n = "notification_url"@;
    let p = "public_id"@;
    let t = "timestamp"@;
    assert(text_less(n, p));
    assert(text_less(p, t));
    assert(text_less(n, t));
}

pub(crate) fn append_bytes(out: &mut Vec<u8>, bytes: &[u8])
    ensures
        final(out)@ == old(out)@ + bytes@,
{
    let mut i: usize = 0;
    while i < bytes.len()
        invariant
            i <= bytes@.len(),
            out@ == old(out)@ + bytes@.take(i as int),
        decreases bytes@.len() - i,
    {
        out.push(bytes[i]);
        i = i + 1;
        assert(out@ =~= old(out)@ + bytes@.take(i as int));
    }
    assert(bytes@.take(bytes@.len() as int) =~= bytes@);
}

impl CloudinaryClient {
    pub closed spec fn cloud_name_text(&self) -> Seq<char> {
        self.cloud_name@
    }

    pub closed spec fn api_key_text(&self) -> Seq<char> {
        self.api_key@
    }

    pub closed spec fn api_secret_text(&self) -> Seq<char> {
        self.api_secret@
    }

    pub closed spec fn notification_url_text(&self) -> Option<Seq<char>> {
        option_text(self.notification_url)
    }

    /// The client for the account named in the configuration.
    pub fn from_config(config: &Config) -> (res: Self)
        ensures
            res.cloud_name_text() == config.cloudinary_cloud_name@,
            res.api_key_text() == config.cloudinary_api_key@,
            res.api_secret_text() == config.cloudinary_api_secret@,
            res.notification_url_text() == option_text(config.cloudinary_notification_url),
    {
        CloudinaryClient {
            cloud_name: config.cloudinary_cloud_name.clone(),
            api_key: config.cloudinary_api_key.clone(),
            api_secret: config.cloudinary_api_secret.clone(),
            notification_url: match &config.cloudinary_notification_url {
                Some(u) => Some(u.clone()),
                None => None,
            },
        }
    }

    /// The text signed for an upload of `public_id` at `timestamp`.
    fn signing_text(&self, public_id: &str, timestamp: i64) -> (res: String)
        ensures
            res@ == upload_signing_text(public_id@, timestamp, self.notification_url_text()),
    {
        let mut s = String::new();
        let ghost base = seq![("public_id"@, public_id@), ("timestamp"@, decimal_text(timestamp as int))];
        match &self.notification_url {
            Some(u) => {
                push_text(&mut s, "notification_url=");
                push_text(&mut s, u.as_str());
                push_text(&mut s, "&");
            },
            None => {},
        }
        push_text(&mut s, "public_id=");
        push_text(&mut s, public_id);
        push_text(&mut s, "&timestamp=");
        let ts = format_i64(timestamp);
        push_text(&mut s, ts.as_str());
        proof {
            let ps = signing_params(public_id@, timestamp, self.notification_url_text());
            let ts_text = decimal_text(timestamp as int);
            reveal_strlit("notification_url=");
            reveal_strlit("notification_url");
            reveal_strlit("=");
            reveal_strlit("public_id=");
            reveal_strlit("public_id");
            reveal_strlit("&timestamp=");
            reveal_strlit("timestamp");
            reveal_strlit("&");
            assert("public_id="@ =~= "public_id"@ + "="@);
            assert("&timestamp="@ =~= "&"@ + "timestamp"@ + "="@);
            assert("notification_url="@ =~= "notification_url"@ + "="@);
            match &self.notification_url {
                Some(u) => {
                    let one = seq![("notification_url"@, u@)];
                    assert(ps =~= one + base);
                    let ps2 = ps.drop_last();
                    let ps1 = ps2.drop_last();
                    assert(ps1 =~= one);
                    assert(ps2.len() == 2 && ps2.last() == ("public_id"@, public_id@));
                    assert(ps.last() == ("timestamp"@, ts_text));
                    let j1 = joined_params(ps1);
                    assert(j1 == "notification_url"@ + "="@ + u@);
                    let j2 = joined_params(ps2);
                    assert(j2 == j1 + "&"@ + "public_id"@ + "="@ + public_id@);
                    assert(joined_params(ps) == j2 + "&"@ + "timestamp"@ + "="@ + ts_text);
                    assert(s@ =~= joined_params(ps));
                },
                None => {
                    assert(ps =~= base);
                    let ps1 = ps.drop_last();
                    assert(ps1.len() == 1 && ps1[0] == ("public_id"@, public_id@));
                    assert(ps.last() == ("timestamp"@, ts_text));
                    let j1 = joined_params(ps1);
                    assert(j1 == "public_id"@ + "="@ + public_id@);
                    assert(joined_params(ps) == j1 + "&"@ + "timestamp"@ + "="@ + ts_text);
                    assert(s@ =~= joined_params(ps));
                },
            }
        }
        s
    }

    /// The signed upload of `public_id` at the given Unix `timestamp`.
    pub fn signed_upload_at(&self, public_id: &str, timestamp: i64) -> (res: SignedUpload)
        ensures
            res.upload_url@ == upload_url_text(self.cloud_name_text()),
            res.cloud_name@ == self.cloud_name_text(),
            res.api_key@ == self.api_key_text(),
            res.timestamp == timestamp,
            res.signature@ == cloudinary_signature(
                upload_signing_text(public_id@, timestamp, self.notification_url_text()),
                self.api_secret_text(),
            ),
            res.public_id@ == public_id@,
            res.signature@.len() == 40,
            forall|i: int| 0 <= i < res.signature@.len() ==> #[trigger] is_lower_hex_char(res.signature@[i]),
    {
        let to_sign = self.signing_text(public_id, timestamp);
        let mut data: Vec<u8> = Vec::new();
        append_bytes(&mut data, to_sign.as_str().as_bytes());
        append_bytes(&mut data, self.api_secret.as_str().as_bytes());
        let digest = sha1_digest(data.as_slice());
        let signature = hex_encode(digest.as_slice());
        proof {
            lemma_hex_text_shape(digest@);
        }
        let mut upload_url = owned("https://api.cloudinary.com/v1_1/");
        push_text(&mut upload_url, self.cloud_name.as_str());
        push_text(&mut upload_url, "/video/upload");
        SignedUpload {
            upload_url,
            cloud_name: self.cloud_name.clone(),
            api_key: self.api_key.clone(),
            timestamp,
            signature,
            public_id: owned(public_id),
        }
    }

    /// The signed upload of `public_id`, stamped with the current time.
    pub fn build_signed_upload(&self, public_id: &str) -> (res: SignedUpload)
        ensures
            exists|now: Timestamp|
                #[trigger] clock_reading(now) && res.timestamp == now.secs && res.signature@
                    == cloudinary_signature(
                    upload_signing_text(public_id@, now.secs, self.notification_url_text()),
                    self.api_secret_text(),
                ),
            res.upload_url@ == upload_url_text(self.cloud_name_text()),
            res.cloud_name@ == self.cloud_name_text(),
            res.api_key@ == self.api_key_text(),
            res.public_id@ == public_id@,
            res.signature@.len() == 40,
            forall|i: int| 0 <= i < res.signature@.len() ==> #[trigger] is_lower_hex_char(res.signature@[i]),
    {
        let now = utc_now();
        let res = self.signed_upload_at(public_id, now.secs);
        assert(clock_reading(now));
        res
    }

    /// Where the HLS manifest stored under `hls_manifest_key` is played from.
    pub fn hls_playback_url(&self, hls_manifest_key: &str) -> (res: String)
        ensures
            res@ == playback_url_text(self.cloud_name_text(), hls_manifest_key@),
    {
        let mut s = owned("https://res.cloudinary.com/");
        push_text(&mut s, self.cloud_name.as_str());
        push_text(&mut s, "/video/upload/sp_hd/");
        push_text(&mut s, hls_manifest_key);
        push_text(&mut s, ".m3u8");
        s
    }

    /// Where the thumbnail stored under `thumbnail_key` is served from.
    pub fn thumbnail_url(&self, thumbnail_key: &str) -> (res: String)
        ensures
            res@ == thumbnail_url_text(self.cloud_name_text(), thumbnail_key@),
    {
        let mut s = owned("https://res.cloudinary.com/");
        push_text(&mut s, self.cloud_name.as_str());
        push_text(&mut s, "/video/upload/");
        push_text(&mut s, thumbnail_key);
        push_text(&mut s, ".jpg");
        s
    }
}

} // verus!
