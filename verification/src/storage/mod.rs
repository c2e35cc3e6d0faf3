//! Cloudinary: signed direct uploads, delivery URLs and notification
//! webhooks.

pub mod client;
pub mod webhook;
