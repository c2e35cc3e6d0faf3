//! Verified core of the media pipeline backend: configuration, token and
//! signature handling, authentication flow decisions and response shaping.

pub mod text;
pub mod decimal;
pub mod hex;
pub mod crypto;
pub mod time;
pub mod ids;
pub mod error;
pub mod config;
pub mod users;
pub mod auth;
pub mod storage;
pub mod videos;
