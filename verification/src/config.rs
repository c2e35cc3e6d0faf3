//! Service configuration, read from environment variables.
//!
//! Reading the process environment is left to the caller, which hands the
//! raw values over in an [`EnvVars`]; [`Config::from_vars`] applies the
//! defaults and the checks.

use vstd::prelude::*;
use crate::decimal::{parse_i64, parsed_i64};
use crate::text::{ascii_case_equal, ascii_case_equals, owned, text_equals};

verus! {

/// The environment variables the service reads.
#[derive(Clone, Copy, Debug, PartialEq, Eq, Structural)]
pub enum EnvKey {
    DatabaseUrl,
    JwtAccessSecret,
    JwtRefreshSecret,
    AccessTokenTtlSeconds,
    RefreshTokenTtlSeconds,
    ServerAddr,
    CorsOrigin,
    AppEnv,
    CloudinaryCloudName,
    CloudinaryApiKey,
    CloudinaryApiSecret,
    CloudinaryNotificationUrl,
    CookieSecure,
    CookieSameSite,
}

pub open spec fn env_key_name(k: EnvKey) -> Seq<char> {
    match k {
        EnvKey::DatabaseUrl => "DATABASE_URL"@,
        EnvKey::JwtAccessSecret => "JWT_ACCESS_SECRET"@,
        EnvKey::JwtRefreshSecret => "JWT_REFRESH_SECRET"@,
        EnvKey::AccessTokenTtlSeconds => "ACCESS_TOKEN_TTL_SECONDS"@,
        EnvKey::RefreshTokenTtlSeconds => "REFRESH_TOKEN_TTL_SECONDS"@,
        EnvKey::ServerAddr => "SERVER_ADDR"@,
        EnvKey::CorsOrigin => "CORS_ORIGIN"@,
        EnvKey::AppEnv => "APP_ENV"@,
        EnvKey::CloudinaryCloudName => "CLOUDINARY_CLOUD_NAME"@,
        EnvKey::CloudinaryApiKey => "CLOUDINARY_API_KEY"@,
        EnvKey::CloudinaryApiSecret => "CLOUDINARY_API_SECRET"@,
        EnvKey::CloudinaryNotificationUrl => "CLOUDINARY_NOTIFICATION_URL"@,
        EnvKey::CookieSecure => "COOKIE_SECURE"@,
        EnvKey::CookieSameSite => "COOKIE_SAME_SITE"@,
    }
}

impl EnvKey {
    /// The variable's name in the environment.
    pub fn name(&self) -> (res: String)
        ensures
            res@ == env_key_name(*self),
    {
        match self {
            EnvKey::DatabaseUrl => owned("DATABASE_URL"),
            EnvKey::JwtAccessSecret => owned("JWT_ACCESS_SECRET"),
            EnvKey::JwtRefreshSecret => owned("JWT_REFRESH_SECRET"),
            EnvKey::AccessTokenTtlSeconds => owned("ACCESS_TOKEN_TTL_SECONDS"),
            EnvKey::RefreshTokenTtlSeconds => owned("REFRESH_TOKEN_TTL_SECONDS"),
            EnvKey::ServerAddr => owned("SERVER_ADDR"),
            EnvKey::CorsOrigin => owned("CORS_ORIGIN"),
            EnvKey::AppEnv => owned("APP_ENV"),
            EnvKey::CloudinaryCloudName => owned("CLOUDINARY_CLOUD_NAME"),
            EnvKey::CloudinaryApiKey => owned("CLOUDINARY_API_KEY"),
            EnvKey::CloudinaryApiSecret => owned("CLOUDINARY_API_SECRET"),
            EnvKey::CloudinaryNotificationUrl => owned("CLOUDINARY_NOTIFICATION_URL"),
            EnvKey::CookieSecure => owned("COOKIE_SECURE"),
            EnvKey::CookieSameSite => owned("COOKIE_SAME_SITE"),
        }
    }
}

/// The raw value of each variable, `None` where it is unset.
#[derive(Clone, Debug)]
pub struct EnvVars {
    pub database_url: Option<String>,
    pub jwt_access_secret: Option<String>,
    pub jwt_refresh_secret: Option<String>,
    pub access_token_ttl_seconds: Option<String>,
    pub refresh_token_ttl_seconds: Option<String>,
    pub server_addr: Option<String>,
    pub cors_origin: Option<String>,
    pub app_env: Option<String>,
    pub cloudinary_cloud_name: Option<String>,
    pub cloudinary_api_key: Option<String>,
    pub cloudinary_api_secret: Option<String>,
    pub cloudinary_notification_url: Option<String>,
    pub cookie_secure: Option<String>,
    pub cookie_same_site: Option<String>,
}

/// Why the configuration was refused.
#[derive(Clone, Copy, Debug, PartialEq, Eq, Structural)]
pub enum ConfigError {
    /// A required variable is unset.
    Missing(EnvKey),
    /// A JWT secret is shorter than 32 bytes.
    SecretTooShort,
    /// The access and refresh secrets are the same.
    SecretsNotDistinct,
    /// A variable that must hold an `i64` does not.
    NotAnInteger(EnvKey),
}

impl ConfigError {
    /// The message the service stops with.
    pub fn message(&self) -> (res: String)
        ensures
            res@ == config_error_message(*self),
    {
        match self {
            ConfigError::Missing(k) => {
                let mut s = owned("Missing required environment variables: ");
                s.append(k.name().as_str());
                s
            },
            ConfigError::SecretTooShort => owned("JWT secrets must be at least 32 characters long"),
            ConfigError::SecretsNotDistinct => owned(
                "JWT_ACCESS_SECRET and JWT_REFRESH_SECRET must be different",
            ),
            ConfigError::NotAnInteger(k) => {
                let mut s = k.name();
                s.append(" must be an integer");
                s
            },
        }
    }
}

pub open spec fn config_error_message(e: ConfigError) -> Seq<char> {
    match e {
        ConfigError::Missing(k) => "Missing required environment variables: "@ + env_key_name(k),
        ConfigError::SecretTooShort => "JWT secrets must be at least 32 characters long"@,
        ConfigError::SecretsNotDistinct => "JWT_ACCESS_SECRET and JWT_REFRESH_SECRET must be different"@,
        ConfigError::NotAnInteger(k) => env_key_name(k) + " must be an integer"@,
    }
}

/// Length in bytes of the UTF-8 encoding of `s` (what `str::len` counts).
pub open spec fn byte_len(s: Seq<char>) -> nat {
    vstd::utf8::encode_utf8(s).len()
}

/// The text of an optional variable, or `default` where it is unset.
pub open spec fn or_default(v: Option<String>, default: Seq<char>) -> Seq<char> {
    match v {
        Some(s) => s@,
        None => default,
    }
}

/// Whether the refresh cookie is sent over HTTPS only: it is, unless
/// `COOKIE_SECURE` is set to `false`.
pub open spec fn cookie_secure_flag(v: Option<String>) -> bool {
    match v {
        Some(s) => s@ != "false"@,
        None => true,
    }
}

/// The first check that `v` fails, in the order the service makes them, or
/// `None` where it passes all of them. Only the database URL and the two JWT
/// secrets are required; every other variable has a default.
pub open spec fn config_error_of(v: EnvVars) -> Option<ConfigError> {
    if v.database_url is None {
        Some(ConfigError::Missing(EnvKey::DatabaseUrl))
    } else if v.jwt_access_secret is None {
        Some(ConfigError::Missing(EnvKey::JwtAccessSecret))
    } else if v.jwt_refresh_secret is None {
        Some(ConfigError::Missing(EnvKey::JwtRefreshSecret))
    } else if byte_len(v.jwt_access_secret.unwrap()@) < 32 || byte_len(
        v.jwt_refresh_secret.unwrap()@,
    ) < 32 {
        Some(ConfigError::SecretTooShort)
    } else if v.jwt_access_secret.unwrap()@ == v.jwt_refresh_secret.unwrap()@ {
        Some(ConfigError::SecretsNotDistinct)
    } else if parsed_i64(or_default(v.access_token_ttl_seconds, "900"@)) is None {
        Some(ConfigError::NotAnInteger(EnvKey::AccessTokenTtlSeconds))
    } else if parsed_i64(or_default(v.refresh_token_ttl_seconds, "1209600"@)) is None {
        Some(ConfigError::NotAnInteger(EnvKey::RefreshTokenTtlSeconds))
    } else {
        None
    }
}

/// The service's settings.
#[derive(Clone, Debug)]
pub struct Config {
    pub database_url: String,
    pub jwt_access_secret: String,
    pub jwt_refresh_secret: String,
    pub access_token_ttl_seconds: i64,
    pub refresh_token_ttl_seconds: i64,
    pub server_addr: String,
    pub cors_origin: String,
    pub env: String,
    pub cloudinary_cloud_name: String,
    pub cloudinary_api_key: String,
    pub cloudinary_api_secret: String,
    pub cloudinary_notification_url: Option<String>,
    pub cookie_secure: bool,
    pub cookie_same_site: String,
}

/// `c` is the configuration built from `v`, which passed every check.
pub open spec fn config_matches(c: Config, v: EnvVars) -> bool {
    &&& Some(c.database_url) == v.database_url
    &&& Some(c.jwt_access_secret) == v.jwt_access_secret
    &&& Some(c.jwt_refresh_secret) == v.jwt_refresh_secret
    &&& parsed_i64(or_default(v.access_token_ttl_seconds, "900"@)) == Some(c.access_token_ttl_seconds)
    &&& parsed_i64(or_default(v.refresh_token_ttl_seconds, "1209600"@)) == Some(c.refresh_token_ttl_seconds)
    &&& c.server_addr@ == or_default(v.server_addr, "0.0.0.0:3000"@)
    &&& c.cors_origin@ == or_default(v.cors_origin, "http://localhost:5173"@)
    &&& c.env@ == or_default(v.app_env, "development"@)
    &&& c.cloudinary_cloud_name@ == or_default(v.cloudinary_cloud_name, ""@)
    &&& c.cloudinary_api_key@ == or_default(v.cloudinary_api_key, ""@)
    &&& c.cloudinary_api_secret@ == or_default(v.cloudinary_api_secret, ""@)
    &&& c.cloudinary_notification_url == v.cloudinary_notification_url
    &&& c.cookie_secure == cookie_secure_flag(v.cookie_secure)
    &&& c.cookie_same_site@ == or_default(v.cookie_same_site, "lax"@)
}

fn text_or(v: Option<String>, default: &str) -> (res: String)
    ensures
        res@ == or_default(v, default@),
{
    match v {
        Some(s) => s,
        None => owned(default),
    }
}

fn secure_flag(v: &Option<String>) -> (res: bool)
    ensures
        res == cookie_secure_flag(*v),
{
    match v {
        Some(s) => !text_equals(s.as_str(), "false"),
        None => true,
    }
}

impl Config {
    /// Builds the configuration from the raw variables: fails with the first
    /// check that does not pass, in the order `config_error_of` lists them,
    /// and otherwise fills in the documented defaults (the Cloudinary
    /// credentials default to empty text, the cookie to secure and `lax`).
    pub fn from_vars(vars: EnvVars) -> (res: Result<Config, ConfigError>)
        ensures
            match res {
                Ok(c) => config_error_of(vars) is None && config_matches(c, vars),
                Err(e) => config_error_of(vars) == Some(e),
            },
    {
        let ghost v = vars;
        let EnvVars {
            database_url,
            jwt_access_secret,
            jwt_refresh_secret,
            access_token_ttl_seconds,
            refresh_token_ttl_seconds,
            server_addr,
            cors_origin,
            app_env,
            cloudinary_cloud_name,
            cloudinary_api_key,
            cloudinary_api_secret,
            cloudinary_notification_url,
            cookie_secure,
            cookie_same_site,
        } = vars;
        let database_url = match database_url {
            Some(s) => s,
            None => return Err(ConfigError::Missing(EnvKey::DatabaseUrl)),
        };
        let jwt_access_secret = match jwt_access_secret {
            Some(s) => s,
            None => return Err(ConfigError::Missing(EnvKey::JwtAccessSecret)),
        };
        let jwt_refresh_secret = match jwt_refresh_secret {
            Some(s) => s,
            None => return Err(ConfigError::Missing(EnvKey::JwtRefreshSecret)),
        };
        if jwt_access_secret.as_str().as_bytes().len() < 32
            || jwt_refresh_secret.as_str().as_bytes().len() < 32 {
            return Err(ConfigError::SecretTooShort);
        }
        if jwt_access_secret == jwt_refresh_secret {
            return Err(ConfigError::SecretsNotDistinct);
        }
        let access_text = text_or(access_token_ttl_seconds, "900");
        let access_token_ttl_seconds = match parse_i64(access_text.as_str()) {
            Some(n) => n,
            None => return Err(ConfigError::NotAnInteger(EnvKey::AccessTokenTtlSeconds)),
        };
        let refresh_text = text_or(refresh_token_ttl_seconds, "1209600");
        let refresh_token_ttl_seconds = match parse_i64(refresh_text.as_str()) {
            Some(n) => n,
            None => return Err(ConfigError::NotAnInteger(EnvKey::RefreshTokenTtlSeconds)),
        };
        let server_addr = text_or(server_addr, "0.0.0.0:3000");
        let cors_origin = text_or(cors_origin, "http://localhost:5173");
        let env = text_or(app_env, "development");
        let cloudinary_cloud_name = text_or(cloudinary_cloud_name, "");
        let cloudinary_api_key = text_or(cloudinary_api_key, "");
        let cloudinary_api_secret = text_or(cloudinary_api_secret, "");
        let cookie_secure = secure_flag(&cookie_secure);
        let cookie_same_site = text_or(cookie_same_site, "lax");
        Ok(Config {
            database_url,
            jwt_access_secret,
            jwt_refresh_secret,
            access_token_ttl_seconds,
            refresh_token_ttl_seconds,
            server_addr,
            cors_origin,
            env,
            cloudinary_cloud_name,
            cloudinary_api_key,
            cloudinary_api_secret,
            cloudinary_notification_url,
            cookie_secure,
            cookie_same_site,
        })
    }

    /// Whether the service runs in production: `APP_ENV` is `production`
    /// in any mix of letter case (`env.to_lowercase() == "production"`).
    pub fn is_production(&self) -> (res: bool)
        ensures
            res == ascii_case_equal(self.env@, "production"@),
    {
        ascii_case_equals(self.env.as_str(), "production")
    }
}

/// Law: the configuration is refused only for what the service requires —
/// the database URL and two JWT secrets of at least 32 bytes that differ —
/// and for token lifetimes that are not integers. Every other variable,
/// set to anything or unset, is accepted.
pub proof fn lemma_config_accepts(v: EnvVars)
    ensures
        config_error_of(v) is None <==> {
            &&& v.database_url is Some
            &&& v.jwt_access_secret is Some
            &&& v.jwt_refresh_secret is Some
            &&& byte_len(v.jwt_access_secret.unwrap()@) >= 32
            &&& byte_len(v.jwt_refresh_secret.unwrap()@) >= 32
            &&& v.jwt_access_secret.unwrap()@ != v.jwt_refresh_secret.unwrap()@
            &&& parsed_i64(or_default(v.access_token_ttl_seconds, "900"@)) is Some
            &&& parsed_i64(or_default(v.refresh_token_ttl_seconds, "1209600"@)) is Some
        },
{
}

/// Law: each key names the environment variable the service documents for
/// it.
pub proof fn lemma_env_key_names()
    ensures
        env_key_name(EnvKey::DatabaseUrl) == "DATABASE_URL"@,
        env_key_name(EnvKey::JwtAccessSecret) == "JWT_ACCESS_SECRET"@,
        env_key_name(EnvKey::JwtRefreshSecret) == "JWT_REFRESH_SECRET"@,
        env_key_name(EnvKey::AccessTokenTtlSeconds) == "ACCESS_TOKEN_TTL_SECONDS"@,
        env_key_name(EnvKey::RefreshTokenTtlSeconds) == "REFRESH_TOKEN_TTL_SECONDS"@,
        env_key_name(EnvKey::ServerAddr) == "SERVER_ADDR"@,
        env_key_name(EnvKey::CorsOrigin) == "CORS_ORIGIN"@,
        env_key_name(EnvKey::AppEnv) == "APP_ENV"@,
        env_key_name(EnvKey::CloudinaryCloudName) == "CLOUDINARY_CLOUD_NAME"@,
        env_key_name(EnvKey::CloudinaryApiKey) == "CLOUDINARY_API_KEY"@,
        env_key_name(EnvKey::CloudinaryApiSecret) == "CLOUDINARY_API_SECRET"@,
        env_key_name(EnvKey::CloudinaryNotificationUrl) == "CLOUDINARY_NOTIFICATION_URL"@,
        env_key_name(EnvKey::CookieSecure) == "COOKIE_SECURE"@,
        env_key_name(EnvKey::CookieSameSite) == "COOKIE_SAME_SITE"@,
{
}

} // verus!
