# media_pipeline

Backend of a small video platform: accounts with JWT access tokens and
rotating refresh tokens, and videos uploaded straight to Cloudinary with
signed parameters and processed through Cloudinary notifications.

- `src/` is the verified library (Verus). It holds the configuration rules,
  decimal and hexadecimal text, identifier text, refresh-token generation and
  hashing, access-token claims, the refresh cookie, the decisions of the
  register / login / refresh / logout flows (register, login and refresh
  as step machines in `src/auth/signin.rs` and `src/auth/rotation.rs`,
  whose database and signing work the service performs), error answers, Cloudinary
  upload signatures, delivery URLs and webhook handling. `src/crypto.rs`,
  `time::utc_now` and the `uuid` wrappers in `src/ids.rs` are the trusted
  boundary to the `sha1`, `sha2`, `base64`, `rand`, `chrono` and `uuid`
  crates; `text::push_char` is the trusted wrapper of `String::push`.
- `app/` is the HTTP service around it (axum, sqlx, jsonwebtoken, argon2):
  routing, database queries, JSON bodies and process setup.
- `tests/` exercises the library on concrete values.

Configuration is read from `DATABASE_URL`, `JWT_ACCESS_SECRET`,
`JWT_REFRESH_SECRET` (required; at least 32 bytes each, and different),
`ACCESS_TOKEN_TTL_SECONDS` (default 900), `REFRESH_TOKEN_TTL_SECONDS`
(default 1209600), `SERVER_ADDR` (default `0.0.0.0:3000`), `CORS_ORIGIN`
(default `http://localhost:5173`), `APP_ENV` (default `development`),
`CLOUDINARY_CLOUD_NAME`, `CLOUDINARY_API_KEY`, `CLOUDINARY_API_SECRET`
(default empty; without a secret every webhook notification is refused),
`CLOUDINARY_NOTIFICATION_URL` (optional), `COOKIE_SECURE`
(secure unless `false`) and `COOKIE_SAME_SITE` (default `lax`).
