//! Authentication: refresh tokens, access-token claims, the refresh cookie
//! and the decisions of the register, login, refresh and logout flows.

pub mod cookie;
pub mod flow;
pub mod jwt;
pub mod refresh;
pub mod rotation;
pub mod signin;
