//! The http-only cookie that carries the refresh token.

use vstd::prelude::*;
use crate::config::Config;
use crate::text::{ascii_case_equal, ascii_case_equals, ascii_lower, owned};

verus! {

/// The cookie's `SameSite` attribute.
#[derive(Clone, Copy, Debug, PartialEq, Eq, Structural)]
pub enum SameSitePolicy {
    Strict,
    Lax,
    /// `SameSite=None`: the cookie is sent with cross-site requests too.
    CrossSite,
}

/// The policy named by a configuration value: `strict` or `none` in any
/// letter case, and `Lax` for anything else.
pub open spec fn same_site_policy(value: Seq<char>) -> SameSitePolicy {
    if ascii_case_equal(value, "strict"@) {
        SameSitePolicy::Strict
    } else if ascii_case_equal(value, "none"@) {
        SameSitePolicy::CrossSite
    } else {
        SameSitePolicy::Lax
    }
}

/// Reads the `SameSite` policy from configuration (compared after
/// lower-casing, as `value.to_lowercase()` was).
pub fn same_site_from_config(value: &str) -> (res: SameSitePolicy)
    ensures
        res == same_site_policy(value@),
{
    if ascii_case_equals(value, "strict") {
        SameSitePolicy::Strict
    } else if ascii_case_equals(value, "none") {
        SameSitePolicy::CrossSite
    } else {
        SameSitePolicy::Lax
    }
}

/// Name of the refresh cookie.
pub open spec fn refresh_cookie_name() -> Seq<char> {
    "0x0RT"@
}

/// The path the refresh cookie is scoped to, so that browsers only send it
/// to the authentication endpoints.
pub open spec fn refresh_cookie_path() -> Seq<char> {
    "/api/auth"@
}

/// A refresh cookie to set on a response.
#[derive(Clone, Debug)]
pub struct RefreshCookie {
    pub name: String,
    pub value: String,
    pub http_only: bool,
    pub secure: bool,
    pub same_site: SameSitePolicy,
    pub path: String,
    pub max_age_seconds: i64,
}

/// A cookie that, once removed from the jar, clears the refresh cookie.
#[derive(Clone, Debug)]
pub struct RemovalCookie {
    pub name: String,
    pub value: String,
    pub path: String,
}

/// The name of the refresh cookie.
pub fn refresh_cookie_name_text() -> (res: String)
    ensures
        res@ == refresh_cookie_name(),
{
    owned("0x0RT")
}

/// `c` is the refresh cookie carrying `token`: http-only, `Secure` and
/// `SameSite` from configuration, scoped to `/api/auth`, living as long as a
/// refresh token does.
pub open spec fn is_refresh_cookie(c: RefreshCookie, config: Config, token: Seq<char>) -> bool {
    &&& c.name@ == refresh_cookie_name()
    &&& c.value@ == token
    &&& c.http_only
    &&& c.secure == config.cookie_secure
    &&& c.same_site == same_site_policy(config.cookie_same_site@)
    &&& c.path@ == refresh_cookie_path()
    &&& c.max_age_seconds == config.refresh_token_ttl_seconds
}

/// Builds the refresh cookie for `token`.
pub fn build_refresh_cookie(config: &Config, token: String) -> (res: RefreshCookie)
    ensures
        is_refresh_cookie(res, *config, token@),
        res.value == token,
{
    RefreshCookie {
        name: refresh_cookie_name_text(),
        value: token,
        http_only: true,
        secure: config.cookie_secure,
        same_site: same_site_from_config(config.cookie_same_site.as_str()),
        path: owned("/api/auth"),
        max_age_seconds: config.refresh_token_ttl_seconds,
    }
}

/// The empty cookie used to clear the refresh cookie on logout.
pub fn removal_cookie() -> (res: RemovalCookie)
    ensures
        res.name@ == refresh_cookie_name(),
        res.value@ == Seq::<char>::empty(),
        res.path@ == refresh_cookie_path(),
{
    RemovalCookie { name: refresh_cookie_name_text(), value: String::new(), path: owned("/api/auth") }
}

/// Law: the policy is `Strict` exactly for values that lower-case to
/// `strict`, `SameSite=None` exactly for values that lower-case to `none`,
/// and `Lax` otherwise; so values that differ only in the case of their
/// letters get the same policy. In particular `strict`, `Strict` and
/// `STRICT` are all strict, and `None` is cross-site.
pub proof fn lemma_same_site_policy(v: Seq<char>, w: Seq<char>)
    ensures
        same_site_policy(v) == SameSitePolicy::Strict <==> ascii_case_equal(v, "strict"@),
        same_site_policy(v) == SameSitePolicy::CrossSite <==> ascii_case_equal(v, "none"@),
        same_site_policy(v) == SameSitePolicy::Lax <==> !ascii_case_equal(v, "strict"@) && !ascii_case_equal(
            v,
            "none"@,
        ),
        (v.len() == w.len() && forall|i: int| 0 <= i < v.len() ==> ascii_lower(#[trigger] v[i]) == ascii_lower(w[i]))
            ==> same_site_policy(v) == same_site_policy(w),
        same_site_policy("strict"@) == SameSitePolicy::Strict,
        same_site_policy("Strict"@) == SameSitePolicy::Strict,
        same_site_policy("STRICT"@) == SameSitePolicy::Strict,
        same_site_policy("None"@) == SameSitePolicy::CrossSite,
        same_site_policy("lax"@) == SameSitePolicy::Lax,
{
    reveal_strlit("strict");
    reveal_strlit("none");
    reveal_strlit("Strict");
    reveal_strlit("STRICT");
    reveal_strlit("None");
    reveal_strlit("lax");
    if ascii_case_equal(v, "strict"@) {
        assert(!ascii_case_equal(v, "none"@));
    }
    if v.len() == w.len() && forall|i: int| 0 <= i < v.len() ==> ascii_lower(#[trigger] v[i]) == ascii_lower(w[i]) {
        assert(ascii_case_equal(v, "strict"@) == ascii_case_equal(w, "strict"@)) by {
            if ascii_case_equal(w, "strict"@) {
                assert forall|i: int| 0 <= i < v.len() implies #[trigger] ascii_lower(v[i]) == "strict"@[i] by {
                    assert(ascii_lower(w[i]) == "strict"@[i]);
                }
            }
            if ascii_case_equal(v, "strict"@) {
                assert forall|i: int| 0 <= i < w.len() implies #[trigger] ascii_lower(w[i]) == "strict"@[i] by {
                    assert(ascii_lower(v[i]) == "strict"@[i]);
                }
            }
        }
        assert(ascii_case_equal(v, "none"@) == ascii_case_equal(w, "none"@)) by {
            if ascii_case_equal(w, "none"@) {
                assert forall|i: int| 0 <= i < v.len() implies #[trigger] ascii_lower(v[i]) == "none"@[i] by {
                    assert(ascii_lower(w[i]) == "none"@[i]);
                }
            }
            if ascii_case_equal(v, "none"@) {
                assert forall|i: int| 0 <= i < w.len() implies #[trigger] ascii_lower(w[i]) == "none"@[i] by {
                    assert(ascii_lower(v[i]) == "none"@[i]);
                }
            }
        }
    }
    assert(ascii_case_equal("strict"@, "strict"@));
    assert(ascii_lower('S') == 's');
    assert(ascii_lower('T') == 't');
    assert(ascii_lower('R') == 'r');
    assert(ascii_lower('I') == 'i');
    assert(ascii_lower('C') == 'c');
    assert(ascii_lower('N') == 'n');
    assert(ascii_case_equal("Strict"@, "strict"@));
    assert(ascii_case_equal("STRICT"@, "strict"@));
    assert(ascii_case_equal("None"@, "none"@));
    assert(!ascii_case_equal("lax"@, "strict"@));
    assert(!ascii_case_equal("lax"@, "none"@));
}

} // verus!
