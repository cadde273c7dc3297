//! Request plumbing for the metadata service, as far as it is pure
//! computation: endpoint normalization, request paths, the bearer header,
//! the authentication-failure checks that drive a session refresh, and
//! the secret-store entry names.

use vstd::prelude::*;
use crate::text::{contains_seq, str_contains, strip_slash, strip_trailing_slash};

verus! {

/// The stable application identifier that keys settings and secrets.
pub const PACKAGE_NAME: &'static str = "com.iewnfod.pydio.cells.synchronizer";

/// What `str::to_lowercase` returns: a function of the characters alone.
pub uninterp spec fn lower_of(s: Seq<char>) -> Seq<char>;

/// Relies on str::to_lowercase: the lower-cased text, a function of the
/// input characters alone.
#[verifier::external_body]
fn lowercase(s: &str) -> (r: String)
    ensures
        r@ == lower_of(s@),
{
    s.to_lowercase()
}

/// A metadata-service answer with this status carries expired
/// credentials: the session must be refreshed before the call is retried.
pub fn needs_refresh(status: u16) -> (r: bool)
    ensures
        r == (status == 401),
{
    status == 401
}

/// The base URL for metadata calls: the configured endpoint with one
/// trailing slash trimmed.
pub fn normalized_endpoint(endpoint: &str) -> (r: String)
    ensures
        r@ == strip_slash(endpoint@),
{
    strip_trailing_slash(endpoint)
}

/// The full URL of one metadata call: normalized endpoint, then the
/// service path.
pub fn request_url(endpoint: &str, api: &str) -> (r: String)
    ensures
        r@ == strip_slash(endpoint@) + api@,
{
    strip_trailing_slash(endpoint).concat(api)
}

/// The authorization header value carrying the session's bearer token.
pub fn bearer_header(jwt: &str) -> (r: String)
    ensures
        r@ == "Bearer "@ + jwt@,
{
    "Bearer ".to_owned().concat(jwt)
}

/// The identity-check path for a user: the login name is sent
/// lower-cased.
pub fn user_api_path(username: &str) -> (r: String)
    ensures
        r@ == "/a/user/"@ + lower_of(username@),
{
    "/a/user/".to_owned().concat(lowercase(username).as_str())
}

/// The node-path pattern that lists a directory: the path with one
/// trailing slash trimmed, then a wildcard for its children.
pub fn list_query_path(p: &str) -> (r: String)
    ensures
        r@ == strip_slash(p@) + "/*"@,
{
    strip_trailing_slash(p).concat("/*")
}

/// Whether a session answer reports a failed login; the service answers
/// with a success status either way, so the body text decides.
pub fn login_failed(body: &str) -> (r: bool)
    ensures
        r == contains_seq(body@, "Login failed"@),
{
    str_contains(body, "Login failed")
}

/// The secret-store entry name for one key: the application identifier,
/// a colon, and the key.
pub fn keyring_entry_name(key: &str) -> (r: String)
    ensures
        r@ == PACKAGE_NAME@ + ":"@ + key@,
{
    PACKAGE_NAME.to_owned().concat(":").concat(key)
}

} // verus!
