//! The browser cache policy of every response.

use vstd::prelude::*;

use crate::text::{has_prefix, starts_with};

verus! {

/// The `Cache-Control` value for a response to `path`: API responses hold
/// private classroom data and are never stored; content-addressed assets
/// are kept for a year; everything else (HTML, the service worker) must be
/// revalidated so that a new deployment takes over at once.
pub open spec fn cache_control_for(path: Seq<char>) -> Seq<char> {
    if starts_with(path, "/api/"@) {
        "no-store"@
    } else if starts_with(path, "/assets/"@) {
        "public, max-age=31536000, immutable"@
    } else {
        "no-cache"@
    }
}

/// The `Cache-Control` value for a response to the request path `path`.
pub fn cache_policy(path: &str) -> (value: &'static str)
    ensures
        value@ == cache_control_for(path@),
        "/api/"@.is_prefix_of(path@) ==> value@ == "no-store"@,
        !"/api/"@.is_prefix_of(path@) && "/assets/"@.is_prefix_of(path@) ==> value@
            == "public, max-age=31536000, immutable"@,
        !"/api/"@.is_prefix_of(path@) && !"/assets/"@.is_prefix_of(path@) ==> value@
            == "no-cache"@,
{
    if has_prefix(path, "/api/") {
        "no-store"
    } else if has_prefix(path, "/assets/") {
        "public, max-age=31536000, immutable"
    } else {
        "no-cache"
    }
}

} // verus!
