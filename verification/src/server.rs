//! Server names as the user gives them, and as the requests address them.
use vstd::prelude::*;

use crate::text::{ends_with, starts_with, starts_with_str, trim, trim_str};

verus! {

broadcast use vstd::string::group_string_axioms;

/// A server's base URL: the trimmed name with `https://` in front unless it
/// names its scheme, and without a trailing `/`.
pub open spec fn normalized_server(server: Seq<char>) -> Seq<char> {
    let s = trim(server);
    let with_scheme = if starts_with(s, "https://"@) || starts_with(s, "http://"@) {
        s
    } else {
        "https://"@ + s
    };
    if ends_with(with_scheme, "/"@) {
        with_scheme.drop_last()
    } else {
        with_scheme
    }
}

/// The base URL that requests to a server are made on.
pub fn normalize_server(server: &str) -> (r: String)
    ensures
        r@ == normalized_server(server@),
{
    proof {
        reveal_strlit("/");
    }
    let s = trim_str(server);
    let with_scheme = if starts_with_str(s.as_str(), "https://") || starts_with_str(s.as_str(), "http://") {
        s
    } else {
        let mut u = "https://".to_string();
        u.append(s.as_str());
        u
    };
    if crate::text::ends_with_str(with_scheme.as_str(), "/") {
        let v = crate::text::to_chars(with_scheme.as_str());
        let n = v.len();
        let r = crate::text::string_of(&v, 0, n - 1);
        assert(v@.subrange(0, n - 1) =~= with_scheme@.drop_last());
        r
    } else {
        with_scheme
    }
}

/// A URL without its `https://` or `http://`.
pub open spec fn without_scheme(url: Seq<char>) -> Seq<char> {
    if starts_with(url, "https://"@) {
        url.subrange(8, url.len() as int)
    } else if starts_with(url, "http://"@) {
        url.subrange(7, url.len() as int)
    } else {
        url
    }
}

/// The host part of a base URL.
pub fn remove_url_scheme(url: &str) -> (r: String)
    ensures
        r@ == without_scheme(url@),
{
    proof {
        reveal_strlit("https://");
        reveal_strlit("http://");
    }
    if starts_with_str(url, "https://") {
        let v = crate::text::to_chars(url);
        crate::text::string_of(&v, 8, v.len())
    } else if starts_with_str(url, "http://") {
        let v = crate::text::to_chars(url);
        crate::text::string_of(&v, 7, v.len())
    } else {
        url.to_string()
    }
}

} // verus!
