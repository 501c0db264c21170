//! The authentication cookie kept between runs, and when a kept one may be
//! used again.
use vstd::prelude::*;

use crate::credential::{AuthCookieCredential, AuthCookieCredentialView};
use crate::gateway::session::unix_timestamp;
use crate::text::str_eq;

verus! {

broadcast use vstd::string::group_string_axioms;

/// The layout version of a stored cookie.
pub const STORE_VERSION: u32 = 1;

/// An authentication cookie as it is stored, with the server and host it
/// was issued for.
#[derive(Debug)]
pub struct StoredCookie {
    pub version: u32,
    pub server: String,
    pub username: String,
    pub host_id: String,
    pub last_gateway: String,
    pub auth_cookie: AuthCookieCredential,
    pub saved_at: u64,
}

pub struct StoredCookieView {
    pub version: u32,
    pub server: Seq<char>,
    pub username: Seq<char>,
    pub host_id: Seq<char>,
    pub last_gateway: Seq<char>,
    pub auth_cookie: AuthCookieCredentialView,
    pub saved_at: u64,
}

impl View for StoredCookie {
    type V = StoredCookieView;

    open spec fn view(&self) -> StoredCookieView {
        StoredCookieView {
            version: self.version,
            server: self.server@,
            username: self.username@,
            host_id: self.host_id@,
            last_gateway: self.last_gateway@,
            auth_cookie: self.auth_cookie@,
            saved_at: self.saved_at,
        }
    }
}

impl StoredCookie {
    /// A cookie to store, saved at `saved_at` seconds since the Unix epoch.
    pub fn new_at(
        server: String,
        username: String,
        host_id: String,
        last_gateway: String,
        auth_cookie: AuthCookieCredential,
        saved_at: u64,
    ) -> (r: Self)
        ensures
            r@ == (StoredCookieView {
                version: STORE_VERSION,
                server: server@,
                username: username@,
                host_id: host_id@,
                last_gateway: last_gateway@,
                auth_cookie: auth_cookie@,
                saved_at,
            }),
    {
        StoredCookie {
            version: STORE_VERSION,
            server,
            username,
            host_id,
            last_gateway,
            auth_cookie,
            saved_at,
        }
    }

    /// A cookie to store, saved now.
    pub fn new(
        server: String,
        username: String,
        host_id: String,
        last_gateway: String,
        auth_cookie: AuthCookieCredential,
    ) -> (r: Self)
        ensures
            r@.version == STORE_VERSION,
            r@.server == server@,
            r@.username == username@,
            r@.host_id == host_id@,
            r@.last_gateway == last_gateway@,
            r@.auth_cookie == auth_cookie@,
    {
        let now = unix_timestamp();
        StoredCookie::new_at(server, username, host_id, last_gateway, auth_cookie, now)
    }
}

/// A stored cookie may be used again only for the server and the host that
/// it was issued for, and only in the current layout.
pub open spec fn reusable(stored: StoredCookieView, server: Seq<char>, host_id: Seq<char>) -> bool {
    stored.version == STORE_VERSION && stored.server == server && stored.host_id == host_id
}

/// The stored cookie, when it may be used for `server` from `host_id`.
pub fn accept_stored(stored: StoredCookie, server: &str, host_id: &str) -> (r: Option<StoredCookie>)
    ensures
        match r {
            Some(c) => c@ == stored@ && reusable(stored@, server@, host_id@),
            None => !reusable(stored@, server@, host_id@),
        },
{
    if stored.version != STORE_VERSION || !str_eq(stored.server.as_str(), server) || !str_eq(
        stored.host_id.as_str(),
        host_id,
    ) {
        return None;
    }
    Some(stored)
}

/// The path of the cookie file: the one given, else under the home
/// directory (`/root` when it is unknown).
pub open spec fn cookie_path_of(custom: Option<Seq<char>>, home: Option<Seq<char>>) -> Seq<char> {
    match custom {
        Some(p) => p,
        None => match home {
            Some(h) => h + "/.config/gpclient/cookie.json"@,
            None => "/root"@ + "/.config/gpclient/cookie.json"@,
        },
    }
}

/// Where the cookie is kept.
pub fn cookie_path(custom: Option<&str>, home: Option<&str>) -> (r: String)
    ensures
        r@ == cookie_path_of(
            match custom {
                Some(p) => Some(p@),
                None => None,
            },
            match home {
                Some(h) => Some(h@),
                None => None,
            },
        ),
{
    match custom {
        Some(p) => {
            let r = p.to_string();
            assert(r@ == p@);
            r
        },
        None => {
            let mut path = match home {
                Some(h) => h.to_string(),
                None => "/root".to_string(),
            };
            path.append("/.config/gpclient/cookie.json");
            path
        },
    }
}

} // verus!
