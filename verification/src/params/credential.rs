//! The credential's part of a login form.
use vstd::prelude::*;

use super::{push_param, Pairs};
use crate::credential::{credential_username, Credential};
use crate::gp_params::GpParams;
use crate::os_profile::{saml_password_of, ClientOs};
use crate::text::opt_str_view;

verus! {

broadcast use vstd::string::group_string_axioms;

/// The value the portal uses for a missing cookie.
pub const EMPTY_PORTAL_COOKIE: &'static str = "empty";

/// A portal cookie parameter: the cookie, or `empty` when it is missing or
/// empty.
pub open spec fn portal_cookie_param(value: Option<Seq<char>>) -> Seq<char> {
    match value {
        Some(v) => if v.len() > 0 {
            v
        } else {
            "empty"@
        },
        None => "empty"@,
    }
}

fn portal_cookie_text(value: Option<&str>) -> (r: String)
    ensures
        r@ == portal_cookie_param(opt_str_view(value)),
{
    match value {
        Some(v) => if v.is_empty() {
            EMPTY_PORTAL_COOKIE.to_string()
        } else {
            v.to_string()
        },
        None => EMPTY_PORTAL_COOKIE.to_string(),
    }
}

pub open spec fn or_empty(v: Option<Seq<char>>) -> Seq<char> {
    match v {
        Some(s) => s,
        None => Seq::empty(),
    }
}

/// What a credential sends: its password (the profile's SAML password for
/// SAML data, and for portal cookies without a password of their own), its
/// prelogin cookie, its portal cookies and its token.
pub open spec fn credential_fields(c: Credential, os: ClientOs) -> (
    Option<Seq<char>>,
    Option<Seq<char>>,
    Option<Seq<char>>,
    Option<Seq<char>>,
    Option<Seq<char>>,
) {
    match c {
        Credential::Password(p) => (Some(p@.password), None, None, None, None),
        Credential::Prelogin(p) => (
            Some(saml_password_of(os)),
            p@.prelogin_cookie,
            p@.portal_userauthcookie,
            None,
            p@.token,
        ),
        Credential::AuthCookie(a) => (
            Some(
                match a@.password {
                    Some(pw) => pw,
                    None => saml_password_of(os),
                },
            ),
            None,
            Some(a@.user_auth_cookie),
            Some(a@.prelogon_user_auth_cookie),
            None,
        ),
        Credential::Cached(k) => (
            k@.password,
            None,
            match k@.auth_cookie {
                Some(a) => Some(a.user_auth_cookie),
                None => None,
            },
            match k@.auth_cookie {
                Some(a) => Some(a.prelogon_user_auth_cookie),
                None => None,
            },
            None,
        ),
    }
}

/// The credential's form fields, in order: `user`, `passwd`,
/// `prelogin-cookie`, `portal-userauthcookie`,
/// `portal-prelogonuserauthcookie` and `token`.
pub open spec fn credential_params(c: Credential, os: ClientOs) -> Pairs {
    let f = credential_fields(c, os);
    seq![
        ("user"@, credential_username(c)),
        ("passwd"@, or_empty(f.0)),
        ("prelogin-cookie"@, or_empty(f.1)),
        ("portal-userauthcookie"@, portal_cookie_param(f.2)),
        ("portal-prelogonuserauthcookie"@, portal_cookie_param(f.3)),
        ("token"@, or_empty(f.4)),
    ]
}

/// A portal cookie as a form field: the cookie, or `empty` when it is
/// empty.
pub open spec fn cookie_field(v: Seq<char>) -> Seq<char> {
    if v.len() == 0 {
        "empty"@
    } else {
        v
    }
}

/// A cached credential that holds portal cookies sends them as a portal
/// cookie credential does: `portal-userauthcookie` carries the user cookie
/// and `portal-prelogonuserauthcookie` the prelogon cookie (each `empty`
/// when empty); without cookies both are `empty`. Either way the fields
/// come in the order `user`, `passwd`, `prelogin-cookie`,
/// `portal-userauthcookie`, `portal-prelogonuserauthcookie`, `token`.
pub proof fn lemma_portal_cookie_fields(c: Credential, os: ClientOs)
    ensures
        credential_params(c, os).len() == 6,
        credential_params(c, os)[3].0 == "portal-userauthcookie"@,
        credential_params(c, os)[4].0 == "portal-prelogonuserauthcookie"@,
        c matches Credential::AuthCookie(a) ==> credential_params(c, os)[3].1 == cookie_field(a@.user_auth_cookie)
            && credential_params(c, os)[4].1 == cookie_field(a@.prelogon_user_auth_cookie),
        c matches Credential::Cached(k) ==> match k@.auth_cookie {
            Some(a) => credential_params(c, os)[3].1 == cookie_field(a.user_auth_cookie)
                && credential_params(c, os)[4].1 == cookie_field(a.prelogon_user_auth_cookie),
            None => credential_params(c, os)[3].1 == "empty"@ && credential_params(c, os)[4].1 == "empty"@,
        },
{
}

/// A cached credential and a portal cookie credential with the same
/// cookies send the same portal cookie fields.
pub proof fn lemma_cached_cookies_as_auth_cookie(cached: Credential, auth: Credential, os: ClientOs)
    requires
        cached matches Credential::Cached(k) && auth matches Credential::AuthCookie(a) && k@.auth_cookie == Some(a@),
    ensures
        credential_params(cached, os)[3] == credential_params(auth, os)[3],
        credential_params(cached, os)[4] == credential_params(auth, os)[4],
{
    lemma_portal_cookie_fields(cached, os);
    lemma_portal_cookie_fields(auth, os);
}

fn or_empty_text(v: Option<&str>) -> (r: &str)
    ensures
        r@ == or_empty(opt_str_view(v)),
{
    match v {
        Some(s) => s,
        None => {
            proof {
                reveal_strlit("");
            }
            ""
        },
    }
}

/// The credential's form fields.
pub fn build(cred: &Credential, gp_params: &GpParams) -> (r: Vec<(String, String)>)
    ensures
        r.deep_view() == credential_params(*cred, gp_params@.os_profile.client_os),
        match *cred {
            Credential::Cached(k) => match k@.auth_cookie {
                Some(a) => r@.len() == 6 && r@[3].0@ == "portal-userauthcookie"@ && r@[3].1@ == cookie_field(
                    a.user_auth_cookie,
                ) && r@[4].0@ == "portal-prelogonuserauthcookie"@ && r@[4].1@ == cookie_field(
                    a.prelogon_user_auth_cookie,
                ),
                None => true,
            },
            _ => true,
        },
{
    let mut params: Vec<(String, String)> = Vec::new();
    push_param(&mut params, "user", cred.username());
    let saml_password = gp_params.os_profile().saml_password();
    let (passwd, prelogin_cookie, portal_userauthcookie, portal_prelogonuserauthcookie, token) =
        match cred {
        Credential::Password(c) => (Some(c.password()), None, None, None, None),
        Credential::Prelogin(c) => (
            Some(saml_password),
            c.prelogin_cookie(),
            c.portal_userauthcookie(),
            None,
            c.token(),
        ),
        Credential::AuthCookie(c) => (
            Some(
                match c.password() {
                    Some(p) => p,
                    None => saml_password,
                },
            ),
            None,
            Some(c.user_auth_cookie()),
            Some(c.prelogon_user_auth_cookie()),
            None,
        ),
        Credential::Cached(c) => (
            c.password(),
            None,
            match c.auth_cookie() {
                Some(a) => Some(a.user_auth_cookie()),
                None => None,
            },
            match c.auth_cookie() {
                Some(a) => Some(a.prelogon_user_auth_cookie()),
                None => None,
            },
            None,
        ),
    };
    push_param(&mut params, "passwd", or_empty_text(passwd));
    push_param(&mut params, "prelogin-cookie", or_empty_text(prelogin_cookie));
    let puc = portal_cookie_text(portal_userauthcookie);
    push_param(&mut params, "portal-userauthcookie", puc.as_str());
    let ppuc = portal_cookie_text(portal_prelogonuserauthcookie);
    push_param(&mut params, "portal-prelogonuserauthcookie", ppuc.as_str());
    push_param(&mut params, "token", or_empty_text(token));
    assert(params.deep_view() =~= credential_params(*cred, gp_params@.os_profile.client_os));
    proof {
        lemma_portal_cookie_fields(*cred, gp_params@.os_profile.client_os);
        assert(params.deep_view().len() == params@.len());
        assert(params.deep_view()[3] == (params@[3].0@, params@[3].1@));
        assert(params.deep_view()[4] == (params@[4].0@, params@[4].1@));
    }
    params
}

} // verus!
