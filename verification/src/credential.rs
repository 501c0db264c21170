//! The credentials a client presents to a portal or a gateway.
use vstd::prelude::*;

use crate::auth::{read_gpcallback, ReadOutcome, SamlAuthData, SamlAuthDataView, SamlAuthResult};
use crate::error::AuthDataParseError;
use crate::text::{as_opt_str, clone_opt, is_blank, is_blank_str, opt_str_view, opt_to_string, opt_view, str_eq, trim, trim_str};

verus! {

broadcast use vstd::string::group_string_axioms;

/// A username with its password.
#[derive(Debug)]
pub struct PasswordCredential {
    pub(crate) username: String,
    pub(crate) password: String,
}

pub struct PasswordCredentialView {
    pub username: Seq<char>,
    pub password: Seq<char>,
}

impl View for PasswordCredential {
    type V = PasswordCredentialView;

    closed spec fn view(&self) -> PasswordCredentialView {
        PasswordCredentialView { username: self.username@, password: self.password@ }
    }
}

impl Clone for PasswordCredential {
    fn clone(&self) -> (r: Self)
        ensures
            r == *self,
    {
        PasswordCredential { username: self.username.clone(), password: self.password.clone() }
    }
}

impl PasswordCredential {
    pub fn new(username: &str, password: &str) -> (r: Self)
        ensures
            r@ == (PasswordCredentialView { username: username@, password: password@ }),
    {
        PasswordCredential { username: username.to_string(), password: password.to_string() }
    }

    /// The username and password of a cached credential; a missing password
    /// becomes the empty one.
    pub fn from_cached(value: &CachedCredential) -> (r: Self)
        ensures
            r@ == (PasswordCredentialView {
                username: value@.username,
                password: match value@.password {
                    Some(p) => p,
                    None => Seq::empty(),
                },
            }),
    {
        match value.password() {
            Some(p) => PasswordCredential::new(value.username(), p),
            None => PasswordCredential { username: value.username.clone(), password: String::new() },
        }
    }

    pub fn username(&self) -> (r: &str)
        ensures
            r@ == self@.username,
    {
        self.username.as_str()
    }

    pub fn password(&self) -> (r: &str)
        ensures
            r@ == self@.password,
    {
        self.password.as_str()
    }
}

/// What a SAML or CAS login produced, presented as a credential.
#[derive(Debug)]
pub struct PreloginCredential {
    pub(crate) username: String,
    pub(crate) prelogin_cookie: Option<String>,
    pub(crate) portal_userauthcookie: Option<String>,
    pub(crate) token: Option<String>,
}

pub struct PreloginCredentialView {
    pub username: Seq<char>,
    pub prelogin_cookie: Option<Seq<char>>,
    pub portal_userauthcookie: Option<Seq<char>>,
    pub token: Option<Seq<char>>,
}

impl View for PreloginCredential {
    type V = PreloginCredentialView;

    closed spec fn view(&self) -> PreloginCredentialView {
        PreloginCredentialView {
            username: self.username@,
            prelogin_cookie: opt_view(self.prelogin_cookie),
            portal_userauthcookie: opt_view(self.portal_userauthcookie),
            token: opt_view(self.token),
        }
    }
}

impl Clone for PreloginCredential {
    fn clone(&self) -> (r: Self)
        ensures
            r == *self,
    {
        PreloginCredential {
            username: self.username.clone(),
            prelogin_cookie: clone_opt(&self.prelogin_cookie),
            portal_userauthcookie: clone_opt(&self.portal_userauthcookie),
            token: clone_opt(&self.token),
        }
    }
}

/// The credential that SAML data gives: its username, cookies and token;
/// the host ID stays behind.
pub open spec fn prelogin_of(d: SamlAuthDataView) -> PreloginCredentialView {
    PreloginCredentialView {
        username: d.username,
        prelogin_cookie: d.prelogin_cookie,
        portal_userauthcookie: d.portal_userauthcookie,
        token: d.token,
    }
}

impl PreloginCredential {
    pub fn new(
        username: &str,
        prelogin_cookie: Option<&str>,
        portal_userauthcookie: Option<&str>,
        token: Option<&str>,
    ) -> (r: Self)
        ensures
            r@ == (PreloginCredentialView {
                username: username@,
                prelogin_cookie: opt_str_view(prelogin_cookie),
                portal_userauthcookie: opt_str_view(portal_userauthcookie),
                token: opt_str_view(token),
            }),
    {
        PreloginCredential {
            username: username.to_string(),
            prelogin_cookie: opt_to_string(prelogin_cookie),
            portal_userauthcookie: opt_to_string(portal_userauthcookie),
            token: opt_to_string(token),
        }
    }

    pub fn username(&self) -> (r: &str)
        ensures
            r@ == self@.username,
    {
        self.username.as_str()
    }

    pub fn prelogin_cookie(&self) -> (r: Option<&str>)
        ensures
            opt_str_view(r) == self@.prelogin_cookie,
    {
        as_opt_str(&self.prelogin_cookie)
    }

    pub fn portal_userauthcookie(&self) -> (r: Option<&str>)
        ensures
            opt_str_view(r) == self@.portal_userauthcookie,
    {
        as_opt_str(&self.portal_userauthcookie)
    }

    pub fn token(&self) -> (r: Option<&str>)
        ensures
            opt_str_view(r) == self@.token,
    {
        as_opt_str(&self.token)
    }
}

impl From<SamlAuthData> for PreloginCredential {
    fn from(value: SamlAuthData) -> (r: Self) {
        PreloginCredential {
            username: value.username,
            prelogin_cookie: value.prelogin_cookie,
            portal_userauthcookie: value.portal_userauthcookie,
            token: value.token,
        }
    }
}

impl vstd::std_specs::convert::FromSpecImpl<SamlAuthData> for PreloginCredential {
    open spec fn obeys_from_spec() -> bool {
        true
    }

    closed spec fn from_spec(v: SamlAuthData) -> Self {
        PreloginCredential {
            username: v.username,
            prelogin_cookie: v.prelogin_cookie,
            portal_userauthcookie: v.portal_userauthcookie,
            token: v.token,
        }
    }
}

/// The portal's authentication cookies, kept to log in to a gateway.
#[derive(Debug)]
pub struct AuthCookieCredential {
    pub(crate) username: String,
    pub(crate) user_auth_cookie: String,
    pub(crate) prelogon_user_auth_cookie: String,
    pub(crate) password: Option<String>,
}

pub struct AuthCookieCredentialView {
    pub username: Seq<char>,
    pub user_auth_cookie: Seq<char>,
    pub prelogon_user_auth_cookie: Seq<char>,
    pub password: Option<Seq<char>>,
}

impl View for AuthCookieCredential {
    type V = AuthCookieCredentialView;

    closed spec fn view(&self) -> AuthCookieCredentialView {
        AuthCookieCredentialView {
            username: self.username@,
            user_auth_cookie: self.user_auth_cookie@,
            prelogon_user_auth_cookie: self.prelogon_user_auth_cookie@,
            password: opt_view(self.password),
        }
    }
}

impl Clone for AuthCookieCredential {
    fn clone(&self) -> (r: Self)
        ensures
            r == *self,
    {
        AuthCookieCredential {
            username: self.username.clone(),
            user_auth_cookie: self.user_auth_cookie.clone(),
            prelogon_user_auth_cookie: self.prelogon_user_auth_cookie.clone(),
            password: clone_opt(&self.password),
        }
    }
}

/// A cookie that a gateway accepts: neither blank nor the portal's `empty`
/// placeholder, once trimmed.
pub open spec fn is_gateway_auth_cookie(v: Seq<char>) -> bool {
    trim(v).len() > 0 && trim(v) != "empty"@
}

fn gateway_auth_cookie(value: &str) -> (r: bool)
    ensures
        r == is_gateway_auth_cookie(value@),
{
    let value = trim_str(value);
    !value.as_str().is_empty() && !str_eq(value.as_str(), "empty")
}

/// The password kept with the cookies: a blank one is dropped.
pub open spec fn kept_password(p: Seq<char>) -> Option<Seq<char>> {
    if is_blank(p) {
        None
    } else {
        Some(p)
    }
}

impl AuthCookieCredential {
    pub fn new(username: &str, user_auth_cookie: &str, prelogon_user_auth_cookie: &str) -> (r: Self)
        ensures
            r@ == (AuthCookieCredentialView {
                username: username@,
                user_auth_cookie: user_auth_cookie@,
                prelogon_user_auth_cookie: prelogon_user_auth_cookie@,
                password: None,
            }),
    {
        AuthCookieCredential {
            username: username.to_string(),
            user_auth_cookie: user_auth_cookie.to_string(),
            prelogon_user_auth_cookie: prelogon_user_auth_cookie.to_string(),
            password: None,
        }
    }

    /// The same cookies with a password to send beside them; a blank one is
    /// dropped.
    pub fn with_password(self, password: String) -> (r: Self)
        ensures
            r@ == (AuthCookieCredentialView { password: kept_password(password@), ..self@ }),
    {
        let blank = is_blank_str(password.as_str());
        AuthCookieCredential { password: if blank { None } else { Some(password) }, ..self }
    }

    pub fn username(&self) -> (r: &str)
        ensures
            r@ == self@.username,
    {
        self.username.as_str()
    }

    pub fn user_auth_cookie(&self) -> (r: &str)
        ensures
            r@ == self@.user_auth_cookie,
    {
        self.user_auth_cookie.as_str()
    }

    pub fn prelogon_user_auth_cookie(&self) -> (r: &str)
        ensures
            r@ == self@.prelogon_user_auth_cookie,
    {
        self.prelogon_user_auth_cookie.as_str()
    }

    pub fn password(&self) -> (r: Option<&str>)
        ensures
            opt_str_view(r) == self@.password,
    {
        as_opt_str(&self.password)
    }

    /// One of the two cookies is one that a gateway accepts.
    pub fn can_authenticate_gateway(&self) -> (r: bool)
        ensures
            r == (is_gateway_auth_cookie(self@.user_auth_cookie) || is_gateway_auth_cookie(
                self@.prelogon_user_auth_cookie,
            )),
    {
        gateway_auth_cookie(self.user_auth_cookie.as_str()) || gateway_auth_cookie(
            self.prelogon_user_auth_cookie.as_str(),
        )
    }
}

/// What is stored between sessions: the username, perhaps the password, and
/// perhaps the portal's cookies.
#[derive(Debug)]
pub struct CachedCredential {
    pub(crate) username: String,
    pub(crate) password: Option<String>,
    pub(crate) auth_cookie: Option<AuthCookieCredential>,
}

pub struct CachedCredentialView {
    pub username: Seq<char>,
    pub password: Option<Seq<char>>,
    pub auth_cookie: Option<AuthCookieCredentialView>,
}

pub open spec fn opt_cookie_view(o: Option<AuthCookieCredential>) -> Option<
    AuthCookieCredentialView,
> {
    match o {
        Some(c) => Some(c@),
        None => None,
    }
}

impl View for CachedCredential {
    type V = CachedCredentialView;

    closed spec fn view(&self) -> CachedCredentialView {
        CachedCredentialView {
            username: self.username@,
            password: opt_view(self.password),
            auth_cookie: opt_cookie_view(self.auth_cookie),
        }
    }
}

impl Clone for CachedCredential {
    fn clone(&self) -> (r: Self)
        ensures
            r == *self,
    {
        CachedCredential {
            username: self.username.clone(),
            password: clone_opt(&self.password),
            auth_cookie: match &self.auth_cookie {
                Some(c) => Some(c.clone()),
                None => None,
            },
        }
    }
}

impl CachedCredential {
    pub fn new(username: String, password: Option<String>, auth_cookie: Option<AuthCookieCredential>) -> (r: Self)
        ensures
            r@ == (CachedCredentialView {
                username: username@,
                password: opt_view(password),
                auth_cookie: opt_cookie_view(auth_cookie),
            }),
    {
        CachedCredential { username, password, auth_cookie }
    }

    pub fn username(&self) -> (r: &str)
        ensures
            r@ == self@.username,
    {
        self.username.as_str()
    }

    pub fn password(&self) -> (r: Option<&str>)
        ensures
            opt_str_view(r) == self@.password,
    {
        as_opt_str(&self.password)
    }

    pub fn auth_cookie(&self) -> (r: Option<&AuthCookieCredential>)
        ensures
            match r {
                Some(c) => self@.auth_cookie == Some(c@),
                None => self@.auth_cookie is None,
            },
    {
        match &self.auth_cookie {
            Some(c) => Some(c),
            None => None,
        }
    }

    /// The stored cookies, if any, are ones that a gateway accepts.
    pub fn can_authenticate_gateway(&self) -> (r: bool)
        ensures
            r == match self@.auth_cookie {
                Some(c) => is_gateway_auth_cookie(c.user_auth_cookie) || is_gateway_auth_cookie(
                    c.prelogon_user_auth_cookie,
                ),
                None => false,
            },
    {
        match &self.auth_cookie {
            Some(c) => c.can_authenticate_gateway(),
            None => false,
        }
    }

    pub fn set_auth_cookie(&mut self, auth_cookie: AuthCookieCredential)
        ensures
            final(self)@ == (CachedCredentialView { auth_cookie: Some(auth_cookie@), ..old(self)@ }),
    {
        self.auth_cookie = Some(auth_cookie);
    }

    pub fn set_username(&mut self, username: String)
        ensures
            final(self)@ == (CachedCredentialView { username: username@, ..old(self)@ }),
    {
        self.username = username;
    }

    pub fn set_password(&mut self, password: Option<String>)
        ensures
            final(self)@ == (CachedCredentialView { password: opt_view(password), ..old(self)@ }),
    {
        self.password = password;
    }
}

impl From<PasswordCredential> for CachedCredential {
    fn from(value: PasswordCredential) -> (r: Self) {
        CachedCredential { username: value.username, password: Some(value.password), auth_cookie: None }
    }
}

impl vstd::std_specs::convert::FromSpecImpl<PasswordCredential> for CachedCredential {
    open spec fn obeys_from_spec() -> bool {
        true
    }

    closed spec fn from_spec(v: PasswordCredential) -> Self {
        CachedCredential { username: v.username, password: Some(v.password), auth_cookie: None }
    }
}

/// Any of the ways to authenticate.
#[derive(Debug)]
pub enum Credential {
    Password(PasswordCredential),
    Prelogin(PreloginCredential),
    AuthCookie(AuthCookieCredential),
    Cached(CachedCredential),
}

/// The username that a credential carries.
pub open spec fn credential_username(c: Credential) -> Seq<char> {
    match c {
        Credential::Password(p) => p@.username,
        Credential::Prelogin(p) => p@.username,
        Credential::AuthCookie(a) => a@.username,
        Credential::Cached(k) => k@.username,
    }
}

/// The password that a credential carries; SAML data and portal cookies
/// carry none.
pub open spec fn credential_password(c: Credential) -> Option<Seq<char>> {
    match c {
        Credential::Password(p) => Some(p@.password),
        Credential::Cached(k) => k@.password,
        Credential::Prelogin(_) | Credential::AuthCookie(_) => None,
    }
}

/// A gateway can be logged in to with the credential: always, but for
/// cookies that the gateway would not accept.
pub open spec fn credential_can_authenticate_gateway(c: Credential) -> bool {
    match c {
        Credential::AuthCookie(a) => is_gateway_auth_cookie(a@.user_auth_cookie)
            || is_gateway_auth_cookie(a@.prelogon_user_auth_cookie),
        Credential::Cached(k) => match k@.auth_cookie {
            Some(a) => is_gateway_auth_cookie(a.user_auth_cookie) || is_gateway_auth_cookie(
                a.prelogon_user_auth_cookie,
            ),
            None => false,
        },
        Credential::Password(_) | Credential::Prelogin(_) => true,
    }
}

impl Clone for Credential {
    fn clone(&self) -> (r: Self)
        ensures
            r == *self,
    {
        match self {
            Credential::Password(c) => Credential::Password(c.clone()),
            Credential::Prelogin(c) => Credential::Prelogin(c.clone()),
            Credential::AuthCookie(c) => Credential::AuthCookie(c.clone()),
            Credential::Cached(c) => Credential::Cached(c.clone()),
        }
    }
}

impl Credential {
    /// The credential in a `globalprotectcallback:` URL, as SAML data.
    pub fn from_gpcallback(auth_data: &str) -> (r: Result<Self, AuthDataParseError>)
        ensures
            match r {
                Ok(c) => c is Prelogin && (match read_gpcallback(auth_data@) {
                    ReadOutcome::Found(d) => c->Prelogin_0@ == prelogin_of(d),
                    _ => false,
                }),
                Err(e) => match read_gpcallback(auth_data@) {
                    ReadOutcome::NotFound => e is NotFound,
                    ReadOutcome::Invalid => e is Invalid,
                    ReadOutcome::Found(_) => false,
                },
            },
    {
        let data = SamlAuthData::from_gpcallback(auth_data);
        match data {
            Ok(d) => {
                proof {
                    SamlAuthData::lemma_view(d);
                }
                Ok(Credential::from(d))
            },
            Err(e) => Err(e),
        }
    }

    pub fn username(&self) -> (r: &str)
        ensures
            r@ == credential_username(*self),
    {
        match self {
            Credential::Password(cred) => cred.username(),
            Credential::Prelogin(cred) => cred.username(),
            Credential::AuthCookie(cred) => cred.username(),
            Credential::Cached(cred) => cred.username(),
        }
    }

    pub fn password(&self) -> (r: Option<&str>)
        ensures
            opt_str_view(r) == credential_password(*self),
    {
        match self {
            Credential::Password(cred) => Some(cred.password()),
            Credential::Cached(cred) => cred.password(),
            Credential::Prelogin(_) | Credential::AuthCookie(_) => None,
        }
    }

    pub fn can_authenticate_gateway(&self) -> (r: bool)
        ensures
            r == credential_can_authenticate_gateway(*self),
    {
        match self {
            Credential::AuthCookie(cred) => cred.can_authenticate_gateway(),
            Credential::Cached(cred) => cred.can_authenticate_gateway(),
            Credential::Password(_) | Credential::Prelogin(_) => true,
        }
    }
}

impl From<SamlAuthData> for Credential {
    fn from(value: SamlAuthData) -> (r: Self) {
        Credential::Prelogin(PreloginCredential::from(value))
    }
}

impl vstd::std_specs::convert::FromSpecImpl<SamlAuthData> for Credential {
    open spec fn obeys_from_spec() -> bool {
        true
    }

    closed spec fn from_spec(v: SamlAuthData) -> Self {
        Credential::Prelogin(
            PreloginCredential {
                username: v.username,
                prelogin_cookie: v.prelogin_cookie,
                portal_userauthcookie: v.portal_userauthcookie,
                token: v.token,
            },
        )
    }
}

impl From<PasswordCredential> for Credential {
    fn from(value: PasswordCredential) -> (r: Self) {
        Credential::Password(value)
    }
}

impl vstd::std_specs::convert::FromSpecImpl<PasswordCredential> for Credential {
    open spec fn obeys_from_spec() -> bool {
        true
    }

    closed spec fn from_spec(v: PasswordCredential) -> Self {
        Credential::Password(v)
    }
}

impl From<&AuthCookieCredential> for Credential {
    fn from(value: &AuthCookieCredential) -> (r: Self) {
        Credential::AuthCookie(value.clone())
    }
}

impl vstd::std_specs::convert::FromSpecImpl<&AuthCookieCredential> for Credential {
    open spec fn obeys_from_spec() -> bool {
        true
    }

    closed spec fn from_spec(v: &AuthCookieCredential) -> Self {
        Credential::AuthCookie(*v)
    }
}

impl From<&CachedCredential> for Credential {
    fn from(value: &CachedCredential) -> (r: Self) {
        Credential::Cached(value.clone())
    }
}

impl vstd::std_specs::convert::FromSpecImpl<&CachedCredential> for Credential {
    open spec fn obeys_from_spec() -> bool {
        true
    }

    closed spec fn from_spec(v: &CachedCredential) -> Self {
        Credential::Cached(*v)
    }
}

/// Converting SAML data to a credential and reading it back keeps the
/// username, the cookies and the token.
pub proof fn lemma_saml_credential_keeps_fields(d: SamlAuthData)
    ensures
        ({
            let c = <Credential as vstd::std_specs::convert::FromSpec<SamlAuthData>>::from_spec(d);
            &&& c is Prelogin
            &&& c->Prelogin_0@ == prelogin_of(d@)
            &&& credential_username(c) == d@.username
            &&& credential_password(c) is None
            &&& credential_can_authenticate_gateway(c)
        }),
{
    SamlAuthData::lemma_view(d);
}

impl Credential {
    /// The credential of a finished SAML login; a failed login gives its
    /// message.
    pub fn try_from_auth_result(value: SamlAuthResult) -> (r: Result<Credential, String>)
        ensures
            match value {
                SamlAuthResult::Success(d) => r matches Ok(c) && c == <Credential as vstd::std_specs::convert::FromSpec<SamlAuthData>>::from_spec(d),
                SamlAuthResult::Failure(m) => r matches Err(e) && e@ == m@,
            },
    {
        match value {
            SamlAuthResult::Success(auth_data) => Ok(Credential::from(auth_data)),
            SamlAuthResult::Failure(err) => Err(err),
        }
    }
}

} // verus!
