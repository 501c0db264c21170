//! The webview login as a response reader sees it: the request to load, and
//! what a response (its headers first, then its body) tells the login loop.
use vstd::prelude::*;

use crate::auth::{outcome_of, ReadOutcome, SamlAuthData, SamlAuthDataView};
use crate::error::AuthDataParseError;
use crate::text::{ends_with, ends_with_str, opt_str_view, opt_view, starts_with, starts_with_str};
use crate::webview::{auth_data_from_headers, auth_data_from_html, header_outcome, html_outcome};

verus! {

broadcast use vstd::string::group_string_axioms;

/// Why a response gave no authentication data.
#[derive(Debug, Clone, Copy, PartialEq, Eq, Structural)]
pub enum AuthError {
    /// The page failed to load because of a TLS error.
    TlsError,
    /// Authentication data was found but is unusable, or the page failed.
    Invalid,
    /// No authentication data was found.
    NotFound,
}

/// What the login loop is told.
#[derive(Debug)]
pub enum AuthEvent {
    Data(SamlAuthData),
    Error(AuthError),
    RaiseWindow,
    Close,
}

/// An authentication request: a URL to load, or an HTML page.
#[derive(Debug)]
pub struct AuthRequest<'a>(&'a str);

impl<'a> View for AuthRequest<'a> {
    type V = Seq<char>;

    closed spec fn view(&self) -> Seq<char> {
        self.0@
    }
}

impl<'a> AuthRequest<'a> {
    pub fn new(auth_request: &'a str) -> (r: Self)
        ensures
            r@ == auth_request@,
    {
        AuthRequest(auth_request)
    }

    /// A request that starts with `http` is a URL.
    pub fn is_url(&self) -> (r: bool)
        ensures
            r == starts_with(self@, "http"@),
    {
        starts_with_str(self.0, "http")
    }

    pub fn as_str(&self) -> (r: &str)
        ensures
            r@ == self@,
    {
        self.0
    }
}

/// A response of the webview, as the login reads it. What it holds is named
/// by spec functions of the response.
pub trait ResponseReader {
    /// The response's URL.
    spec fn url_spec(&self) -> Option<Seq<char>>;

    /// The value of the response's header `key`.
    spec fn header_spec(&self, key: Seq<char>) -> Option<Seq<char>>;

    /// The response's body: `Err` when it cannot be read, `None` when there
    /// is none.
    spec fn body_spec(&self) -> Result<Option<Seq<char>>, Seq<char>>;

    fn url(&self) -> (r: Option<String>)
        ensures
            opt_view(r) == self.url_spec(),
    ;

    fn get_header(&self, key: &str) -> (r: Option<String>)
        ensures
            opt_view(r) == self.header_spec(key@),
    ;

    /// The response's body; `None` when it has none to read.
    fn get_body(&self) -> (r: Result<Option<String>, String>)
        ensures
            body_view(r) == self.body_spec(),
    ;
}

/// The SAML assertion consumer endpoint, where the data is expected.
pub open spec fn is_acs_url(url: Option<Seq<char>>) -> bool {
    match url {
        Some(u) => ends_with(u, "/SAML20/SP/ACS"@),
        None => false,
    }
}

/// Whether the response came from the `/SAML20/SP/ACS` endpoint.
pub fn is_acs_endpoint(url: Option<&str>) -> (r: bool)
    ensures
        r == is_acs_url(opt_str_view(url)),
{
    match url {
        Some(u) => ends_with_str(u, "/SAML20/SP/ACS"),
        None => false,
    }
}

/// A response's body as text: `Err` when it could not be read, `None` when
/// there is none.
pub open spec fn body_view(body: Result<Option<String>, String>) -> Result<Option<Seq<char>>, Seq<char>> {
    match body {
        Ok(Some(b)) => Ok(Some(b@)),
        Ok(None) => Ok(None),
        Err(e) => Err(e@),
    }
}

/// A reading's result with the data by its view.
pub open spec fn read_view(r: Option<Result<SamlAuthData, AuthError>>) -> Option<Result<SamlAuthDataView, AuthError>> {
    match r {
        Some(Ok(d)) => Some(Ok(d@)),
        Some(Err(e)) => Some(Err(e)),
        None => None,
    }
}

/// What a response yields, from what its headers said and what its body
/// holds: data in the headers wins; a body that cannot be read is invalid,
/// no body yields nothing, and a body without data is invalid when the
/// response came from the consumer endpoint or either reading found invalid
/// data, and is no data otherwise.
pub open spec fn read_result_of(
    header: ReadOutcome,
    is_acs: bool,
    body: Result<Option<Seq<char>>, Seq<char>>,
) -> Option<Result<SamlAuthDataView, AuthError>> {
    match header {
        ReadOutcome::Found(v) => Some(Ok(v)),
        _ => match body {
            Err(_) => Some(Err(AuthError::Invalid)),
            Ok(None) => None,
            Ok(Some(html)) => match html_outcome(html) {
                ReadOutcome::Found(v) => Some(Ok(v)),
                ReadOutcome::Invalid => Some(Err(AuthError::Invalid)),
                ReadOutcome::NotFound => Some(
                    Err(
                        if is_acs || header is Invalid {
                            AuthError::Invalid
                        } else {
                            AuthError::NotFound
                        },
                    ),
                ),
            },
        },
    }
}

/// What a response yields when its `saml-auth-status`, `saml-username`,
/// `prelogin-cookie` and `portal-userauthcookie` headers, its URL and its
/// body are these.
pub open spec fn response_result(
    status: Option<Seq<char>>,
    username: Option<Seq<char>>,
    prelogin_cookie: Option<Seq<char>>,
    portal_userauthcookie: Option<Seq<char>>,
    url: Option<Seq<char>>,
    body: Result<Option<Seq<char>>, Seq<char>>,
) -> Option<Result<SamlAuthDataView, AuthError>> {
    read_result_of(
        header_outcome(status, username, prelogin_cookie, portal_userauthcookie),
        is_acs_url(url),
        body,
    )
}

/// What a response yields, from what its headers gave and what its body
/// holds. Data in the headers wins. Otherwise the body is read: a body that
/// cannot be read is invalid, a response without a body yields nothing
/// (`None`), and a body without data is invalid when the response came from
/// the consumer endpoint or either reading found invalid data, and is no
/// data otherwise.
pub fn auth_result_from(
    header: Result<SamlAuthData, AuthDataParseError>,
    is_acs_endpoint: bool,
    body: Result<Option<String>, String>,
) -> (r: Option<Result<SamlAuthData, AuthError>>)
    ensures
        read_view(r) == read_result_of(outcome_of(header), is_acs_endpoint, body_view(body)),
        match header {
            Ok(d) => r matches Some(Ok(d2)) && d2@ == d@,
            Err(header_err) => match body {
                Err(_) => r == Some(Err::<SamlAuthData, AuthError>(AuthError::Invalid)),
                Ok(None) => r is None,
                Ok(Some(html)) => match html_outcome(html@) {
                    ReadOutcome::Found(v) => r matches Some(Ok(d)) && d@ == v,
                    ReadOutcome::Invalid => r == Some(Err::<SamlAuthData, AuthError>(AuthError::Invalid)),
                    ReadOutcome::NotFound => r == Some(
                        Err::<SamlAuthData, AuthError>(
                            if is_acs_endpoint || header_err is Invalid {
                                AuthError::Invalid
                            } else {
                                AuthError::NotFound
                            },
                        ),
                    ),
                },
            },
        },
{
    match header {
        Ok(d) => Some(Ok(d)),
        Err(header_err) => {
            let body_result = match body {
                Ok(Some(html)) => auth_data_from_html(html.as_str()),
                Ok(None) => {
                    return None;
                },
                Err(_) => Err(AuthDataParseError::Invalid("Failed to read body".to_string())),
            };
            match body_result {
                Ok(d) => Some(Ok(d)),
                Err(e) => {
                    if is_acs_endpoint || e.is_invalid() || header_err.is_invalid() {
                        Some(Err(AuthError::Invalid))
                    } else {
                        Some(Err(AuthError::NotFound))
                    }
                },
            }
        },
    }
}

/// Reads the authentication data of a response: its headers first, then its
/// body, as `auth_result_from` decides.
pub fn read_auth_data<R: ResponseReader>(auth_response: &R) -> (r: Option<
    Result<SamlAuthData, AuthError>,
>)
    ensures
        read_view(r) == response_result(
            auth_response.header_spec("saml-auth-status"@),
            auth_response.header_spec("saml-username"@),
            auth_response.header_spec("prelogin-cookie"@),
            auth_response.header_spec("portal-userauthcookie"@),
            auth_response.url_spec(),
            auth_response.body_spec(),
        ),
{
    let status = auth_response.get_header("saml-auth-status");
    let (username, prelogin_cookie, portal_userauthcookie) = if status.is_some() {
        (
            auth_response.get_header("saml-username"),
            auth_response.get_header("prelogin-cookie"),
            auth_response.get_header("portal-userauthcookie"),
        )
    } else {
        (None, None, None)
    };
    let header = if status.is_some() {
        auth_data_from_headers(status.clone(), username.clone(), prelogin_cookie.clone(), portal_userauthcookie.clone())
    } else {
        Err(AuthDataParseError::NotFound)
    };
    let ghost h = header_outcome(
        opt_view(status),
        opt_view(username),
        opt_view(prelogin_cookie),
        opt_view(portal_userauthcookie),
    );
    assert(outcome_of(header) == h);
    if header.is_ok() {
        let r = auth_result_from(header, false, Ok(None));
        assert(response_result(
            opt_view(status),
            opt_view(username),
            opt_view(prelogin_cookie),
            opt_view(portal_userauthcookie),
            None,
            Ok(None),
        ) == read_view(r));
        return r;
    }
    let url = auth_response.url();
    let acs = match &url {
        Some(u) => is_acs_endpoint(Some(u.as_str())),
        None => false,
    };
    let body = auth_response.get_body();
    let ghost bv = body_view(body);
    let r = auth_result_from(header, acs, body);
    assert(response_result(
        opt_view(status),
        opt_view(username),
        opt_view(prelogin_cookie),
        opt_view(portal_userauthcookie),
        opt_view(url),
        bv,
    ) == read_view(r));
    r
}

} // verus!
