//! The embedded-browser login: the user agent its webview sends, how an
//! authentication request is loaded, and what a loaded page or a response's
//! headers tell the login loop.
use vstd::prelude::*;

use crate::auth::{outcome_of, read_gpcallback, read_html, ReadOutcome, SamlAuthData};
use crate::error::AuthDataParseError;
use crate::gp_params::GpParams;
use crate::os_profile::{WebviewUserAgent, WebviewUserAgentTransform};
use crate::text::{text_result_view, unit_result_view, contains, contains_str, find, first_occurrence, is_ws, is_whitespace, occurs_at, opt_view, starts_with, starts_with_str, str_eq, string_of, to_chars, trim, trim_str, lemma_trim_ends, lemma_first_occurrence_exists, lemma_trim_fixed, lemma_trim_idempotent};

verus! {

broadcast use vstd::string::group_string_axioms;

// ---------------------------------------------------------------------------
// User agent
// ---------------------------------------------------------------------------

/// The first whitespace position of `s` at or after `i`, or its length.
pub open spec fn ws_from(s: Seq<char>, i: int) -> int
    decreases s.len() - i,
{
    if i < 0 || i >= s.len() {
        s.len() as int
    } else if is_ws(s[i]) {
        i
    } else {
        ws_from(s, i + 1)
    }
}

/// The webview's own user agent with its `Version/...` token replaced by
/// `PanGPUI Version/10.0`, as the Linux client sends it. A user agent that
/// already holds that token, or holds no `Version/` at all, is kept.
pub open spec fn pan_gpui_user_agent(ua: Seq<char>) -> Seq<char> {
    if contains(ua, "PanGPUI Version/10.0"@) {
        ua
    } else if contains(ua, "Version/"@) {
        let start = choose|i: int| first_occurrence(ua, "Version/"@, i);
        ua.subrange(0, start) + "PanGPUI Version/10.0"@ + ua.subrange(
            ws_from(ua, start),
            ua.len() as int,
        )
    } else {
        ua
    }
}

/// A user agent rewritten by `transform`.
pub open spec fn transformed_user_agent(transform: WebviewUserAgentTransform, ua: Seq<char>) -> Seq<
    char,
> {
    match transform {
        WebviewUserAgentTransform::Unchanged => ua,
        WebviewUserAgentTransform::LinuxPanGpuiVersion => pan_gpui_user_agent(ua),
    }
}

/// The user agent with the (trimmed) prefix in front: a blank prefix keeps
/// the default as it is, a blank default is refused (`None`), and a default
/// that already starts with the prefix is only trimmed.
pub open spec fn prefixed_user_agent(prefix: Seq<char>, default_ua: Seq<char>) -> Option<Seq<char>> {
    let p = trim(prefix);
    let d = trim(default_ua);
    if p.len() == 0 {
        Some(default_ua)
    } else if d.len() == 0 {
        None
    } else if starts_with(d, p) {
        Some(d)
    } else {
        Some(p + " "@ + d)
    }
}

/// The user agent that a plan composes from a default user agent.
pub open spec fn composed_user_agent(
    prefix: Seq<char>,
    transform: WebviewUserAgentTransform,
    default_ua: Seq<char>,
) -> Option<Seq<char>> {
    prefixed_user_agent(prefix, transformed_user_agent(transform, default_ua))
}

/// What prefixing gives: the user agent, or the error that a blank default
/// gives.
pub open spec fn prefixed_result(prefix: Seq<char>, default_ua: Seq<char>) -> Result<Seq<char>, Seq<char>> {
    match prefixed_user_agent(prefix, default_ua) {
        Some(u) => Ok(u),
        None => Err("Failed to read default webview user agent"@),
    }
}

/// What a plan composes from a default user agent, error text included.
pub open spec fn composed_result(
    prefix: Seq<char>,
    transform: WebviewUserAgentTransform,
    default_ua: Seq<char>,
) -> Result<Seq<char>, Seq<char>> {
    prefixed_result(prefix, transformed_user_agent(transform, default_ua))
}

pub open spec fn user_agent_outcome(r: Result<String, String>) -> Option<Seq<char>> {
    match r {
        Ok(s) => Some(s@),
        Err(_) => None,
    }
}

proof fn lemma_first_occurrence_unique(s: Seq<char>, n: Seq<char>, i: int, j: int)
    requires
        first_occurrence(s, n, i),
        first_occurrence(s, n, j),
    ensures
        i == j,
{
    if i < j {
        assert(!occurs_at(s, n, i));
    } else if j < i {
        assert(!occurs_at(s, n, j));
    }
}

/// Rewriting a user agent for the Linux client twice rewrites it once: the
/// rewritten user agent already holds `PanGPUI Version/10.0`.
pub proof fn lemma_pan_gpui_idempotent(ua: Seq<char>)
    ensures
        pan_gpui_user_agent(pan_gpui_user_agent(ua)) == pan_gpui_user_agent(ua),
{
    let t = "PanGPUI Version/10.0"@;
    if !contains(ua, t) && contains(ua, "Version/"@) {
        let j = choose|j: int| occurs_at(ua, "Version/"@, j);
        lemma_first_occurrence_exists(ua, "Version/"@, j);
        let start = choose|i: int| first_occurrence(ua, "Version/"@, i);
        let r = pan_gpui_user_agent(ua);
        assert(r.subrange(start, start + t.len()) =~= t);
        assert(occurs_at(r, t, start));
    }
}

/// Putting the prefix in front of a user agent that already has it leaves
/// it unchanged: composing twice composes once.
pub proof fn lemma_prefix_idempotent(prefix: Seq<char>, default_ua: Seq<char>)
    requires
        prefixed_user_agent(prefix, default_ua) is Some,
    ensures
        prefixed_user_agent(prefix, prefixed_user_agent(prefix, default_ua).unwrap())
            == prefixed_user_agent(prefix, default_ua),
{
    let p = trim(prefix);
    let d = trim(default_ua);
    if p.len() > 0 {
        lemma_trim_idempotent(default_ua);
        lemma_trim_ends(prefix);
        lemma_trim_ends(default_ua);
        if !starts_with(d, p) {
            let x = p + " "@ + d;
            assert(x[0] == p[0]);
            assert(x.last() == d.last());
            lemma_trim_fixed(x);
            assert(x.subrange(0, p.len() as int) =~= p);
        }
    }
}

/// Replaces the `Version/...` token of a webview user agent with
/// `PanGPUI Version/10.0`, unless that token is already there.
pub fn linux_pan_gpui_user_agent(user_agent: &str) -> (r: String)
    ensures
        r@ == pan_gpui_user_agent(user_agent@),
{
    if contains_str(user_agent, "PanGPUI Version/10.0") {
        return user_agent.to_string();
    }
    let v = to_chars(user_agent);
    let needle = to_chars("Version/");
    match find(&v, &needle) {
        None => user_agent.to_string(),
        Some(start) => {
            proof {
                let c = choose|i: int| first_occurrence(v@, "Version/"@, i);
                lemma_first_occurrence_unique(v@, "Version/"@, start as int, c);
            }
            let mut end = start;
            while end < v.len() && !is_whitespace(v[end])
                invariant
                    start <= end <= v.len(),
                    ws_from(v@, start as int) == ws_from(v@, end as int),
                decreases v.len() - end,
            {
                end += 1;
            }
            let mut r = string_of(&v, 0, start);
            r.append("PanGPUI Version/10.0");
            let tail = string_of(&v, end, v.len());
            r.append(tail.as_str());
            r
        },
    }
}

/// Puts the product prefix in front of the webview's default user agent.
pub fn prepend_webview_user_agent_prefix(prefix: &str, default_user_agent: &str) -> (r: Result<
    String,
    String,
>)
    ensures
        user_agent_outcome(r) == prefixed_user_agent(prefix@, default_user_agent@),
        r matches Err(e) ==> e@ == "Failed to read default webview user agent"@,
        text_result_view(r) == prefixed_result(prefix@, default_user_agent@),
{
    let prefix = trim_str(prefix);
    if prefix.as_str().is_empty() {
        return Ok(default_user_agent.to_string());
    }
    let default_user_agent = trim_str(default_user_agent);
    if default_user_agent.as_str().is_empty() {
        return Err("Failed to read default webview user agent".to_string());
    }
    if starts_with_str(default_user_agent.as_str(), prefix.as_str()) {
        return Ok(default_user_agent);
    }
    let mut r = prefix;
    r.append(" ");
    r.append(default_user_agent.as_str());
    Ok(r)
}

/// A user agent rewritten by `transform`.
pub fn apply_webview_user_agent_transform(transform: WebviewUserAgentTransform, user_agent: &str) -> (r:
    String)
    ensures
        r@ == transformed_user_agent(transform, user_agent@),
{
    match transform {
        WebviewUserAgentTransform::Unchanged => user_agent.to_string(),
        WebviewUserAgentTransform::LinuxPanGpuiVersion => linux_pan_gpui_user_agent(user_agent),
    }
}

/// The user agent that `plan` asks the webview to send. A native plan reads
/// the webview's own user agent through `native_user_agent` and passes its
/// error on; a projected plan never calls it.
pub fn compose_webview_user_agent<F: FnOnce() -> Result<String, String>>(
    plan: &WebviewUserAgent,
    native_user_agent: F,
) -> (r: Result<String, String>)
    requires
        native_user_agent.requires(()),
    ensures
        match *plan {
            WebviewUserAgent::Native { prefix, transform } => exists|n: Result<String, String>|
                #![trigger native_user_agent.ensures((), n)]
                native_user_agent.ensures((), n) && text_result_view(r) == match n {
                    Ok(d) => composed_result(prefix@, transform, d@),
                    Err(e) => Err(e@),
                },
            WebviewUserAgent::Projected { prefix, default_user_agent } => text_result_view(r) == composed_result(
                prefix@,
                WebviewUserAgentTransform::Unchanged,
                default_user_agent@,
            ),
        },
{
    match plan {
        WebviewUserAgent::Native { prefix, transform } => {
            let n = native_user_agent();
            match &n {
                Ok(d) => {
                    let t = apply_webview_user_agent_transform(*transform, d.as_str());
                    let r = prepend_webview_user_agent_prefix(prefix.as_str(), t.as_str());
                    assert(native_user_agent.ensures((), n));
                    r
                },
                Err(e) => {
                    let r = Err(e.clone());
                    assert(native_user_agent.ensures((), n));
                    r
                },
            }
        },
        WebviewUserAgent::Projected { prefix, default_user_agent } => {
            prepend_webview_user_agent_prefix(prefix.as_str(), default_user_agent.as_str())
        },
    }
}

// ---------------------------------------------------------------------------
// Loading the authentication request
// ---------------------------------------------------------------------------

/// What the login needs of a platform's webview. Each answer is the
/// webview's, named by a spec function of the webview and the argument.
pub trait PlatformWebviewExt {
    /// The webview's own user agent, or why it cannot be read.
    spec fn user_agent_spec(&self) -> Result<Seq<char>, Seq<char>>;

    /// The answer to setting this user agent.
    spec fn set_user_agent_spec(&self, user_agent: Seq<char>) -> Result<(), Seq<char>>;

    /// The answer to loading this URL.
    spec fn load_url_spec(&self, url: Seq<char>) -> Result<(), Seq<char>>;

    /// The answer to loading this HTML page.
    spec fn load_html_spec(&self, html: Seq<char>) -> Result<(), Seq<char>>;

    fn ignore_tls_errors(&self) -> Result<(), String>;

    fn user_agent(&self) -> (r: Result<String, String>)
        ensures
            text_result_view(r) == self.user_agent_spec(),
    ;

    fn set_user_agent(&self, user_agent: &str) -> (r: Result<(), String>)
        ensures
            unit_result_view(r) == self.set_user_agent_spec(user_agent@),
    ;

    fn load_url(&self, url: &str) -> (r: Result<(), String>)
        ensures
            unit_result_view(r) == self.load_url_spec(url@),
    ;

    fn load_html(&self, html: &str) -> (r: Result<(), String>)
        ensures
            unit_result_view(r) == self.load_html_spec(html@),
    ;

    /// An authentication request that starts with `http` is a URL to load;
    /// anything else is an HTML page.
    fn load_auth_request(&self, auth_request: &str) -> (r: Result<(), String>)
        ensures
            unit_result_view(r) == if starts_with(auth_request@, "http"@) {
                self.load_url_spec(auth_request@)
            } else {
                self.load_html_spec(auth_request@)
            },
    {
        if starts_with_str(auth_request, "http") {
            self.load_url(auth_request)
        } else {
            self.load_html(auth_request)
        }
    }
}

/// The webview's answer to loading an authentication request: as a URL
/// when it starts with `http`, else as an HTML page.
pub open spec fn auth_request_load<W: PlatformWebviewExt + ?Sized>(wv: &W, auth_request: Seq<char>) -> Result<(), Seq<char>> {
    if starts_with(auth_request, "http"@) {
        wv.load_url_spec(auth_request)
    } else {
        wv.load_html_spec(auth_request)
    }
}

/// What a plan composes, given the webview's own user agent: the user
/// agent, the webview's error, or the error of a blank default.
pub open spec fn planned_result(plan: WebviewUserAgent, native: Result<Seq<char>, Seq<char>>) -> Result<Seq<char>, Seq<char>> {
    match plan {
        WebviewUserAgent::Native { prefix, transform } => match native {
            Ok(d) => composed_result(prefix@, transform, d),
            Err(e) => Err(e),
        },
        WebviewUserAgent::Projected { prefix, default_user_agent } => composed_result(
            prefix@,
            WebviewUserAgentTransform::Unchanged,
            default_user_agent@,
        ),
    }
}

/// Sets the user agent that `plan` composes, when there is a plan, and then
/// loads the authentication request. The first step that fails stops it:
/// a user agent that cannot be read or composed, then the webview's refusal
/// of the user agent, then its answer to the load.
pub fn load_auth_request_with_user_agent<W: PlatformWebviewExt>(
    wv: &W,
    plan: Option<&WebviewUserAgent>,
    auth_request: &str,
) -> (r: Result<(), String>)
    ensures
        match plan {
            None => unit_result_view(r) == auth_request_load(wv, auth_request@),
            Some(p) => match planned_result(*p, wv.user_agent_spec()) {
                Err(e) => unit_result_view(r) == Err::<(), Seq<char>>(e),
                Ok(ua) => match wv.set_user_agent_spec(ua) {
                    Err(e) => unit_result_view(r) == Err::<(), Seq<char>>(e),
                    Ok(()) => unit_result_view(r) == auth_request_load(wv, auth_request@),
                },
            },
        },
{
    if let Some(plan) = plan {
        let native = || -> (n: Result<String, String>)
            ensures
                text_result_view(n) == wv.user_agent_spec(),
            { wv.user_agent() };
        let composed = compose_webview_user_agent(plan, native);
        let user_agent = match composed {
            Ok(u) => u,
            Err(e) => {
                return Err(e);
            },
        };
        match wv.set_user_agent(user_agent.as_str()) {
            Ok(()) => {},
            Err(e) => {
                return Err(e);
            },
        }
    }
    wv.load_auth_request(auth_request)
}

// ---------------------------------------------------------------------------
// Reading authentication data from a page or from headers
// ---------------------------------------------------------------------------

/// Where authentication data was looked for.
#[derive(Debug, Clone, Copy, PartialEq, Eq, Structural)]
pub enum AuthDataLocation {
    Headers,
    Body,
}

/// Why a loaded page gave no authentication data.
#[derive(Debug)]
pub enum AuthError {
    /// The page failed to load because of a TLS error.
    TlsError,
    /// Authentication data was found but is unusable, or the page is an
    /// error page; the message says why.
    Invalid(String, AuthDataLocation),
    /// No authentication data was found.
    NotFound(AuthDataLocation),
}

impl AuthError {
    pub fn invalid_from_body(err: String) -> (r: Self)
        ensures
            r matches AuthError::Invalid(m, AuthDataLocation::Body) && m@ == err@,
    {
        AuthError::Invalid(err, AuthDataLocation::Body)
    }

    pub fn not_found_in_body() -> (r: Self)
        ensures
            r matches AuthError::NotFound(AuthDataLocation::Body),
    {
        AuthError::NotFound(AuthDataLocation::Body)
    }

    pub fn not_found_in_headers() -> (r: Self)
        ensures
            r matches AuthError::NotFound(AuthDataLocation::Headers),
    {
        AuthError::NotFound(AuthDataLocation::Headers)
    }
}

/// What the login loop is told.
#[derive(Debug)]
pub enum AuthEvent {
    Data(SamlAuthData, AuthDataLocation),
    Error(AuthError),
    RaiseWindow,
    Close,
}

/// `globalprotectcallback:` followed by a character other than `"` starts
/// at position `i` of `html`.
pub open spec fn callback_at(html: Seq<char>, i: int) -> bool {
    let n = "globalprotectcallback:"@.len();
    occurs_at(html, "globalprotectcallback:"@, i) && i + n < html.len() && html[i + n] != '"'
}

/// The first position of `"` in `s` at or after `i`, or its length.
pub open spec fn quote_from(s: Seq<char>, i: int) -> int
    decreases s.len() - i,
{
    if i < 0 || i >= s.len() {
        s.len() as int
    } else if s[i] == '"' {
        i
    } else {
        quote_from(s, i + 1)
    }
}

/// The leftmost match of `globalprotectcallback:[^"]+` in `html`: the
/// callback prefix and everything after it up to the next `"`.
pub open spec fn gpcallback_span(html: Seq<char>) -> Option<Seq<char>> {
    if exists|i: int| callback_at(html, i) {
        let i = choose|i: int|
            callback_at(html, i) && forall|j: int| 0 <= j < i ==> !callback_at(html, j);
        Some(html.subrange(i, quote_from(html, i + "globalprotectcallback:"@.len())))
    } else {
        None
    }
}

/// Finds the `globalprotectcallback:[^"]+` match with the `regex` crate:
/// the contract states the leftmost match, as the pattern's leftmost-first
/// greedy semantics give it.
#[verifier::external_body]
fn find_gpcallback(html: &str) -> (r: Option<String>)
    ensures
        opt_view(r) == gpcallback_span(html@),
{
    let re = regex::Regex::new(r#"globalprotectcallback:[^"]+"#).unwrap();
    re.find(html).map(|m| m.as_str().to_string())
}

/// The text with its HTML character references decoded, as
/// `html_escape::decode_html_entities` decodes them.
pub uninterp spec fn html_entities_decoded(s: Seq<char>) -> Seq<char>;

/// Decodes HTML character references (`&amp;`, `&#38;`, ...) with
/// `html_escape::decode_html_entities`; the contract only names the result.
#[verifier::external_body]
fn decode_html_entities(s: &str) -> (r: String)
    ensures
        r@ == html_entities_decoded(s@),
{
    html_escape::decode_html_entities(s).to_string()
}

/// The callback URL that an HTML page refers to, entities decoded.
pub open spec fn gpcallback_of(html: Seq<char>) -> Option<Seq<char>> {
    match gpcallback_span(html) {
        Some(m) => Some(html_entities_decoded(m)),
        None => None,
    }
}

/// The `globalprotectcallback:` URL in an HTML page, with its character
/// references decoded.
pub fn extract_gpcallback(html: &str) -> (r: Option<String>)
    ensures
        opt_view(r) == gpcallback_of(html@),
{
    match find_gpcallback(html) {
        Some(m) => Some(decode_html_entities(m.as_str())),
        None => None,
    }
}

/// What a loaded page says: an error page reading `Temporarily Unavailable`
/// is invalid; otherwise the SAML tags of the page, and where they give no
/// data, the callback URL that the page refers to.
pub open spec fn html_outcome(html: Seq<char>) -> ReadOutcome {
    if contains(html, "Temporarily Unavailable"@) {
        ReadOutcome::Invalid
    } else {
        match read_html(html) {
            ReadOutcome::Found(v) => ReadOutcome::Found(v),
            other => match gpcallback_of(html) {
                Some(cb) => read_gpcallback(cb),
                None => other,
            },
        }
    }
}

/// Authentication data from a loaded page.
pub fn auth_data_from_html(html: &str) -> (r: Result<SamlAuthData, AuthDataParseError>)
    ensures
        outcome_of(r) == html_outcome(html@),
{
    if contains_str(html, "Temporarily Unavailable") {
        return Err(AuthDataParseError::Invalid("Temporarily Unavailable".to_string()));
    }
    match SamlAuthData::from_html(html) {
        Ok(d) => Ok(d),
        Err(err) => match extract_gpcallback(html) {
            Some(gpcallback) => SamlAuthData::from_gpcallback(gpcallback.as_str()),
            None => Err(err),
        },
    }
}

/// What a response's headers say: no `saml-auth-status` header is no data,
/// a status other than `1` is invalid, and otherwise the user name and
/// cookies decide as `SamlAuthData::new` does.
pub open spec fn header_outcome(
    status: Option<Seq<char>>,
    username: Option<Seq<char>>,
    prelogin_cookie: Option<Seq<char>>,
    portal_userauthcookie: Option<Seq<char>>,
) -> ReadOutcome {
    match status {
        None => ReadOutcome::NotFound,
        Some(s) => if s == "1"@ {
            match crate::auth::saml_auth_data_of(username, prelogin_cookie, portal_userauthcookie) {
                Some(v) => ReadOutcome::Found(v),
                None => ReadOutcome::Invalid,
            }
        } else {
            ReadOutcome::Invalid
        },
    }
}

/// Authentication data from the values of a response's `saml-auth-status`,
/// `saml-username`, `prelogin-cookie` and `portal-userauthcookie` headers.
pub fn auth_data_from_headers(
    status: Option<String>,
    username: Option<String>,
    prelogin_cookie: Option<String>,
    portal_userauthcookie: Option<String>,
) -> (r: Result<SamlAuthData, AuthDataParseError>)
    ensures
        outcome_of(r) == header_outcome(
            opt_view(status),
            opt_view(username),
            opt_view(prelogin_cookie),
            opt_view(portal_userauthcookie),
        ),
{
    match status {
        None => Err(AuthDataParseError::NotFound),
        Some(status) => {
            if !str_eq(status.as_str(), "1") {
                let mut msg = "Invalid SAML auth status: ".to_string();
                msg.append(status.as_str());
                return Err(AuthDataParseError::Invalid(msg));
            }
            match SamlAuthData::new(username, prelogin_cookie, portal_userauthcookie) {
                Ok(d) => Ok(d),
                Err(msg) => Err(AuthDataParseError::Invalid(msg)),
            }
        },
    }
}

/// The event that a loaded page gives the login loop: its data, or why it
/// has none, always located in the body.
pub fn read_from_html(html: &str) -> (r: AuthEvent)
    ensures
        match html_outcome(html@) {
            ReadOutcome::Found(v) => r matches AuthEvent::Data(d, AuthDataLocation::Body) && d@ == v,
            ReadOutcome::NotFound => r matches AuthEvent::Error(
                AuthError::NotFound(AuthDataLocation::Body),
            ),
            ReadOutcome::Invalid => r matches AuthEvent::Error(
                AuthError::Invalid(_, AuthDataLocation::Body),
            ),
        },
{
    match auth_data_from_html(html) {
        Ok(d) => AuthEvent::Data(d, AuthDataLocation::Body),
        Err(AuthDataParseError::Invalid(err)) => AuthEvent::Error(AuthError::invalid_from_body(err)),
        Err(AuthDataParseError::NotFound) => AuthEvent::Error(AuthError::not_found_in_body()),
    }
}

/// The event that a response's headers give the login loop. A missing
/// status reports no data in the headers; an invalid status or invalid
/// values give no event, since the page body may still hold the data.
pub fn read_from_response(
    status: Option<String>,
    username: Option<String>,
    prelogin_cookie: Option<String>,
    portal_userauthcookie: Option<String>,
) -> (r: Option<AuthEvent>)
    ensures
        match header_outcome(
            opt_view(status),
            opt_view(username),
            opt_view(prelogin_cookie),
            opt_view(portal_userauthcookie),
        ) {
            ReadOutcome::Found(v) => r matches Some(AuthEvent::Data(d, AuthDataLocation::Headers))
                && d@ == v,
            ReadOutcome::NotFound => r matches Some(
                AuthEvent::Error(AuthError::NotFound(AuthDataLocation::Headers)),
            ),
            ReadOutcome::Invalid => r is None,
        },
{
    match auth_data_from_headers(status, username, prelogin_cookie, portal_userauthcookie) {
        Ok(d) => Some(AuthEvent::Data(d, AuthDataLocation::Headers)),
        Err(AuthDataParseError::NotFound) => Some(AuthEvent::Error(AuthError::not_found_in_headers())),
        Err(AuthDataParseError::Invalid(_)) => None,
    }
}

// ---------------------------------------------------------------------------
// The login loop
// ---------------------------------------------------------------------------

/// A webview login: the server, the client's parameters, the request to
/// load (else a prelogin is made), the user agent plan, and whether the
/// browsing data is cleared first.
#[derive(Debug)]
pub struct WebviewAuthenticator<'a> {
    pub server: &'a str,
    pub gp_params: &'a GpParams,
    pub auth_request: Option<&'a str>,
    pub webview_user_agent: Option<WebviewUserAgent>,
    pub clean: bool,
}

impl<'a> WebviewAuthenticator<'a> {
    pub fn new(server: &'a str, gp_params: &'a GpParams) -> (r: Self)
        ensures
            r.server == server,
            r.gp_params == gp_params,
            r.auth_request is None,
            r.webview_user_agent is None,
            !r.clean,
    {
        WebviewAuthenticator { server, gp_params, auth_request: None, webview_user_agent: None, clean: false }
    }

    pub fn with_auth_request(self, auth_request: &'a str) -> (r: Self)
        ensures
            r == (WebviewAuthenticator { auth_request: Some(auth_request), ..self }),
    {
        WebviewAuthenticator { auth_request: Some(auth_request), ..self }
    }

    pub fn with_webview_user_agent(self, user_agent: WebviewUserAgent) -> (r: Self)
        ensures
            r == (WebviewAuthenticator { webview_user_agent: Some(user_agent), ..self }),
    {
        WebviewAuthenticator { webview_user_agent: Some(user_agent), ..self }
    }

    /// A clean login starts with the window shown, since the cleared
    /// cookies will ask the user to sign in again.
    pub fn with_clean(self, clean: bool) -> (r: Self)
        ensures
            r == (WebviewAuthenticator { clean, ..self }),
    {
        WebviewAuthenticator { clean, ..self }
    }
}

/// What the login loop does next.
#[derive(Debug)]
pub enum LoginAction {
    /// The user closed the window: the login is cancelled.
    Cancel,
    /// Nothing to do but wait for the next event.
    Wait,
    /// Show the hidden window.
    Raise,
    /// The page failed to load on a TLS error.
    FailTls,
    /// Show the window after this many seconds, unless a page starts
    /// loading first.
    ScheduleRaise(u64),
    /// The data was invalid: make a new prelogin and load it.
    Retry,
    /// Close the window and return the data.
    Finish(SamlAuthData),
}

/// The login loop's answer to an event, given whether its window is shown.
pub fn next_login_action(event: AuthEvent, window_visible: bool) -> (r: LoginAction)
    ensures
        match event {
            AuthEvent::Close => r is Cancel,
            AuthEvent::RaiseWindow => if window_visible {
                r is Wait
            } else {
                r is Raise
            },
            AuthEvent::Error(AuthError::TlsError) => r is FailTls,
            AuthEvent::Error(AuthError::NotFound(_)) => if window_visible {
                r is Wait
            } else {
                r matches LoginAction::ScheduleRaise(d) && d == 2
            },
            AuthEvent::Error(AuthError::Invalid(_, _)) => r is Retry,
            AuthEvent::Data(d, _) => r matches LoginAction::Finish(d2) && d2@ == d@,
        },
{
    match event {
        AuthEvent::Close => LoginAction::Cancel,
        AuthEvent::RaiseWindow => {
            if window_visible {
                LoginAction::Wait
            } else {
                LoginAction::Raise
            }
        },
        AuthEvent::Error(AuthError::TlsError) => LoginAction::FailTls,
        AuthEvent::Error(AuthError::NotFound(_)) => {
            if window_visible {
                LoginAction::Wait
            } else {
                LoginAction::ScheduleRaise(2)
            }
        },
        AuthEvent::Error(AuthError::Invalid(_, _)) => LoginAction::Retry,
        AuthEvent::Data(d, _) => LoginAction::Finish(d),
    }
}

/// How a TLS authentication challenge of the page is answered.
#[derive(Debug, Clone, Copy, PartialEq, Eq, Structural)]
pub enum ChallengeDisposition {
    /// Accept the server's certificate.
    UseCredential,
    /// Let the webview handle the challenge as it would.
    PerformDefaultHandling,
}

/// When TLS errors are ignored, a server-trust challenge is accepted and any
/// other challenge is left to the webview.
pub fn challenge_disposition(is_server_trust: bool) -> (r: ChallengeDisposition)
    ensures
        r == if is_server_trust {
            ChallengeDisposition::UseCredential
        } else {
            ChallengeDisposition::PerformDefaultHandling
        },
{
    if is_server_trust {
        ChallengeDisposition::UseCredential
    } else {
        ChallengeDisposition::PerformDefaultHandling
    }
}

} // verus!
