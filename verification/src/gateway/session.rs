//! Extending a gateway session: the context it needs, the form it sends,
//! and how the gateway's answer is read.
use vstd::prelude::*;

use super::login::GatewayLogin;
use crate::auth::{decode_form, form_pairs};
use crate::credential::{credential_username, Credential};
use crate::gp_params::{GpParams, GpParamsView};
use crate::params::{ParamMap, Pairs};
use crate::session::{SessionRequestArgs, SessionRequestArgsView};
use crate::text::decimal;
use crate::xml::{attr_of, XmlElement};

verus! {

broadcast use vstd::string::group_string_axioms;

pub const EXTEND_SESSION_MESSAGE: &'static str = "User Session Extension";

pub const EXTEND_SESSION_COMMENT: &'static str = "User extends the login lifetime";

/// What is kept to log in again when the session is extended.
#[derive(Debug)]
pub struct SessionExtensionAuth {
    credential: Credential,
    gp_params: GpParams,
}

impl SessionExtensionAuth {
    pub fn new(credential: Credential, gp_params: GpParams) -> (r: Self)
        ensures
            r.credential() == credential,
            r.params() == gp_params@,
    {
        SessionExtensionAuth { credential, gp_params }
    }

    pub closed spec fn credential(self) -> Credential {
        self.credential
    }

    pub closed spec fn params(self) -> GpParamsView {
        self.gp_params@
    }

    pub fn credential_ref(&self) -> (r: &Credential)
        ensures
            *r == self.credential(),
    {
        &self.credential
    }

    pub fn gp_params(&self) -> (r: &GpParams)
        ensures
            r@ == self.params(),
    {
        &self.gp_params
    }

    /// How the value is shown: the username, and the parameters redacted.
    pub fn describe(&self) -> (r: String)
        ensures
            r@ == "SessionExtensionAuth { username: "@ + credential_username(self.credential())
                + ", gp_params: <redacted> }"@,
    {
        let mut r = "SessionExtensionAuth { username: ".to_string();
        r.append(self.credential.username());
        r.append(", gp_params: <redacted> }");
        r
    }
}

/// A running session: the gateway, the portal, and the arguments it was
/// connected with.
#[derive(Debug)]
pub struct SessionContext {
    server: String,
    portal: String,
    session_args: SessionRequestArgs,
    extension_auth: Option<SessionExtensionAuth>,
}

impl SessionContext {
    pub fn new(server: String, portal: String, session_args: SessionRequestArgs) -> (r: Self)
        ensures
            r.server_spec() == server@,
            r.portal_spec() == portal@,
            r.args_spec() == session_args@,
            !r.has_extension_auth(),
    {
        SessionContext { server, portal, session_args, extension_auth: None }
    }

    pub closed spec fn server_spec(self) -> Seq<char> {
        self.server@
    }

    pub closed spec fn portal_spec(self) -> Seq<char> {
        self.portal@
    }

    pub closed spec fn args_spec(self) -> SessionRequestArgsView {
        self.session_args@
    }

    pub closed spec fn has_extension_auth(self) -> bool {
        self.extension_auth is Some
    }

    pub fn with_extension_auth(self, extension_auth: SessionExtensionAuth) -> (r: Self)
        ensures
            r.server_spec() == self.server_spec(),
            r.portal_spec() == self.portal_spec(),
            r.args_spec() == self.args_spec(),
            r.has_extension_auth(),
    {
        SessionContext { extension_auth: Some(extension_auth), ..self }
    }

    pub fn server(&self) -> (r: &str)
        ensures
            r@ == self.server_spec(),
    {
        self.server.as_str()
    }

    pub fn portal(&self) -> (r: &str)
        ensures
            r@ == self.portal_spec(),
    {
        self.portal.as_str()
    }

    pub fn session_args(&self) -> (r: &SessionRequestArgs)
        ensures
            r@ == self.args_spec(),
    {
        &self.session_args
    }

    pub fn extension_auth(&self) -> (r: Option<&SessionExtensionAuth>)
        ensures
            r is Some == self.has_extension_auth(),
    {
        match &self.extension_auth {
            Some(a) => Some(a),
            None => None,
        }
    }
}

/// An extension needs a login that gives a cookie: a challenge cannot be
/// answered without the user.
pub fn validate_extension_login(login: GatewayLogin) -> (r: Result<(), String>)
    ensures
        r is Ok <==> login is Cookie,
        login is Mfa ==> (r matches Err(e) && e@ == "Session extension requires an interactive gateway challenge"@),
{
    match login {
        GatewayLogin::Cookie(_) => Ok(()),
        GatewayLogin::Mfa(_, _) => Err("Session extension requires an interactive gateway challenge".to_string()),
    }
}

/// The map of key/value pairs where a later key wins.
pub open spec fn last_wins(pairs: Pairs) -> Map<Seq<char>, Seq<char>>
    decreases pairs.len(),
{
    if pairs.len() == 0 {
        Map::empty()
    } else {
        last_wins(pairs.drop_last()).insert(pairs.last().0, pairs.last().1)
    }
}

/// The session cookie's fields, a later key winning.
pub fn parse_cookie_form(args: &SessionRequestArgs) -> (r: Result<ParamMap, String>)
    ensures
        match r {
            Ok(m) => form_pairs(args@.cookie) matches Some(p) && m@ == last_wins(p),
            Err(_) => form_pairs(args@.cookie) is None,
        },
{
    match decode_form(args.cookie()) {
        Some(pairs) => {
            let mut m = ParamMap::new();
            let mut i: usize = 0;
            while i < pairs.len()
                invariant
                    i <= pairs.len(),
                    m@ == last_wins(pairs.deep_view().take(i as int)),
                decreases pairs.len() - i,
            {
                m.insert(pairs[i].0.as_str(), pairs[i].1.as_str());
                assert(pairs.deep_view().take(i + 1).drop_last() =~= pairs.deep_view().take(i as int));
                i += 1;
            }
            assert(pairs.deep_view().take(pairs.len() as int) =~= pairs.deep_view());
            Ok(m)
        },
        None => Err("Malformed session cookie".to_string()),
    }
}

/// The extend-session form: the cookie's fields, then the portal, the time
/// and the fixed message and comment.
pub open spec fn extend_session_form(cookie_fields: Map<Seq<char>, Seq<char>>, portal: Seq<char>, timestamp: u64) -> Map<
    Seq<char>,
    Seq<char>,
> {
    cookie_fields.insert("portal"@, portal).insert("timestamp"@, decimal(timestamp as nat)).insert(
        "message"@,
        EXTEND_SESSION_MESSAGE@,
    ).insert("comment"@, EXTEND_SESSION_COMMENT@)
}

/// The extend-session form at the given time (seconds since the epoch).
pub fn build_extend_session_form_at(ctx: &SessionContext, timestamp: u64) -> (r: Result<ParamMap, String>)
    ensures
        match r {
            Ok(m) => form_pairs(ctx.args_spec().cookie) matches Some(p) && m@ == extend_session_form(
                last_wins(p),
                ctx.portal_spec(),
                timestamp,
            ),
            Err(_) => form_pairs(ctx.args_spec().cookie) is None,
        },
{
    let mut form = match parse_cookie_form(ctx.session_args()) {
        Ok(m) => m,
        Err(e) => return Err(e),
    };
    form.insert("portal", ctx.portal());
    let ts = crate::text::decimal_text(timestamp);
    form.insert("timestamp", ts.as_str());
    form.insert("message", EXTEND_SESSION_MESSAGE);
    form.insert("comment", EXTEND_SESSION_COMMENT);
    Ok(form)
}

/// The seconds since the Unix epoch, `0` before it. Nothing is stated of
/// the result: it is the clock's.
#[verifier::external_body]
pub(crate) fn unix_timestamp() -> (r: u64) {
    std::time::SystemTime::now().duration_since(std::time::UNIX_EPOCH).unwrap_or_default().as_secs()
}

/// The extend-session form at the current time.
pub fn build_extend_session_form(ctx: &SessionContext) -> (r: Result<ParamMap, String>)
    ensures
        match r {
            Ok(m) => form_pairs(ctx.args_spec().cookie) matches Some(p) && exists|t: u64| m@ == #[trigger] extend_session_form(
                last_wins(p),
                ctx.portal_spec(),
                t,
            ),
            Err(_) => form_pairs(ctx.args_spec().cookie) is None,
        },
{
    let t = unix_timestamp();
    let r = build_extend_session_form_at(ctx, t);
    match &r {
        Ok(m) => {
            assert(m@ == extend_session_form(last_wins(form_pairs(ctx.args_spec().cookie)->Some_0), ctx.portal_spec(), t));
        },
        Err(_) => {},
    }
    r
}

/// The status of the gateway's answer to an extension.
pub fn parse_extend_session_status(root: &XmlElement) -> (r: Result<String, String>)
    ensures
        match r {
            Ok(s) => attr_of(*root, "status"@) == Some(s@),
            Err(_) => attr_of(*root, "status"@) is None,
        },
{
    match root.attr("status") {
        Some(status) => Ok(status.to_string()),
        None => Err("Malformed extend session response".to_string()),
    }
}

/// The extension was accepted: the status is `success`.
pub fn check_extend_session_status(status: &str) -> (r: Result<(), String>)
    ensures
        r is Ok <==> status@ == "success"@,
{
    if crate::text::str_eq(status, "success") {
        Ok(())
    } else {
        let mut msg = "Extend session rejected: ".to_string();
        msg.append(status);
        Err(msg)
    }
}

} // verus!
