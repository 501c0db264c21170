//! Prelogin: how the portal or gateway wants the user to authenticate.
use vstd::prelude::*;

use crate::auth::{base64_decode, decode_base64, utf8_string};
use crate::os_profile::PreloginBrowserMode;

use crate::text::{opt_view, to_lower, to_upper, unicode_lower, unicode_upper};
use crate::xml::{descendant_text_of, parse_xml_document, xml_document, XmlElement};

verus! {

broadcast use vstd::string::group_string_axioms;

/// A SAML prelogin: the request to send the user to.
#[derive(Debug)]
pub struct SamlPrelogin {
    region: String,
    is_gateway: bool,
    saml_request: String,
    support_default_browser: bool,
}

pub struct SamlPreloginView {
    pub region: Seq<char>,
    pub is_gateway: bool,
    pub saml_request: Seq<char>,
    pub support_default_browser: bool,
}

impl View for SamlPrelogin {
    type V = SamlPreloginView;

    closed spec fn view(&self) -> SamlPreloginView {
        SamlPreloginView {
            region: self.region@,
            is_gateway: self.is_gateway,
            saml_request: self.saml_request@,
            support_default_browser: self.support_default_browser,
        }
    }
}

impl SamlPrelogin {
    pub fn region(&self) -> (r: &str)
        ensures
            r@ == self@.region,
    {
        self.region.as_str()
    }

    pub fn saml_request(&self) -> (r: &str)
        ensures
            r@ == self@.saml_request,
    {
        self.saml_request.as_str()
    }

    pub fn support_default_browser(&self) -> (r: bool)
        ensures
            r == self@.support_default_browser,
    {
        self.support_default_browser
    }
}

/// A username and password prelogin, with the labels to show.
#[derive(Debug)]
pub struct StandardPrelogin {
    region: String,
    is_gateway: bool,
    auth_message: String,
    label_username: String,
    label_password: String,
}

pub struct StandardPreloginView {
    pub region: Seq<char>,
    pub is_gateway: bool,
    pub auth_message: Seq<char>,
    pub label_username: Seq<char>,
    pub label_password: Seq<char>,
}

impl View for StandardPrelogin {
    type V = StandardPreloginView;

    closed spec fn view(&self) -> StandardPreloginView {
        StandardPreloginView {
            region: self.region@,
            is_gateway: self.is_gateway,
            auth_message: self.auth_message@,
            label_username: self.label_username@,
            label_password: self.label_password@,
        }
    }
}

impl StandardPrelogin {
    pub fn region(&self) -> (r: &str)
        ensures
            r@ == self@.region,
    {
        self.region.as_str()
    }

    pub fn auth_message(&self) -> (r: &str)
        ensures
            r@ == self@.auth_message,
    {
        self.auth_message.as_str()
    }

    pub fn label_username(&self) -> (r: &str)
        ensures
            r@ == self@.label_username,
    {
        self.label_username.as_str()
    }

    pub fn label_password(&self) -> (r: &str)
        ensures
            r@ == self@.label_password,
    {
        self.label_password.as_str()
    }
}

/// How the portal or gateway wants the user to authenticate.
#[derive(Debug)]
pub enum Prelogin {
    Saml(SamlPrelogin),
    Standard(StandardPrelogin),
}

impl Prelogin {
    pub fn region(&self) -> (r: &str)
        ensures
            r@ == match self {
                Prelogin::Saml(s) => s@.region,
                Prelogin::Standard(s) => s@.region,
            },
    {
        match self {
            Prelogin::Saml(saml) => saml.region(),
            Prelogin::Standard(standard) => standard.region(),
        }
    }

    pub fn is_gateway(&self) -> (r: bool)
        ensures
            r == match self {
                Prelogin::Saml(s) => s@.is_gateway,
                Prelogin::Standard(s) => s@.is_gateway,
            },
    {
        match self {
            Prelogin::Saml(saml) => saml.is_gateway,
            Prelogin::Standard(standard) => standard.is_gateway,
        }
    }
}

/// What the user asked of the prelogin.
#[derive(Debug, Clone, Copy)]
pub struct PreloginOptions {
    external_browser_requested: bool,
    gateway_external_browser_allowed: bool,
}

impl Default for PreloginOptions {
    fn default() -> (r: Self)
        ensures
            !r.requested(),
            !r.gateway_allowed(),
    {
        PreloginOptions { external_browser_requested: false, gateway_external_browser_allowed: false }
    }
}

/// SAML runs in the external browser when it was asked for, and, for a
/// gateway, allowed there too.
pub open spec fn browser_mode_of(external_requested: bool, gateway_allowed: bool, is_gateway: bool) -> PreloginBrowserMode {
    if external_requested && (!is_gateway || gateway_allowed) {
        PreloginBrowserMode::External
    } else {
        PreloginBrowserMode::Embedded
    }
}

impl PreloginOptions {
    pub closed spec fn requested(self) -> bool {
        self.external_browser_requested
    }

    pub closed spec fn gateway_allowed(self) -> bool {
        self.gateway_external_browser_allowed
    }

    pub fn external_browser_requested(self, external_browser_requested: bool) -> (r: Self)
        ensures
            r.requested() == external_browser_requested,
            r.gateway_allowed() == self.gateway_allowed(),
    {
        PreloginOptions { external_browser_requested, ..self }
    }

    pub fn gateway_external_browser_allowed(self, gateway_external_browser_allowed: bool) -> (r: Self)
        ensures
            r.requested() == self.requested(),
            r.gateway_allowed() == gateway_external_browser_allowed,
    {
        PreloginOptions { gateway_external_browser_allowed, ..self }
    }

    /// Whether SAML runs in an embedded webview or the external browser.
    pub fn browser_mode(self, is_gateway: bool) -> (r: PreloginBrowserMode)
        ensures
            r == browser_mode_of(self.requested(), self.gateway_allowed(), is_gateway),
    {
        if self.external_browser_requested && (!is_gateway || self.gateway_external_browser_allowed) {
            PreloginBrowserMode::External
        } else {
            PreloginBrowserMode::Embedded
        }
    }
}

/// What a prelogin answer says.
pub enum PreloginOutcome {
    Saml(SamlPreloginView),
    Standard(StandardPreloginView),
    /// Refused, with the reason.
    Refused(Seq<char>),
}

pub open spec fn text_or(o: Option<Seq<char>>, d: Seq<char>) -> Seq<char> {
    match o {
        Some(v) => v,
        None => d,
    }
}

/// What a prelogin answer's root element says: refused unless its status
/// reads `SUCCESS` (in any letter case), with the portal's `msg` or
/// `Unknown error`; SAML when it names a SAML method and request; else a
/// standard login with its labels.
pub open spec fn prelogin_of_root(root: XmlElement, is_gateway: bool) -> PreloginOutcome {
    match descendant_text_of(root, "status"@) {
        Some(status) => if unicode_upper(status) != "SUCCESS"@ {
            PreloginOutcome::Refused(text_or(descendant_text_of(root, "msg"@), "Unknown error"@))
        } else {
            let region = text_or(descendant_text_of(root, "region"@), "Unknown"@);
            let method = descendant_text_of(root, "saml-auth-method"@);
            let request = descendant_text_of(root, "saml-request"@);
            let default_browser = descendant_text_of(root, "saml-default-browser"@);
            if method is Some && request is Some {
                match base64_decode(request->Some_0) {
                    Some(bytes) => if vstd::utf8::valid_utf8(bytes) {
                        PreloginOutcome::Saml(
                            SamlPreloginView {
                                region,
                                is_gateway,
                                saml_request: vstd::utf8::decode_utf8(bytes),
                                support_default_browser: match default_browser {
                                    Some(d) => unicode_lower(d) == "yes"@,
                                    None => false,
                                },
                            },
                        )
                    } else {
                        PreloginOutcome::Refused("SAML request is not UTF-8"@)
                    },
                    None => PreloginOutcome::Refused("Malformed SAML request"@),
                }
            } else {
                PreloginOutcome::Standard(
                    StandardPreloginView {
                        region,
                        is_gateway,
                        auth_message: text_or(
                            descendant_text_of(root, "authentication-message"@),
                            "Please enter the login credentials"@,
                        ),
                        label_username: text_or(descendant_text_of(root, "username-label"@), "Username"@),
                        label_password: text_or(descendant_text_of(root, "password-label"@), "Password"@),
                    },
                )
            }
        },
        None => PreloginOutcome::Refused("Prelogin response does not contain status element"@),
    }
}

pub open spec fn prelogin_outcome(r: Result<Prelogin, String>) -> PreloginOutcome {
    match r {
        Ok(Prelogin::Saml(s)) => PreloginOutcome::Saml(s@),
        Ok(Prelogin::Standard(s)) => PreloginOutcome::Standard(s@),
        Err(e) => PreloginOutcome::Refused(e@),
    }
}

fn text_or_default(o: Option<String>, d: &str) -> (r: String)
    ensures
        r@ == text_or(opt_view(o), d@),
{
    match o {
        Some(v) => v,
        None => d.to_string(),
    }
}

/// A SAML prelogin supports the system's default browser exactly when the
/// answer has a `<saml-default-browser>` element whose text reads `yes` (in
/// any letter case); without that element it does not. Its region is the
/// `<region>` text (`Unknown` without one).
pub proof fn lemma_saml_default_browser(root: XmlElement, is_gateway: bool)
    ensures
        prelogin_of_root(root, is_gateway) matches PreloginOutcome::Saml(v) ==> {
            &&& v.support_default_browser == (descendant_text_of(root, "saml-default-browser"@) matches Some(d)
                && unicode_lower(d) == "yes"@)
            &&& descendant_text_of(root, "saml-default-browser"@) is None ==> !v.support_default_browser
            &&& v.region == match descendant_text_of(root, "region"@) {
                Some(r) => r,
                None => "Unknown"@,
            }
            &&& v.is_gateway == is_gateway
        },
{
}

/// What a prelogin answer's root element says; an error says why it was
/// refused.
pub fn parse_prelogin_root(root: &XmlElement, is_gateway: bool) -> (r: Result<Prelogin, String>)
    ensures
        prelogin_outcome(r) == prelogin_of_root(*root, is_gateway),
        r matches Ok(Prelogin::Saml(s)) ==> s@.support_default_browser == (descendant_text_of(
            *root,
            "saml-default-browser"@,
        ) matches Some(d) && unicode_lower(d) == "yes"@),
{
    let status = match root.descendant_text("status") {
        Some(s) => s,
        None => return Err("Prelogin response does not contain status element".to_string()),
    };
    let upper = to_upper(status.as_str());
    if !crate::text::str_eq(upper.as_str(), "SUCCESS") {
        return Err(text_or_default(root.descendant_text("msg"), "Unknown error"));
    }
    let region = text_or_default(root.descendant_text("region"), "Unknown");
    let saml_method = root.descendant_text("saml-auth-method");
    let saml_request = root.descendant_text("saml-request");
    let saml_default_browser = root.descendant_text("saml-default-browser");
    match (saml_method, saml_request) {
        (Some(_), Some(request)) => {
            let saml_request = match decode_base64(request.as_str()) {
                Some(bytes) => match utf8_string(bytes) {
                    Some(s) => s,
                    None => return Err("SAML request is not UTF-8".to_string()),
                },
                None => return Err("Malformed SAML request".to_string()),
            };
            let support_default_browser = match saml_default_browser {
                Some(d) => {
                    let l = to_lower(d.as_str());
                    crate::text::str_eq(l.as_str(), "yes")
                },
                None => false,
            };
            Ok(Prelogin::Saml(SamlPrelogin { region, is_gateway, saml_request, support_default_browser }))
        },
        _ => {
            let label_username = text_or_default(root.descendant_text("username-label"), "Username");
            let label_password = text_or_default(root.descendant_text("password-label"), "Password");
            let auth_message = text_or_default(
                root.descendant_text("authentication-message"),
                "Please enter the login credentials",
            );
            Ok(
                Prelogin::Standard(
                    StandardPrelogin { region, is_gateway, auth_message, label_username, label_password },
                ),
            )
        },
    }
}

/// What a prelogin answer says; an error says why it was refused: the XML
/// parser's error, or what the root element says.
pub fn parse_res_xml(res_xml: &str, is_gateway: bool) -> (r: Result<Prelogin, String>)
    ensures
        prelogin_outcome(r) == match xml_document(res_xml@) {
            Ok(root) => prelogin_of_root(root, is_gateway),
            Err(e) => PreloginOutcome::Refused(e),
        },
{
    match parse_xml_document(res_xml) {
        Ok(root) => parse_prelogin_root(&root, is_gateway),
        Err(e) => Err(e),
    }
}

} // verus!
