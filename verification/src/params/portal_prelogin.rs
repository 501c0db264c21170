//! The parameters of a portal prelogin.
use vstd::prelude::*;

use super::{push_param, Pairs, RequestParams};
use crate::os_profile::{
    client_os_name, external_browser_value_of, ClientOs, OsProfile, OsProfileView,
    PreloginBrowserMode, PreloginParamLocation,
};

verus! {

broadcast use vstd::string::group_string_axioms;

/// `{"cas_embedded_browser":"yes"}` in base64.
pub const CAS_EMBEDDED_BROWSER_DATA: &'static str = "eyJjYXNfZW1iZWRkZWRfYnJvd3NlciI6InllcyJ9";

/// The prelogin fields, in order, with the given `default-browser`.
pub open spec fn prelogin_fields(p: OsProfileView, default_browser: Seq<char>) -> Pairs {
    seq![
        ("tmp"@, "tmp"@),
        ("clientVer"@, "4100"@),
        ("clientos"@, client_os_name(p.client_os)),
        ("os-version"@, p.os_version),
        ("host-id"@, p.identity.host_id),
        ("ipv6-support"@, "yes"@),
        ("default-browser"@, default_browser),
        ("cas-support"@, "yes"@),
        ("data"@, CAS_EMBEDDED_BROWSER_DATA@),
    ]
}

/// Where the fields go: the body on Linux and macOS, the query on Windows,
/// with `kerberos-support=yes` in the query on macOS and Windows.
pub open spec fn placed(p: OsProfileView, fields: Pairs) -> (Pairs, Pairs) {
    let kerberos: Pairs = if p.client_os != ClientOs::Linux {
        seq![("kerberos-support"@, "yes"@)]
    } else {
        Seq::empty()
    };
    if p.client_os == ClientOs::Windows {
        (Seq::empty(), fields + kerberos)
    } else {
        (fields, kerberos)
    }
}

pub open spec fn portal_default_browser_of(p: OsProfileView, mode: PreloginBrowserMode) -> Seq<char> {
    match mode {
        PreloginBrowserMode::Embedded => "-10"@,
        PreloginBrowserMode::External => external_browser_value_of(p.client_os),
    }
}

/// The portal prelogin's body and query.
pub open spec fn portal_prelogin_params(p: OsProfileView, mode: PreloginBrowserMode) -> (Pairs, Pairs) {
    placed(p, prelogin_fields(p, portal_default_browser_of(p, mode)))
}

/// The prelogin fields with `default_browser`, placed as the profile says.
pub fn build_fields(profile: &OsProfile, default_browser: &str) -> (r: RequestParams)
    ensures
        (r.body.deep_view(), r.query.deep_view()) == placed(profile@, prelogin_fields(profile@, default_browser@)),
{
    let mut params: Vec<(String, String)> = Vec::new();
    push_param(&mut params, "tmp", "tmp");
    push_param(&mut params, "clientVer", "4100");
    push_param(&mut params, "clientos", profile.client_os().as_str());
    push_param(&mut params, "os-version", profile.os_version());
    push_param(&mut params, "host-id", profile.host_id());
    push_param(&mut params, "ipv6-support", "yes");
    push_param(&mut params, "default-browser", default_browser);
    push_param(&mut params, "cas-support", "yes");
    push_param(&mut params, "data", CAS_EMBEDDED_BROWSER_DATA);
    assert(params.deep_view() =~= prelogin_fields(profile@, default_browser@));
    let mut query: Vec<(String, String)> = Vec::new();
    if profile.kerberos_support_in_query() {
        push_param(&mut query, "kerberos-support", "yes");
    }
    match profile.prelogin_param_location() {
        PreloginParamLocation::Body => RequestParams { body: params, query },
        PreloginParamLocation::Query => {
            let ghost head = params.deep_view();
            let ghost tail = query.deep_view();
            super::extend_params(&mut params, query);
            let body: Vec<(String, String)> = Vec::new();
            assert(body.deep_view() =~= Seq::<(Seq<char>, Seq<char>)>::empty());
            RequestParams { body, query: params }
        },
    }
}

/// The parameters of a portal prelogin: the `default-browser` value
/// follows the browser mode.
pub fn build(profile: &OsProfile, browser_mode: PreloginBrowserMode) -> (r: RequestParams)
    ensures
        (r.body.deep_view(), r.query.deep_view()) == portal_prelogin_params(profile@, browser_mode),
{
    let default_browser = profile.portal_default_browser(browser_mode);
    build_fields(profile, default_browser)
}

} // verus!
