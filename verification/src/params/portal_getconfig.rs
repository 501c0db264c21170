//! The parameters of a portal configuration request (`getconfig.esp`).
use vstd::prelude::*;

use super::credential::{credential_params, or_empty};
use super::{extend_params, push_param, Pairs, RequestParams};
use crate::credential::Credential;
use crate::gp_params::{CscMode, GpParams, GpParamsView};
use crate::os_profile::{client_os_name, ClientOs};
use crate::portal::csc::swg_nonce;


verus! {

broadcast use vstd::string::group_string_axioms;

/// Client-side checks are on for these parameters.
pub open spec fn csc_support_of(gp: GpParamsView) -> bool {
    match gp.csc_mode {
        CscMode::Auto => gp.os_profile.client_os != ClientOs::Linux,
        CscMode::Yes => true,
        CscMode::No => false,
    }
}

/// The form body of a portal configuration request: the credential's
/// fields, then the client's, with `nonce` as the SWG nonce. `server`,
/// `prot`, `direct` and `jnlpReady` are not sent.
pub open spec fn getconfig_body(c: Credential, gp: GpParamsView, server: Seq<char>, nonce: Seq<char>) -> Pairs {
    let p = gp.os_profile;
    credential_params(c, p.client_os) + seq![
        ("inputStr"@, or_empty(gp.input_str)),
        ("ok"@, "Login"@),
        ("clientVer"@, "4100"@),
        ("clientos"@, client_os_name(p.client_os)),
        ("clientgpversion"@, p.client_version),
        ("computer"@, p.identity.computer),
        ("os-version"@, p.os_version),
        ("host-id"@, p.identity.host_id),
        ("ipv6-support"@, "yes"@),
        ("serialno"@, p.identity.serial_number),
        ("csc-digest"@, Seq::empty()),
        ("config-digest"@, Seq::empty()),
        ("csc-support"@, if csc_support_of(gp) { "yes"@ } else { "no"@ }),
        ("host"@, server),
        ("swg-auth-token"@, "0"@),
        ("swg-nonce"@, nonce),
    ]
}

/// The request with `nonce` as the SWG nonce; everything goes in the body.
pub fn build_with_nonce(cred: &Credential, gp_params: &GpParams, server: &str, nonce: &str) -> (r: RequestParams)
    ensures
        r.body.deep_view() == getconfig_body(*cred, gp_params@, server@, nonce@),
        r.query.deep_view().len() == 0,
{
    let profile = gp_params.os_profile();
    let mut body = super::credential::build(cred, gp_params);
    let ghost head = body.deep_view();
    let input_str = match gp_params.input_str() {
        Some(s) => s,
        None => {
            proof {
                reveal_strlit("");
            }
            ""
        },
    };
    let mut rest: Vec<(String, String)> = Vec::new();
    push_param(&mut rest, "inputStr", input_str);
    push_param(&mut rest, "ok", "Login");
    push_param(&mut rest, "clientVer", "4100");
    push_param(&mut rest, "clientos", profile.client_os().as_str());
    push_param(&mut rest, "clientgpversion", profile.client_version());
    push_param(&mut rest, "computer", profile.computer());
    push_param(&mut rest, "os-version", profile.os_version());
    push_param(&mut rest, "host-id", profile.host_id());
    push_param(&mut rest, "ipv6-support", "yes");
    push_param(&mut rest, "serialno", profile.serialno());
    proof {
        reveal_strlit("");
    }
    push_param(&mut rest, "csc-digest", "");
    push_param(&mut rest, "config-digest", "");
    push_param(&mut rest, "csc-support", if gp_params.effective_csc_support() { "yes" } else { "no" });
    push_param(&mut rest, "host", server);
    push_param(&mut rest, "swg-auth-token", "0");
    push_param(&mut rest, "swg-nonce", nonce);
    assert(""@ =~= Seq::<char>::empty());
    let ghost tail = rest.deep_view();
    extend_params(&mut body, rest);
    assert(body.deep_view() =~= getconfig_body(*cred, gp_params@, server@, nonce@));
    let query: Vec<(String, String)> = Vec::new();
    RequestParams { body, query }
}

/// The request of a portal configuration: on Linux the SWG nonce is `0`,
/// elsewhere it comes from the clock.
pub fn build(cred: &Credential, gp_params: &GpParams, server: &str) -> (r: RequestParams)
    ensures
        exists|nonce: Seq<char>|
            {
                &&& r.body.deep_view() == getconfig_body(*cred, gp_params@, server@, nonce)
                &&& gp_params@.os_profile.client_os == ClientOs::Linux ==> nonce == "0"@
            },
        r.query.deep_view().len() == 0,
{
    let nonce = if gp_params.os_profile().client_os() == ClientOs::Linux {
        "0".to_string()
    } else {
        swg_nonce()
    };
    let r = build_with_nonce(cred, gp_params, server, nonce.as_str());
    assert(r.body.deep_view() == getconfig_body(*cred, gp_params@, server@, nonce@));
    r
}

} // verus!
