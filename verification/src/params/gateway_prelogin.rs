//! The parameters of a gateway prelogin.
use vstd::prelude::*;

use super::portal_prelogin::{build_fields, placed, prelogin_fields};
use super::{Pairs, RequestParams};
use crate::os_profile::{external_browser_value_of, OsProfile, OsProfileView, PreloginBrowserMode};

verus! {

pub open spec fn gateway_default_browser_of(p: OsProfileView, mode: PreloginBrowserMode) -> Seq<char> {
    match mode {
        PreloginBrowserMode::Embedded => "0"@,
        PreloginBrowserMode::External => external_browser_value_of(p.client_os),
    }
}

/// The gateway prelogin's body and query: the prelogin fields with the
/// gateway's `default-browser` value.
pub open spec fn gateway_prelogin_params(p: OsProfileView, mode: PreloginBrowserMode) -> (Pairs, Pairs) {
    placed(p, prelogin_fields(p, gateway_default_browser_of(p, mode)))
}

pub fn build(profile: &OsProfile, browser_mode: PreloginBrowserMode) -> (r: RequestParams)
    ensures
        (r.body.deep_view(), r.query.deep_view()) == gateway_prelogin_params(profile@, browser_mode),
{
    let default_browser = profile.gateway_default_browser(browser_mode);
    build_fields(profile, default_browser)
}

} // verus!
