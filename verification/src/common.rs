//! Where the client's programs and the scripts it hands to OpenConnect are
//! found.
use vstd::prelude::*;

verus! {

broadcast use vstd::string::group_string_axioms;

pub const GP_CLIENT_BINARY: &'static str = "/usr/bin/gpclient";

pub const GP_SERVICE_BINARY: &'static str = "/usr/bin/gpservice";

pub const GP_GUI_BINARY: &'static str = "/usr/bin/gpgui";

pub const GP_GUI_HELPER_BINARY: &'static str = "/usr/bin/gpgui-helper";

pub const GP_AUTH_BINARY: &'static str = "/usr/bin/gpauth";

/// Where a program is looked for: the environment variable that overrides
/// it, its file name beside the running program, and its installed path.
#[derive(Debug)]
pub struct BinaryLookup {
    pub env_key: &'static str,
    pub binary_name: &'static str,
    pub default_path: &'static str,
}

/// A non-empty override wins, then a program beside the running one, then
/// the installed path.
pub open spec fn resolved_path(
    env_value: Option<Seq<char>>,
    sibling: Option<Seq<char>>,
    default_path: Seq<char>,
) -> Seq<char> {
    match env_value {
        Some(v) if v.len() > 0 => v,
        _ => match sibling {
            Some(s) => s,
            None => default_path,
        },
    }
}

/// The path of a program from what was found for it.
pub fn resolve(env_value: Option<String>, sibling: Option<String>, default_path: &str) -> (r: String)
    ensures
        r@ == resolved_path(
            match env_value {
                Some(v) => Some(v@),
                None => None,
            },
            match sibling {
                Some(s) => Some(s@),
                None => None,
            },
            default_path@,
        ),
{
    if let Some(v) = env_value {
        if !v.as_str().is_empty() {
            return v;
        }
    }
    match sibling {
        Some(s) => s,
        None => default_path.to_string(),
    }
}

impl BinaryLookup {
    /// The path of this program from the override and the sibling found.
    pub fn resolve(&self, env_value: Option<String>, sibling: Option<String>) -> (r: String)
        ensures
            r@ == resolved_path(
                match env_value {
                    Some(v) => Some(v@),
                    None => None,
                },
                match sibling {
                    Some(s) => Some(s@),
                    None => None,
                },
                self.default_path@,
            ),
    {
        resolve(env_value, sibling, self.default_path)
    }
}

pub fn gpclient() -> (r: BinaryLookup)
    ensures
        r.env_key@ == "GP_CLIENT_BINARY"@,
        r.binary_name@ == "gpclient"@,
        r.default_path@ == GP_CLIENT_BINARY@,
{
    BinaryLookup { env_key: "GP_CLIENT_BINARY", binary_name: "gpclient", default_path: GP_CLIENT_BINARY }
}

pub fn gpservice() -> (r: BinaryLookup)
    ensures
        r.env_key@ == "GP_SERVICE_BINARY"@,
        r.binary_name@ == "gpservice"@,
        r.default_path@ == GP_SERVICE_BINARY@,
{
    BinaryLookup {
        env_key: "GP_SERVICE_BINARY",
        binary_name: "gpservice",
        default_path: GP_SERVICE_BINARY,
    }
}

pub fn gpauth() -> (r: BinaryLookup)
    ensures
        r.env_key@ == "GP_AUTH_BINARY"@,
        r.binary_name@ == "gpauth"@,
        r.default_path@ == GP_AUTH_BINARY@,
{
    BinaryLookup { env_key: "GP_AUTH_BINARY", binary_name: "gpauth", default_path: GP_AUTH_BINARY }
}

pub fn gpgui() -> (r: BinaryLookup)
    ensures
        r.env_key@ == "GP_GUI_BINARY"@,
        r.binary_name@ == "gpgui"@,
        r.default_path@ == GP_GUI_BINARY@,
{
    BinaryLookup { env_key: "GP_GUI_BINARY", binary_name: "gpgui", default_path: GP_GUI_BINARY }
}

pub fn gpgui_helper() -> (r: BinaryLookup)
    ensures
        r.env_key@ == "GP_GUI_HELPER_BINARY"@,
        r.binary_name@ == "gpgui-helper"@,
        r.default_path@ == GP_GUI_HELPER_BINARY@,
{
    BinaryLookup {
        env_key: "GP_GUI_HELPER_BINARY",
        binary_name: "gpgui-helper",
        default_path: GP_GUI_HELPER_BINARY,
    }
}

/// OpenConnect's `vpnc-script` locations, in the order they are tried.
pub open spec fn is_vpnc_script_list(l: Seq<&str>) -> bool {
    &&& l.len() == 6
    &&& l[0]@ == "/usr/local/share/vpnc-scripts/vpnc-script"@
    &&& l[1]@ == "/usr/local/sbin/vpnc-script"@
    &&& l[2]@ == "/usr/share/vpnc-scripts/vpnc-script"@
    &&& l[3]@ == "/usr/sbin/vpnc-script"@
    &&& l[4]@ == "/etc/vpnc/vpnc-script"@
    &&& l[5]@ == "/etc/openconnect/vpnc-script"@
}

/// OpenConnect's HIP report wrapper locations, in the order they are tried;
/// the first depends on the processor architecture.
pub open spec fn is_csd_wrapper_list(l: Seq<&str>, aarch64: bool) -> bool {
    &&& l.len() == 3
    &&& l[0]@ == if aarch64 {
        "/usr/lib/aarch64-linux-gnu/openconnect/hipreport.sh"@
    } else {
        "/usr/lib/x86_64-linux-gnu/openconnect/hipreport.sh"@
    }
    &&& l[1]@ == "/usr/lib/openconnect/hipreport.sh"@
    &&& l[2]@ == "/usr/libexec/openconnect/hipreport.sh"@
}

/// Where OpenConnect's `vpnc-script` is looked for, in order.
pub fn vpnc_script_locations() -> (r: Vec<&'static str>)
    ensures
        is_vpnc_script_list(r@),
{
    vec![
        "/usr/local/share/vpnc-scripts/vpnc-script",
        "/usr/local/sbin/vpnc-script",
        "/usr/share/vpnc-scripts/vpnc-script",
        "/usr/sbin/vpnc-script",
        "/etc/vpnc/vpnc-script",
        "/etc/openconnect/vpnc-script",
    ]
}

/// Where OpenConnect's HIP report wrapper is looked for, in order.
pub fn csd_wrapper_locations(aarch64: bool) -> (r: Vec<&'static str>)
    ensures
        is_csd_wrapper_list(r@, aarch64),
{
    let first = if aarch64 {
        "/usr/lib/aarch64-linux-gnu/openconnect/hipreport.sh"
    } else {
        "/usr/lib/x86_64-linux-gnu/openconnect/hipreport.sh"
    };
    vec![first, "/usr/lib/openconnect/hipreport.sh", "/usr/libexec/openconnect/hipreport.sh"]
}

/// The first location that `is_executable` accepted; every location before
/// it was refused. `None` when every location was refused.
pub open spec fn first_accepted<F: Fn(&str) -> bool>(
    locations: Seq<&str>,
    is_executable: F,
    r: Option<String>,
) -> bool {
    match r {
        Some(s) => exists|i: int|
            0 <= i < locations.len() && s@ == locations[i]@ && #[trigger] is_executable.ensures(
                (locations[i],),
                true,
            ) && forall|j: int|
                0 <= j < i ==> #[trigger] is_executable.ensures((locations[j],), false),
        None => forall|j: int|
            0 <= j < locations.len() ==> #[trigger] is_executable.ensures((locations[j],), false),
    }
}

/// The first of `locations` that `is_executable` accepts, asked in order.
pub fn find_executable<F: Fn(&str) -> bool>(locations: &Vec<&str>, is_executable: F) -> (r: Option<
    String,
>)
    requires
        forall|s: &str| is_executable.requires((s,)),
    ensures
        first_accepted(locations@, is_executable, r),
{
    let mut i: usize = 0;
    while i < locations.len()
        invariant
            i <= locations.len(),
            forall|s: &str| is_executable.requires((s,)),
            forall|j: int| 0 <= j < i ==> #[trigger] is_executable.ensures((locations@[j],), false),
        decreases locations.len() - i,
    {
        let location = locations[i];
        if is_executable(location) {
            return Some(location.to_string());
        }
        i += 1;
    }
    None
}

/// The first executable `vpnc-script`, asked of `is_executable` in order.
pub fn find_vpnc_script<F: Fn(&str) -> bool>(is_executable: F) -> (r: Option<String>)
    requires
        forall|s: &str| is_executable.requires((s,)),
    ensures
        exists|l: Seq<&str>|
            #![trigger first_accepted(l, is_executable, r)]
            is_vpnc_script_list(l) && first_accepted(l, is_executable, r),
{
    let locations = vpnc_script_locations();
    let r = find_executable(&locations, is_executable);
    assert(first_accepted(locations@, is_executable, r));
    r
}

/// The first executable HIP report wrapper, asked of `is_executable` in
/// order.
pub fn find_csd_wrapper<F: Fn(&str) -> bool>(aarch64: bool, is_executable: F) -> (r: Option<String>)
    requires
        forall|s: &str| is_executable.requires((s,)),
    ensures
        exists|l: Seq<&str>|
            #![trigger first_accepted(l, is_executable, r)]
            is_csd_wrapper_list(l, aarch64) && first_accepted(l, is_executable, r),
{
    let locations = csd_wrapper_locations(aarch64);
    let r = find_executable(&locations, is_executable);
    assert(first_accepted(locations@, is_executable, r));
    r
}

} // verus!
