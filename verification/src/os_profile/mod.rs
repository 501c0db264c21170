//! Operating-system profiles: how the client presents itself to a portal or
//! a gateway, as the official client of each operating system does.
pub mod host_identity;
pub mod serial_number;

use vstd::prelude::*;

pub use host_identity::HostIdentity;

use host_identity::{collected_identity, derive_uuid_from_seed, derived_uuid, mac_from_uuid, mac_from_uuid_text, HostIdentityView};
use serial_number::{lemma_trim_of_hex, vmware_from_compact_hex, vmware_from_compact_hex_spec, vmware_from_uuid, vmware_from_uuid_spec, lemma_uuid_has_vmware_serial, is_uuid_form};
use crate::text::{all_hex, ascii_upper, is_blank, is_blank_str, opt_view, replace_char, replace_char_str, str_eq, to_chars, string_of};

verus! {

broadcast use vstd::string::group_string_axioms;

/// The product name in the client's user agent.
pub const GP_USER_AGENT: &'static str = "PAN GlobalProtect";

/// The version of the official Linux client.
pub const GP_CLIENT_VERSION_LINUX: &'static str = "6.3.3-619";

/// The version of the official Windows client.
pub const GP_CLIENT_VERSION_WINDOWS: &'static str = "6.3.3-650";

/// The version of the official macOS client.
pub const GP_CLIENT_VERSION_MACOS: &'static str = "6.3.3-915";

pub const DEFAULT_MACOS_VERSION: &'static str = "13.4.0";

pub const DEFAULT_LINUX_DISTRO: &'static str = "Ubuntu 24.04.3 LTS";

pub const DEFAULT_WINDOWS_DISTRO: &'static str = "Windows 11 Pro";

pub const DEFAULT_WINDOWS_VERSION: &'static str = "10.0.22631.0";

pub const DEFAULT_LINUX_WEBVIEW_USER_AGENT: &'static str = "Mozilla/5.0 (X11; Linux x86_64) AppleWebKit/602.1 (KHTML, like Gecko) PanGPUI Version/10.0 Safari/602.1";

pub const DEFAULT_MACOS_WEBVIEW_USER_AGENT: &'static str = "Mozilla/5.0 (Macintosh; Intel Mac OS X 10_15_7) AppleWebKit/605.1.15 (KHTML, like Gecko)";

pub const DEFAULT_WINDOWS_WEBVIEW_USER_AGENT: &'static str = "Mozilla/5.0 (Windows NT 10.0; Win64; x64) AppleWebKit/537.36 (KHTML, like Gecko) Chrome/144.0.0.0 Safari/537.36 Edg/144.0.0.0";

/// The operating system the client presents itself as.
#[derive(Debug, Clone, Copy, PartialEq, Eq, Structural)]
pub enum ClientOs {
    Linux,
    Windows,
    Mac,
}

pub open spec fn client_os_name(os: ClientOs) -> Seq<char> {
    match os {
        ClientOs::Linux => "Linux"@,
        ClientOs::Windows => "Windows"@,
        ClientOs::Mac => "Mac"@,
    }
}

/// The operating system that a name stands for; an unknown name is Linux.
pub open spec fn client_os_of_name(name: Seq<char>) -> ClientOs {
    if name == "Windows"@ {
        ClientOs::Windows
    } else if name == "Mac"@ {
        ClientOs::Mac
    } else {
        ClientOs::Linux
    }
}

impl From<&str> for ClientOs {
    fn from(os: &str) -> (r: Self) {
        proof {
            reveal_strlit("Linux");
            reveal_strlit("Windows");
            reveal_strlit("Mac");
        }
        if str_eq(os, "Windows") {
            ClientOs::Windows
        } else if str_eq(os, "Mac") {
            ClientOs::Mac
        } else {
            ClientOs::Linux
        }
    }
}

impl vstd::std_specs::convert::FromSpecImpl<&str> for ClientOs {
    open spec fn obeys_from_spec() -> bool {
        true
    }

    open spec fn from_spec(v: &str) -> Self {
        client_os_of_name(v@)
    }
}

pub open spec fn default_client_version_of(os: ClientOs) -> Seq<char> {
    match os {
        ClientOs::Linux => "6.3.3-619"@,
        ClientOs::Windows => "6.3.3-650"@,
        ClientOs::Mac => "6.3.3-915"@,
    }
}

impl ClientOs {
    pub fn as_str(&self) -> (r: &'static str)
        ensures
            r@ == client_os_name(*self),
    {
        match self {
            ClientOs::Linux => "Linux",
            ClientOs::Windows => "Windows",
            ClientOs::Mac => "Mac",
        }
    }

    /// The name OpenConnect uses for the operating system.
    pub fn to_openconnect_os(&self) -> (r: &'static str)
        ensures
            r@ == match *self {
                ClientOs::Linux => "linux"@,
                ClientOs::Windows => "win"@,
                ClientOs::Mac => "mac-intel"@,
            },
    {
        match self {
            ClientOs::Linux => "linux",
            ClientOs::Windows => "win",
            ClientOs::Mac => "mac-intel",
        }
    }

    /// The version of the official client for the operating system.
    pub fn default_client_version(&self) -> (r: &'static str)
        ensures
            r@ == default_client_version_of(*self),
    {
        match self {
            ClientOs::Linux => GP_CLIENT_VERSION_LINUX,
            ClientOs::Windows => GP_CLIENT_VERSION_WINDOWS,
            ClientOs::Mac => GP_CLIENT_VERSION_MACOS,
        }
    }

    /// The operating-system version text that the client reports, read from
    /// this machine where it runs the same system.
    pub fn default_os_version(&self) -> (r: String)
        ensures
            exists|facts: RuntimeFactsView| r@ == os_version_of(*self, facts),
    {
        default_os_version(self)
    }

    /// Whether the official client supports client-side checks by default.
    pub fn default_csc_support(&self) -> (r: bool)
        ensures
            r == !(*self is Linux),
    {
        match self {
            ClientOs::Linux => false,
            ClientOs::Mac | ClientOs::Windows => true,
        }
    }
}

/// Where the prelogin request carries its parameters.
#[derive(Debug, Clone, Copy, PartialEq, Eq, Structural)]
pub enum PreloginParamLocation {
    Body,
    Query,
}

/// Whether SAML runs in an embedded webview or an external browser.
#[derive(Debug, Clone, Copy, PartialEq, Eq, Structural)]
pub enum PreloginBrowserMode {
    Embedded,
    External,
}

/// The user agent of the authentication webview.
#[derive(Debug, PartialEq, Eq)]
pub enum WebviewUserAgent {
    /// The webview's own user agent, transformed, after the prefix.
    Native { prefix: String, transform: WebviewUserAgentTransform },
    /// A given user agent after the prefix, as the emulated system's webview
    /// would send it.
    Projected { prefix: String, default_user_agent: String },
}

/// How the webview's own user agent is rewritten.
#[derive(Debug, Clone, Copy, PartialEq, Eq, Structural)]
pub enum WebviewUserAgentTransform {
    Unchanged,
    LinuxPanGpuiVersion,
}

/// What the running machine says of itself.
#[derive(Debug)]
pub struct RuntimeFacts {
    /// The operating system this process runs on.
    pub runtime_os: ClientOs,
    /// The distribution's name and version, as `whoami::distro` reports it.
    pub distro: Option<String>,
    /// The system's version, as `os_info` reports it.
    pub os_version: Option<String>,
    /// The system's edition, as `os_info` reports it.
    pub os_edition: Option<String>,
}

pub struct RuntimeFactsView {
    pub runtime_os: ClientOs,
    pub distro: Option<Seq<char>>,
    pub os_version: Option<Seq<char>>,
    pub os_edition: Option<Seq<char>>,
}

impl View for RuntimeFacts {
    type V = RuntimeFactsView;

    open spec fn view(&self) -> RuntimeFactsView {
        RuntimeFactsView {
            runtime_os: self.runtime_os,
            distro: opt_view(self.distro),
            os_version: opt_view(self.os_version),
            os_edition: opt_view(self.os_edition),
        }
    }
}

/// The platform a process runs on, as `whoami::Platform` names it.
#[derive(Debug)]
pub enum RuntimePlatform {
    Unknown(String),
    Linux,
    Bsd,
    Windows,
    Mac,
    Illumos,
    Ios,
    Android,
    Nintendo3ds,
    PlayStation,
    Fuchsia,
    Redox,
    Hurd,
}

/// `whoami::platform`, variant for variant; a platform that a later
/// `whoami` adds reads as `Unknown`. Nothing is stated of the result: it is
/// the machine's.
#[verifier::external_body]
fn system_platform() -> (r: RuntimePlatform) {
    match whoami::platform() {
        whoami::Platform::Unknown(name) => RuntimePlatform::Unknown(name),
        whoami::Platform::Linux => RuntimePlatform::Linux, whoami::Platform::Bsd => RuntimePlatform::Bsd,
        whoami::Platform::Windows => RuntimePlatform::Windows,
        whoami::Platform::Mac => RuntimePlatform::Mac,
        whoami::Platform::Illumos => RuntimePlatform::Illumos,
        whoami::Platform::Ios => RuntimePlatform::Ios,
        whoami::Platform::Android => RuntimePlatform::Android,
        whoami::Platform::Nintendo3ds => RuntimePlatform::Nintendo3ds,
        whoami::Platform::PlayStation => RuntimePlatform::PlayStation,
        whoami::Platform::Fuchsia => RuntimePlatform::Fuchsia, whoami::Platform::Redox => RuntimePlatform::Redox,
        whoami::Platform::Hurd => RuntimePlatform::Hurd,
        _ => RuntimePlatform::Unknown(String::new()),
    }
}

/// The client operating system a platform runs as: macOS and Windows as
/// themselves, every other system as Linux.
pub open spec fn client_os_of_platform(p: RuntimePlatform) -> ClientOs {
    match p {
        RuntimePlatform::Mac => ClientOs::Mac,
        RuntimePlatform::Windows => ClientOs::Windows,
        _ => ClientOs::Linux,
    }
}

pub fn client_os_for_platform(p: &RuntimePlatform) -> (r: ClientOs)
    ensures
        r == client_os_of_platform(*p),
{
    match p {
        RuntimePlatform::Mac => ClientOs::Mac,
        RuntimePlatform::Windows => ClientOs::Windows,
        _ => ClientOs::Linux,
    }
}

/// The client operating system this process runs as: what its platform
/// runs as.
fn platform_client_os() -> (r: ClientOs) {
    let p = system_platform();
    client_os_for_platform(&p)
}

/// `whoami::distro`, `None` when the system does not report it. Nothing is
/// stated of the result: it is the machine's.
#[verifier::external_body]
fn system_distro() -> (r: Option<String>) {
    whoami::distro().ok()
}

/// `os_info::get().version()` as text, `None` when it is unknown. Nothing is
/// stated of the result: it is the machine's.
#[verifier::external_body]
fn system_os_version() -> (r: Option<String>) {
    match os_info::get().version() {
        os_info::Version::Unknown => None,
        v => Some(v.to_string()),
    }
}

/// `os_info::get().edition()`. Nothing is stated of the result: it is the
/// machine's.
#[verifier::external_body]
fn system_os_edition() -> (r: Option<String>) {
    os_info::get().edition().map(|e| e.to_string())
}

impl RuntimeFacts {
    /// What this machine says of itself.
    pub fn collect() -> (r: Self) {
        RuntimeFacts {
            runtime_os: platform_client_os(),
            distro: system_distro(),
            os_version: system_os_version(),
            os_edition: system_os_edition(),
        }
    }
}

/// The operating system this process runs on.
pub fn runtime_client_os() -> (r: ClientOs) {
    platform_client_os()
}

pub open spec fn opt_or(o: Option<Seq<char>>, d: Seq<char>) -> Seq<char> {
    match o {
        Some(v) => v,
        None => d,
    }
}

/// The macOS version: this machine's where it runs macOS, else the default.
pub open spec fn macos_version_of(facts: RuntimeFactsView) -> Seq<char> {
    if facts.runtime_os == ClientOs::Mac {
        opt_or(facts.os_version, "13.4.0"@)
    } else {
        "13.4.0"@
    }
}

/// The operating-system text that the client reports.
pub open spec fn os_version_of(os: ClientOs, facts: RuntimeFactsView) -> Seq<char> {
    match os {
        ClientOs::Linux => "Linux "@ + if facts.runtime_os == ClientOs::Linux {
            opt_or(facts.distro, "Ubuntu 24.04.3 LTS"@)
        } else {
            "Ubuntu 24.04.3 LTS"@
        },
        ClientOs::Windows => "Microsoft "@ + (if facts.runtime_os == ClientOs::Windows {
            match facts.os_edition {
                Some(e) => e,
                None => opt_or(facts.distro, "Windows 11 Pro"@),
            }
        } else {
            "Windows 11 Pro"@
        }) + " , 64-bit"@,
        ClientOs::Mac => "Apple Mac OS X "@ + macos_version_of(facts),
    }
}

/// The software version that the client reports.
pub open spec fn software_version_of(os: ClientOs, facts: RuntimeFactsView) -> Seq<char> {
    match os {
        ClientOs::Linux => Seq::empty(),
        ClientOs::Windows => if facts.runtime_os == ClientOs::Windows {
            match facts.os_version {
                Some(v) => v + ".0"@,
                None => "10.0.22631.0"@,
            }
        } else {
            "10.0.22631.0"@
        },
        ClientOs::Mac => macos_version_of(facts),
    }
}

fn concat2(a: &str, b: &str) -> (r: String)
    ensures
        r@ == a@ + b@,
{
    let mut r = a.to_string();
    r.append(b);
    r
}

fn concat3(a: &str, b: &str, c: &str) -> (r: String)
    ensures
        r@ == a@ + b@ + c@,
{
    let mut r = a.to_string();
    r.append(b);
    r.append(c);
    r
}

fn macos_version(facts: &RuntimeFacts) -> (r: String)
    ensures
        r@ == macos_version_of(facts@),
{
    if facts.runtime_os == ClientOs::Mac {
        match &facts.os_version {
            Some(v) => v.clone(),
            None => DEFAULT_MACOS_VERSION.to_string(),
        }
    } else {
        DEFAULT_MACOS_VERSION.to_string()
    }
}

/// The operating-system text that the client reports for `os` on a machine
/// with these facts.
pub fn os_version_for(os: ClientOs, facts: &RuntimeFacts) -> (r: String)
    ensures
        r@ == os_version_of(os, facts@),
{
    match os {
        ClientOs::Linux => {
            let distro = if facts.runtime_os == ClientOs::Linux {
                match &facts.distro {
                    Some(d) => d.clone(),
                    None => DEFAULT_LINUX_DISTRO.to_string(),
                }
            } else {
                DEFAULT_LINUX_DISTRO.to_string()
            };
            concat2("Linux ", distro.as_str())
        },
        ClientOs::Windows => {
            let edition = if facts.runtime_os == ClientOs::Windows {
                match &facts.os_edition {
                    Some(e) => e.clone(),
                    None => match &facts.distro {
                        Some(d) => d.clone(),
                        None => DEFAULT_WINDOWS_DISTRO.to_string(),
                    },
                }
            } else {
                DEFAULT_WINDOWS_DISTRO.to_string()
            };
            concat3("Microsoft ", edition.as_str(), " , 64-bit")
        },
        ClientOs::Mac => {
            let v = macos_version(facts);
            concat2("Apple Mac OS X ", v.as_str())
        },
    }
}

/// The software version that the client reports for `os` on a machine with
/// these facts.
pub fn software_version_for(os: ClientOs, facts: &RuntimeFacts) -> (r: String)
    ensures
        r@ == software_version_of(os, facts@),
{
    match os {
        ClientOs::Linux => String::new(),
        ClientOs::Windows => {
            if facts.runtime_os == ClientOs::Windows {
                match &facts.os_version {
                    Some(v) => concat2(v.as_str(), ".0"),
                    None => DEFAULT_WINDOWS_VERSION.to_string(),
                }
            } else {
                DEFAULT_WINDOWS_VERSION.to_string()
            }
        },
        ClientOs::Mac => macos_version(facts),
    }
}

pub open spec fn os_vendor_of(os: ClientOs) -> Seq<char> {
    match os {
        ClientOs::Linux => "Linux"@,
        ClientOs::Mac => "Apple"@,
        ClientOs::Windows => "Microsoft"@,
    }
}

pub open spec fn saml_password_of(os: ClientOs) -> Seq<char> {
    match os {
        ClientOs::Linux => "SAMLPASS"@,
        ClientOs::Mac | ClientOs::Windows => ""@,
    }
}

pub open spec fn external_browser_value_of(os: ClientOs) -> Seq<char> {
    match os {
        ClientOs::Linux => "4"@,
        ClientOs::Mac => "3"@,
        ClientOs::Windows => "2"@,
    }
}

pub open spec fn webview_default_of(os: ClientOs) -> Seq<char> {
    match os {
        ClientOs::Linux => DEFAULT_LINUX_WEBVIEW_USER_AGENT@,
        ClientOs::Mac => DEFAULT_MACOS_WEBVIEW_USER_AGENT@,
        ClientOs::Windows => DEFAULT_WINDOWS_WEBVIEW_USER_AGENT@,
    }
}

pub open spec fn webview_transform_of(os: ClientOs) -> WebviewUserAgentTransform {
    match os {
        ClientOs::Linux => WebviewUserAgentTransform::LinuxPanGpuiVersion,
        ClientOs::Mac | ClientOs::Windows => WebviewUserAgentTransform::Unchanged,
    }
}

/// The seed words of a projected identity value: `os-profile`, the system's
/// name and the value's name, joined by hyphens.
pub open spec fn profile_purpose(os: ClientOs, what: Seq<char>) -> Seq<char> {
    "os-profile-"@ + client_os_name(os) + "-"@ + what
}

/// A hyphenated UUID's 32 hex digits, without the hyphens.
pub open spec fn uuid_compact(u: Seq<char>) -> Seq<char> {
    u.subrange(0, 8) + u.subrange(9, 13) + u.subrange(14, 18) + u.subrange(19, 23) + u.subrange(24, 36)
}

/// The identity as the emulated system reports it.
pub struct ProfileIdentityView {
    pub computer: Seq<char>,
    pub host_id: Seq<char>,
    pub serial_number: Seq<char>,
    pub mac_address: Seq<char>,
}

/// The computer name: a non-blank override, else the machine's.
pub open spec fn profile_computer(identity: HostIdentityView, computer_override: Option<Seq<char>>) -> Seq<char> {
    match computer_override {
        Some(c) => if is_blank(c) {
            identity.computer
        } else {
            c
        },
        None => identity.computer,
    }
}

/// The identity that a profile for `os` reports. On the system it runs on,
/// the machine's own values, with MAC addresses in that system's notation
/// (and, on macOS, the host ID too); on another system, values derived from
/// the machine's host ID so that they are stable and look as that system's
/// would.
pub open spec fn project_identity(
    os: ClientOs,
    runtime_os: ClientOs,
    identity: HostIdentityView,
    computer_override: Option<Seq<char>>,
) -> ProfileIdentityView {
    let computer = profile_computer(identity, computer_override);
    let seed = identity.host_id;
    if os == runtime_os {
        ProfileIdentityView {
            computer,
            host_id: match os {
                ClientOs::Mac => replace_char(identity.host_id, '-', ':'),
                ClientOs::Linux | ClientOs::Windows => identity.host_id,
            },
            serial_number: identity.serial_number,
            mac_address: match os {
                ClientOs::Linux | ClientOs::Windows => replace_char(identity.mac_address, ':', '-'),
                ClientOs::Mac => replace_char(identity.mac_address, '-', ':'),
            },
        }
    } else {
        match os {
            ClientOs::Linux => {
                let host_id = derived_uuid(seed, profile_purpose(os, "host-id"@));
                ProfileIdentityView {
                    computer,
                    host_id,
                    serial_number: vmware_from_uuid_spec(host_id)->Some_0,
                    mac_address: mac_from_uuid(derived_uuid(seed, profile_purpose(os, "mac"@)), '-'),
                }
            },
            ClientOs::Windows => ProfileIdentityView {
                computer,
                host_id: derived_uuid(seed, profile_purpose(os, "host-id"@)),
                serial_number: vmware_from_compact_hex_spec(
                    ascii_upper(uuid_compact(derived_uuid(seed, profile_purpose(os, "serialno"@)))),
                )->Some_0,
                mac_address: mac_from_uuid(derived_uuid(seed, profile_purpose(os, "mac"@)), '-'),
            },
            ClientOs::Mac => {
                let mac = mac_from_uuid(derived_uuid(seed, profile_purpose(os, "mac"@)), ':');
                ProfileIdentityView {
                    computer,
                    host_id: mac,
                    serial_number: ascii_upper(
                        uuid_compact(derived_uuid(seed, profile_purpose(os, "serialno"@))),
                    ).take(10),
                    mac_address: mac,
                }
            },
        }
    }
}

#[derive(Debug)]
struct ProfileHostIdentity {
    computer: String,
    host_id: String,
    serial_number: String,
    mac_address: String,
}

impl ProfileHostIdentity {
    closed spec fn view_of(self) -> ProfileIdentityView {
        ProfileIdentityView {
            computer: self.computer@,
            host_id: self.host_id@,
            serial_number: self.serial_number@,
            mac_address: self.mac_address@,
        }
    }

    fn clone_identity(&self) -> (r: Self)
        ensures
            r.view_of() == self.view_of(),
    {
        ProfileHostIdentity {
            computer: self.computer.clone(),
            host_id: self.host_id.clone(),
            serial_number: self.serial_number.clone(),
            mac_address: self.mac_address.clone(),
        }
    }
}

fn profile_purpose_text(os: ClientOs, what: &str) -> (r: String)
    ensures
        r@ == profile_purpose(os, what@),
{
    let mut r = "os-profile-".to_string();
    r.append(os.as_str());
    r.append("-");
    r.append(what);
    proof {
        reveal_strlit("os-profile-");
        reveal_strlit("-");
    }
    r
}

/// A hyphenated UUID without its hyphens is 32 hex digits.
proof fn lemma_uuid_compact_hex(u: Seq<char>)
    requires
        is_uuid_form(u),
    ensures
        uuid_compact(u).len() == 32,
        all_hex(uuid_compact(u)),
{
    let c = uuid_compact(u);
    assert forall|j: int| 0 <= j < 32 implies crate::text::is_hex_digit(#[trigger] c[j]) by {
        let k = if j < 8 {
            j
        } else if j < 12 {
            j + 1
        } else if j < 16 {
            j + 2
        } else if j < 20 {
            j + 3
        } else {
            j + 4
        };
        assert(c[j] == u[k]);
    }
}

/// Appends `v[from..to]`, upper-cased.
fn push_upper_range(out: &mut Vec<char>, v: &Vec<char>, from: usize, to: usize)
    requires
        from <= to <= v.len(),
    ensures
        final(out)@ == old(out)@ + ascii_upper(v@.subrange(from as int, to as int)),
{
    let mut i = from;
    while i < to
        invariant
            from <= i <= to <= v.len(),
            out@ == old(out)@ + ascii_upper(v@.subrange(from as int, i as int)),
        decreases to - i,
    {
        let c = crate::text::upper_char(v[i]);
        out.push(c);
        assert(ascii_upper(v@.subrange(from as int, i + 1)) =~= ascii_upper(
            v@.subrange(from as int, i as int),
        ).push(c));
        i += 1;
    }
}

/// The hex digits of a hyphenated UUID, upper-cased.
fn upper_compact_uuid(uuid: &str) -> (r: Vec<char>)
    requires
        is_uuid_form(uuid@),
    ensures
        r@ == ascii_upper(uuid_compact(uuid@)),
        r@.len() == 32,
        all_hex(r@),
{
    let v = to_chars(uuid);
    let mut r: Vec<char> = Vec::new();
    push_upper_range(&mut r, &v, 0, 8);
    push_upper_range(&mut r, &v, 9, 13);
    push_upper_range(&mut r, &v, 14, 18);
    push_upper_range(&mut r, &v, 19, 23);
    push_upper_range(&mut r, &v, 24, 36);
    proof {
        lemma_uuid_compact_hex(uuid@);
    }
    assert(r@ =~= ascii_upper(uuid_compact(uuid@)));
    assert forall|j: int| 0 <= j < 32 implies crate::text::is_hex_digit(#[trigger] r@[j]) by {
        assert(crate::text::is_hex_digit(uuid_compact(uuid@)[j]));
    }
    r
}

impl ProfileHostIdentity {
    fn project(
        os: ClientOs,
        runtime_os: ClientOs,
        identity: &HostIdentity,
        computer_override: Option<String>,
    ) -> (r: Self)
        ensures
            r.view_of() == project_identity(os, runtime_os, identity@, opt_view(computer_override)),
    {
        let computer = match computer_override {
            Some(c) => if is_blank_str(c.as_str()) {
                identity.computer().to_string()
            } else {
                c
            },
            None => identity.computer().to_string(),
        };
        let seed = identity.host_id();
        if os == runtime_os {
            let host_id = match os {
                ClientOs::Mac => replace_char_str(identity.host_id(), '-', ':'),
                ClientOs::Linux | ClientOs::Windows => identity.host_id().to_string(),
            };
            let mac_address = match os {
                ClientOs::Linux | ClientOs::Windows => replace_char_str(identity.mac_addr(), ':', '-'),
                ClientOs::Mac => replace_char_str(identity.mac_addr(), '-', ':'),
            };
            return ProfileHostIdentity {
                computer,
                host_id,
                serial_number: identity.serialno().to_string(),
                mac_address,
            };
        }
        proof {
            reveal_strlit("host-id");
            reveal_strlit("mac");
            reveal_strlit("serialno");
        }
        match os {
            ClientOs::Linux => {
                let host_id = derive_uuid_from_seed(seed, profile_purpose_text(os, "host-id").as_str());
                let mac_uuid = derive_uuid_from_seed(seed, profile_purpose_text(os, "mac").as_str());
                proof {
                    lemma_uuid_has_vmware_serial(host_id@);
                }
                let serial_number = match vmware_from_uuid(host_id.as_str()) {
                    Some(s) => s,
                    None => {
                        assert(false);
                        String::new()
                    },
                };
                ProfileHostIdentity {
                    computer,
                    host_id,
                    serial_number,
                    mac_address: mac_from_uuid_text(mac_uuid.as_str(), '-'),
                }
            },
            ClientOs::Windows => {
                let host_id = derive_uuid_from_seed(seed, profile_purpose_text(os, "host-id").as_str());
                let serial_uuid = derive_uuid_from_seed(seed, profile_purpose_text(os, "serialno").as_str());
                let mac_uuid = derive_uuid_from_seed(seed, profile_purpose_text(os, "mac").as_str());
                let compact = upper_compact_uuid(serial_uuid.as_str());
                let compact_text = string_of(&compact, 0, 32);
                assert(compact@.subrange(0, 32) =~= compact@);
                proof {
                    lemma_trim_of_hex(compact@);
                }
                let serial_number = match vmware_from_compact_hex(compact_text.as_str()) {
                    Some(s) => s,
                    None => {
                        assert(false);
                        String::new()
                    },
                };
                ProfileHostIdentity {
                    computer,
                    host_id,
                    serial_number,
                    mac_address: mac_from_uuid_text(mac_uuid.as_str(), '-'),
                }
            },
            ClientOs::Mac => {
                let mac_uuid = derive_uuid_from_seed(seed, profile_purpose_text(os, "mac").as_str());
                let serial_uuid = derive_uuid_from_seed(seed, profile_purpose_text(os, "serialno").as_str());
                let mac_address = mac_from_uuid_text(mac_uuid.as_str(), ':');
                let compact = upper_compact_uuid(serial_uuid.as_str());
                let serial_number = string_of(&compact, 0, 10);
                assert(compact@.subrange(0, 10) =~= compact@.take(10));
                ProfileHostIdentity { computer, host_id: mac_address.clone(), serial_number, mac_address }
            },
        }
    }
}

/// An operating-system profile: what the client reports of itself.
#[derive(Debug)]
pub struct OsProfile {
    client_os: ClientOs,
    runtime_os: ClientOs,
    os_version: String,
    software_version: String,
    client_version: String,
    host_identity: HostIdentity,
    profile_identity: ProfileHostIdentity,
    user_agent: String,
}

pub struct OsProfileView {
    pub client_os: ClientOs,
    pub runtime_os: ClientOs,
    pub os_version: Seq<char>,
    pub software_version: Seq<char>,
    pub client_version: Seq<char>,
    pub host_identity: HostIdentityView,
    pub identity: ProfileIdentityView,
    pub user_agent: Seq<char>,
}

impl View for OsProfile {
    type V = OsProfileView;

    closed spec fn view(&self) -> OsProfileView {
        OsProfileView {
            client_os: self.client_os,
            runtime_os: self.runtime_os,
            os_version: self.os_version@,
            software_version: self.software_version@,
            client_version: self.client_version@,
            host_identity: self.host_identity@,
            identity: self.profile_identity.view_of(),
            user_agent: self.user_agent@,
        }
    }
}

impl Clone for OsProfile {
    fn clone(&self) -> (r: Self)
        ensures
            r@ == self@,
    {
        OsProfile {
            client_os: self.client_os,
            runtime_os: self.runtime_os,
            os_version: self.os_version.clone(),
            software_version: self.software_version.clone(),
            client_version: self.client_version.clone(),
            host_identity: self.host_identity.clone(),
            profile_identity: self.profile_identity.clone_identity(),
            user_agent: self.user_agent.clone(),
        }
    }
}

impl OsProfile {
    pub fn builder(client_os: ClientOs) -> (r: OsProfileBuilder)
        ensures
            r@ == OsProfileBuilder::new_spec(client_os),
    {
        OsProfileBuilder::new(client_os)
    }

    pub fn client_os(&self) -> (r: ClientOs)
        ensures
            r == self@.client_os,
    {
        self.client_os
    }

    pub fn computer(&self) -> (r: &str)
        ensures
            r@ == self@.identity.computer,
    {
        self.profile_identity.computer.as_str()
    }

    pub fn os_version(&self) -> (r: &str)
        ensures
            r@ == self@.os_version,
    {
        self.os_version.as_str()
    }

    pub fn client_version(&self) -> (r: &str)
        ensures
            r@ == self@.client_version,
    {
        self.client_version.as_str()
    }

    pub fn host_identity(&self) -> (r: &HostIdentity)
        ensures
            r@ == self@.host_identity,
    {
        &self.host_identity
    }

    pub fn user_agent(&self) -> (r: &str)
        ensures
            r@ == self@.user_agent,
    {
        self.user_agent.as_str()
    }

    /// The webview's user agent: its own, after the profile's user agent,
    /// on the system it runs on; that of the emulated system's webview
    /// otherwise.
    pub fn webview_user_agent(&self) -> (r: WebviewUserAgent)
        ensures
            match r {
                WebviewUserAgent::Native { prefix, transform } => self@.client_os == self@.runtime_os
                    && prefix@ == self@.user_agent && transform == webview_transform_of(self@.client_os),
                WebviewUserAgent::Projected { prefix, default_user_agent } => self@.client_os
                    != self@.runtime_os && prefix@ == self@.user_agent && default_user_agent@
                    == webview_default_of(self@.client_os),
            },
    {
        if self.is_native() {
            WebviewUserAgent::Native {
                prefix: self.user_agent.clone(),
                transform: self.webview_user_agent_transform(),
            }
        } else {
            WebviewUserAgent::Projected {
                prefix: self.user_agent.clone(),
                default_user_agent: self.webview_user_agent_default().to_string(),
            }
        }
    }

    pub fn host_id(&self) -> (r: &str)
        ensures
            r@ == self@.identity.host_id,
    {
        self.profile_identity.host_id.as_str()
    }

    pub fn serialno(&self) -> (r: &str)
        ensures
            r@ == self@.identity.serial_number,
    {
        self.profile_identity.serial_number.as_str()
    }

    pub fn mac_addr(&self) -> (r: &str)
        ensures
            r@ == self@.identity.mac_address,
    {
        self.profile_identity.mac_address.as_str()
    }

    /// The profile is that of the system this process runs on.
    pub fn is_native(&self) -> (r: bool)
        ensures
            r == (self@.client_os == self@.runtime_os),
    {
        self.client_os == self.runtime_os
    }

    pub fn software_version(&self) -> (r: &str)
        ensures
            r@ == self@.software_version,
    {
        self.software_version.as_str()
    }

    pub fn prelogin_param_location(&self) -> (r: PreloginParamLocation)
        ensures
            r == (if self@.client_os == ClientOs::Windows {
                PreloginParamLocation::Query
            } else {
                PreloginParamLocation::Body
            }),
    {
        match self.client_os {
            ClientOs::Linux | ClientOs::Mac => PreloginParamLocation::Body,
            ClientOs::Windows => PreloginParamLocation::Query,
        }
    }

    /// The `default-browser` value of a portal prelogin.
    pub fn portal_default_browser(&self, browser_mode: PreloginBrowserMode) -> (r: &'static str)
        ensures
            r@ == match browser_mode {
                PreloginBrowserMode::Embedded => "-10"@,
                PreloginBrowserMode::External => external_browser_value_of(self@.client_os),
            },
    {
        match browser_mode {
            PreloginBrowserMode::Embedded => "-10",
            PreloginBrowserMode::External => self.external_browser_value(),
        }
    }

    /// The `default-browser` value of a gateway prelogin.
    pub fn gateway_default_browser(&self, browser_mode: PreloginBrowserMode) -> (r: &'static str)
        ensures
            r@ == match browser_mode {
                PreloginBrowserMode::Embedded => "0"@,
                PreloginBrowserMode::External => external_browser_value_of(self@.client_os),
            },
    {
        match browser_mode {
            PreloginBrowserMode::Embedded => "0",
            PreloginBrowserMode::External => self.external_browser_value(),
        }
    }

    fn external_browser_value(&self) -> (r: &'static str)
        ensures
            r@ == external_browser_value_of(self@.client_os),
    {
        match self.client_os {
            ClientOs::Linux => "4",
            ClientOs::Mac => "3",
            ClientOs::Windows => "2",
        }
    }

    /// The password sent beside SAML cookies.
    pub fn saml_password(&self) -> (r: &'static str)
        ensures
            r@ == saml_password_of(self@.client_os),
    {
        match self.client_os {
            ClientOs::Linux => "SAMLPASS",
            ClientOs::Mac | ClientOs::Windows => "",
        }
    }

    /// The gateway login names the gateway by its resolved IPv4 address.
    pub fn gateway_server_uses_resolved_ipv4(&self) -> (r: bool)
        ensures
            r,
    {
        true
    }

    pub fn supports_macos_plist_csc(&self) -> (r: bool)
        ensures
            r == (self@.client_os == ClientOs::Mac),
    {
        self.client_os == ClientOs::Mac
    }

    pub fn supports_linux_process_csc(&self) -> (r: bool)
        ensures
            r == (self@.client_os == ClientOs::Linux),
    {
        self.client_os == ClientOs::Linux
    }

    pub fn supports_windows_registry_csc(&self) -> (r: bool)
        ensures
            r == (self@.client_os == ClientOs::Windows),
    {
        self.client_os == ClientOs::Windows
    }

    /// Kerberos support is announced in the prelogin query.
    pub fn kerberos_support_in_query(&self) -> (r: bool)
        ensures
            r == (self@.client_os != ClientOs::Linux),
    {
        match self.client_os {
            ClientOs::Linux => false,
            ClientOs::Mac | ClientOs::Windows => true,
        }
    }

    pub fn os_vendor(&self) -> (r: &'static str)
        ensures
            r@ == os_vendor_of(self@.client_os),
    {
        match self.client_os {
            ClientOs::Linux => "Linux",
            ClientOs::Mac => "Apple",
            ClientOs::Windows => "Microsoft",
        }
    }

    /// The user agent of the emulated system's webview.
    pub fn webview_user_agent_default(&self) -> (r: &'static str)
        ensures
            r@ == webview_default_of(self@.client_os),
    {
        match self.client_os {
            ClientOs::Linux => DEFAULT_LINUX_WEBVIEW_USER_AGENT,
            ClientOs::Mac => DEFAULT_MACOS_WEBVIEW_USER_AGENT,
            ClientOs::Windows => DEFAULT_WINDOWS_WEBVIEW_USER_AGENT,
        }
    }

    /// How the system's own webview user agent is rewritten.
    pub fn webview_user_agent_transform(&self) -> (r: WebviewUserAgentTransform)
        ensures
            r == webview_transform_of(self@.client_os),
    {
        match self.client_os {
            ClientOs::Linux => WebviewUserAgentTransform::LinuxPanGpuiVersion,
            ClientOs::Mac | ClientOs::Windows => WebviewUserAgentTransform::Unchanged,
        }
    }
}

/// Collects the choices for an `OsProfile`.
#[derive(Debug)]
pub struct OsProfileBuilder {
    client_os: ClientOs,
    client_version: Option<String>,
    computer_name_override: Option<String>,
    host_id_override: Option<String>,
    host_identity: Option<HostIdentity>,
    user_agent: Option<String>,
}

pub struct OsProfileBuilderView {
    pub client_os: ClientOs,
    pub client_version: Option<Seq<char>>,
    pub computer_name_override: Option<Seq<char>>,
    pub host_id_override: Option<Seq<char>>,
    pub host_identity: Option<HostIdentityView>,
    pub user_agent: Option<Seq<char>>,
}

pub open spec fn opt_identity_view(o: Option<HostIdentity>) -> Option<HostIdentityView> {
    match o {
        Some(i) => Some(i@),
        None => None,
    }
}

impl View for OsProfileBuilder {
    type V = OsProfileBuilderView;

    closed spec fn view(&self) -> OsProfileBuilderView {
        OsProfileBuilderView {
            client_os: self.client_os,
            client_version: opt_view(self.client_version),
            computer_name_override: opt_view(self.computer_name_override),
            host_id_override: opt_view(self.host_id_override),
            host_identity: opt_identity_view(self.host_identity),
            user_agent: opt_view(self.user_agent),
        }
    }
}

/// A value kept by the builder: a blank one is dropped.
pub open spec fn kept(v: Seq<char>) -> Option<Seq<char>> {
    if is_blank(v) {
        None
    } else {
        Some(v)
    }
}

/// The client version: a non-blank one given, else the official client's.
pub open spec fn chosen_client_version(os: ClientOs, given: Option<Seq<char>>) -> Seq<char> {
    match given {
        Some(v) => if is_blank(v) {
            default_client_version_of(os)
        } else {
            v
        },
        None => default_client_version_of(os),
    }
}

/// `PAN GlobalProtect/<client version> (<os version>)`.
pub open spec fn derived_user_agent(client_version: Seq<char>, os_version: Seq<char>) -> Seq<char> {
    "PAN GlobalProtect/"@ + client_version + " ("@ + os_version + ")"@
}

/// The profile that a builder makes on a machine with these facts, with
/// `identity` as the machine identity when the builder was given none.
pub open spec fn profile_of(b: OsProfileBuilderView, facts: RuntimeFactsView, identity: HostIdentityView) -> OsProfileView {
    let client_version = chosen_client_version(b.client_os, b.client_version);
    let host_identity = match b.host_identity {
        Some(i) => i,
        None => identity,
    };
    let os_version = os_version_of(b.client_os, facts);
    OsProfileView {
        client_os: b.client_os,
        runtime_os: facts.runtime_os,
        os_version,
        software_version: software_version_of(b.client_os, facts),
        client_version,
        host_identity,
        identity: project_identity(b.client_os, facts.runtime_os, host_identity, b.computer_name_override),
        user_agent: match b.user_agent {
            Some(ua) => ua,
            None => derived_user_agent(client_version, os_version),
        },
    }
}

impl OsProfileBuilder {
    pub open spec fn new_spec(client_os: ClientOs) -> OsProfileBuilderView {
        OsProfileBuilderView {
            client_os,
            client_version: None,
            computer_name_override: None,
            host_id_override: None,
            host_identity: None,
            user_agent: None,
        }
    }

    pub fn new(client_os: ClientOs) -> (r: Self)
        ensures
            r@ == Self::new_spec(client_os),
    {
        OsProfileBuilder {
            client_os,
            client_version: None,
            computer_name_override: None,
            host_id_override: None,
            host_identity: None,
            user_agent: None,
        }
    }

    pub fn computer_name_override(self, name: &str) -> (r: Self)
        ensures
            r@ == (OsProfileBuilderView { computer_name_override: Some(name@), ..self@ }),
    {
        OsProfileBuilder { computer_name_override: Some(name.to_string()), ..self }
    }

    pub fn client_version(self, version: &str) -> (r: Self)
        ensures
            r@ == (OsProfileBuilderView { client_version: Some(version@), ..self@ }),
    {
        OsProfileBuilder { client_version: Some(version.to_string()), ..self }
    }

    pub fn host_identity(self, identity: HostIdentity) -> (r: Self)
        ensures
            r@ == (OsProfileBuilderView { host_identity: Some(identity@), ..self@ }),
    {
        OsProfileBuilder { host_identity: Some(identity), ..self }
    }

    /// The host ID to use when the machine's identity is collected; a blank
    /// one is dropped.
    pub fn host_id_override(self, host_id: &str) -> (r: Self)
        ensures
            r@ == (OsProfileBuilderView { host_id_override: kept(host_id@), ..self@ }),
    {
        let v = if is_blank_str(host_id) {
            None
        } else {
            Some(host_id.to_string())
        };
        OsProfileBuilder { host_id_override: v, ..self }
    }

    /// The user agent to report; a blank one is dropped.
    pub fn user_agent(self, ua: &str) -> (r: Self)
        ensures
            r@ == (OsProfileBuilderView { user_agent: kept(ua@), ..self@ }),
    {
        let v = if is_blank_str(ua) {
            None
        } else {
            Some(ua.to_string())
        };
        OsProfileBuilder { user_agent: v, ..self }
    }

    /// The profile, on this machine: the machine identity is collected when
    /// none was given (with the host ID override as its host ID).
    pub fn build(self) -> (r: OsProfile)
        ensures
            exists|facts: RuntimeFactsView, identity: HostIdentityView|
                {
                    &&& r@ == profile_of(self@, facts, identity)
                    &&& self@.host_identity is None ==> match self@.host_id_override {
                        Some(h) => !is_blank(h) ==> identity.host_id == h,
                        None => true,
                    }
                },
    {
        let facts = RuntimeFacts::collect();
        let identity = match &self.host_identity {
            Some(i) => i.clone(),
            None => HostIdentity::collect_with_host_id(
                match &self.host_id_override {
                    Some(h) => Some(h.as_str()),
                    None => None,
                },
            ),
        };
        let ghost iv = identity@;
        let ghost fv = facts@;
        let ghost b = self@;
        let r = self.build_with(&facts, identity);
        assert(r@ == profile_of(b, fv, iv));
        r
    }

    /// The profile on a machine with these facts; `identity` is the
    /// machine identity when the builder was given none.
    pub fn build_with(self, facts: &RuntimeFacts, identity: HostIdentity) -> (r: OsProfile)
        ensures
            r@ == profile_of(self@, facts@, identity@),
    {
        let client_version = match self.client_version {
            Some(v) => if is_blank_str(v.as_str()) {
                self.client_os.default_client_version().to_string()
            } else {
                v
            },
            None => self.client_os.default_client_version().to_string(),
        };
        let host_identity = match self.host_identity {
            Some(i) => i,
            None => identity,
        };
        let profile_identity = ProfileHostIdentity::project(
            self.client_os,
            facts.runtime_os,
            &host_identity,
            self.computer_name_override,
        );
        let os_version = os_version_for(self.client_os, facts);
        let software_version = software_version_for(self.client_os, facts);
        let user_agent = match self.user_agent {
            Some(ua) => ua,
            None => {
                let mut ua = GP_USER_AGENT.to_string();
                ua.append("/");
                ua.append(client_version.as_str());
                ua.append(" (");
                ua.append(os_version.as_str());
                ua.append(")");
                proof {
                    reveal_strlit("PAN GlobalProtect");
                    reveal_strlit("PAN GlobalProtect/");
                    reveal_strlit("/");
                    assert("PAN GlobalProtect"@ + "/"@ =~= "PAN GlobalProtect/"@);
                }
                ua
            },
        };
        OsProfile {
            client_os: self.client_os,
            runtime_os: facts.runtime_os,
            os_version,
            software_version,
            client_version,
            host_identity,
            profile_identity,
            user_agent,
        }
    }
}

/// The computer name that a profile for `client_os` reports on this machine.
pub fn default_computer_name(client_os: &ClientOs) -> (r: String)
    ensures
        exists|runtime: ClientOs, h1: Seq<char>, mac: Option<Seq<char>>, h2: Seq<char>|
            #[trigger] project_identity(*client_os, runtime, collected_identity(None, h1, mac, h2), None).computer == r@,
{
    let identity = HostIdentity::collect();
    let runtime = runtime_client_os();
    let p = ProfileHostIdentity::project(*client_os, runtime, &identity, None);
    let ghost (h1, mac, h2) = choose|h1: Seq<char>, mac: Option<Seq<char>>, h2: Seq<char>|
        #[trigger] collected_identity(None, h1, mac, h2) == identity@;
    assert(project_identity(*client_os, runtime, collected_identity(None, h1, mac, h2), None).computer == p.computer@);
    p.computer
}

/// The operating-system text that a profile for `client_os` reports on this
/// machine.
pub fn default_os_version(client_os: &ClientOs) -> (r: String)
    ensures
        exists|facts: RuntimeFactsView| r@ == os_version_of(*client_os, facts),
{
    let facts = RuntimeFacts::collect();
    let r = os_version_for(*client_os, &facts);
    assert(r@ == os_version_of(*client_os, facts@));
    r
}

/// The software version that a profile for `client_os` reports on this
/// machine.
pub fn default_software_version(client_os: &ClientOs) -> (r: String)
    ensures
        exists|facts: RuntimeFactsView| r@ == software_version_of(*client_os, facts),
{
    let facts = RuntimeFacts::collect();
    let r = software_version_for(*client_os, &facts);
    assert(r@ == software_version_of(*client_os, facts@));
    r
}

/// An operating system's name reads back as the same operating system.
pub proof fn lemma_client_os_name_round_trip(os: ClientOs)
    ensures
        client_os_of_name(client_os_name(os)) == os,
{
    reveal_strlit("Linux");
    reveal_strlit("Windows");
    reveal_strlit("Mac");
    assert("Linux"@.len() == 5 && "Windows"@.len() == 7 && "Mac"@.len() == 3);
}

/// A profile built with a (non-blank) client version and no user agent
/// reports `PAN GlobalProtect/<client version> (<os version>)`, which is
/// never empty.
pub proof fn lemma_derived_user_agent(
    b: OsProfileBuilderView,
    client_version: Seq<char>,
    facts: RuntimeFactsView,
    identity: HostIdentityView,
)
    requires
        b.user_agent is None,
        !is_blank(client_version),
    ensures
        ({
            let p = profile_of(
                OsProfileBuilderView { client_version: Some(client_version), ..b },
                facts,
                identity,
            );
            &&& p.user_agent == derived_user_agent(client_version, p.os_version)
            &&& p.user_agent.len() > 0
        }),
{
    reveal_strlit("PAN GlobalProtect/");
}

/// A user agent given to the builder that is not blank is reported as
/// given.
pub proof fn lemma_user_agent_override(
    b: OsProfileBuilderView,
    ua: Seq<char>,
    facts: RuntimeFactsView,
    identity: HostIdentityView,
)
    requires
        !is_blank(ua),
    ensures
        profile_of(OsProfileBuilderView { user_agent: kept(ua), ..b }, facts, identity).user_agent
            == ua,
{
}

/// A blank user agent given to the builder is dropped: the profile reports
/// the derived user agent.
pub proof fn lemma_blank_user_agent_override(
    b: OsProfileBuilderView,
    ua: Seq<char>,
    facts: RuntimeFactsView,
    identity: HostIdentityView,
)
    requires
        is_blank(ua),
        b.user_agent is None,
    ensures
        ({
            let p = profile_of(OsProfileBuilderView { user_agent: kept(ua), ..b }, facts, identity);
            p.user_agent == derived_user_agent(p.client_version, p.os_version)
        }),
{
}

} // verus!
