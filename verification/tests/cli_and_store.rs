use gpapi::cli::{retry_hints, Args, LogFormat, Os, ToVerboseArg, VerboseLevel};
use gpapi::common::{
    csd_wrapper_locations, find_csd_wrapper, find_executable, find_vpnc_script, gpauth, gpclient, gpgui,
    gpgui_helper, gpservice, resolve, vpnc_script_locations,
};
use gpapi::cookie_store::{accept_stored, cookie_path, StoredCookie, STORE_VERSION};
use gpapi::credential::AuthCookieCredential;
use gpapi::error::PortalError;
use gpapi::os_profile::{runtime_client_os, ClientOs};

#[derive(Default)]
struct TestArgs {
    fix_openssl: bool,
    ignore_tls_errors: bool,
}

impl Args for TestArgs {
    fn fix_openssl(&self) -> bool {
        self.fix_openssl
    }

    fn ignore_tls_errors(&self) -> bool {
        self.ignore_tls_errors
    }
}

#[test]
fn default_os_uses_runtime_client_os() {
    assert_eq!(ClientOs::from(Os::default()), runtime_client_os());
}

#[test]
fn log_format_defaults_to_text() {
    assert_eq!(TestArgs::default().log_format(), LogFormat::Text);
    assert_eq!(LogFormat::default(), LogFormat::Text);
}

/// The names clap's `ValueEnum` derive gives the two variants are their
/// kebab-case names.
#[test]
fn as_str_agrees_with_the_names_clap_parses() {
    for (format, clap_name) in [(LogFormat::Text, "text"), (LogFormat::Json, "json")] {
        assert_eq!(format.as_str(), clap_name);
    }
}

#[test]
fn a_tls_failure_suggests_ignoring_tls_errors() {
    let args = TestArgs::default();
    let hints = retry_hints(Some(&PortalError::TlsError), args.fix_openssl(), args.ignore_tls_errors(), "gpclient", "connect vpn");

    assert_eq!(hints.len(), 1, "expected one hint, got {hints:?}");
    assert!(hints[0].contains("--ignore-tls-errors"), "got {:?}", hints[0]);
    assert!(hints[0].contains("e.g.:\n\n"), "blank line before the command: {:?}", hints[0]);
    assert!(hints[0].ends_with("gpclient --ignore-tls-errors connect vpn"));
}

#[test]
fn no_hint_when_the_option_is_already_in_use() {
    let args = TestArgs { ignore_tls_errors: true, ..Default::default() };

    assert!(retry_hints(Some(&PortalError::TlsError), args.fix_openssl(), args.ignore_tls_errors(), "gpclient", "").is_empty());
}

#[test]
fn no_hints_for_an_unrelated_error() {
    let hints = retry_hints(None, false, false, "gpclient", "");

    assert!(hints.is_empty(), "got {hints:?}");
}

#[test]
fn legacy_renegotiation_suggests_fix_openssl() {
    let err = PortalError::NetworkError("ssl: unsafe legacy renegotiation disabled".to_string());
    let hints = retry_hints(Some(&err), false, false, "gpclient", "connect vpn");
    assert_eq!(hints.len(), 1);
    assert!(hints[0].ends_with("gpclient --fix-openssl connect vpn"));
    assert!(retry_hints(Some(&err), true, false, "gpclient", "").is_empty());
}

#[test]
fn verbosity_flags() {
    assert_eq!(VerboseLevel::Off.to_verbose_arg(), Some("-qqq"));
    assert_eq!(VerboseLevel::Error.to_verbose_arg(), Some("-qq"));
    assert_eq!(VerboseLevel::Warn.to_verbose_arg(), Some("-q"));
    assert_eq!(VerboseLevel::Info.to_verbose_arg(), None);
    assert_eq!(VerboseLevel::Debug.to_verbose_arg(), Some("-v"));
    assert_eq!(VerboseLevel::Trace.to_verbose_arg(), Some("-vv"));
}

#[test]
fn os_names_map_to_client_os() {
    assert_eq!(ClientOs::from(Os::Linux), ClientOs::Linux);
    assert_eq!(ClientOs::from(Os::Windows), ClientOs::Windows);
    assert_eq!(ClientOs::from(Os::Mac), ClientOs::Mac);
    assert_eq!(Os::from_client_os(ClientOs::Mac), Os::Mac);
}

fn sample() -> StoredCookie {
    StoredCookie::new(
        "vpn.example.com".to_string(),
        "alice".to_string(),
        "host-1".to_string(),
        "gw1.example.com".to_string(),
        AuthCookieCredential::new("alice", "user-auth", "prelogon-auth"),
    )
}

#[test]
fn roundtrip_and_mode_0600() {
    let loaded = accept_stored(sample(), "vpn.example.com", "host-1").unwrap();
    assert_eq!(loaded.username, "alice");
    assert_eq!(loaded.host_id, "host-1");
    assert_eq!(loaded.last_gateway, "gw1.example.com");
    assert_eq!(loaded.auth_cookie.user_auth_cookie(), "user-auth");

    assert!(accept_stored(sample(), "other.example.com", "host-1").is_none(), "must reject mismatched server");
    assert!(accept_stored(sample(), "vpn.example.com", "host-2").is_none(), "must reject mismatched host id");
}

#[test]
fn rejects_version_mismatch() {
    let mut s = sample();
    s.version = STORE_VERSION + 1;
    assert!(accept_stored(s, "vpn.example.com", "host-1").is_none());
}

#[test]
fn cookie_path_defaults_under_home() {
    assert_eq!(cookie_path(Some("/tmp/c.json"), Some("/home/a")), "/tmp/c.json");
    assert_eq!(cookie_path(None, Some("/home/a")), "/home/a/.config/gpclient/cookie.json");
    assert_eq!(cookie_path(None, None), "/root/.config/gpclient/cookie.json");
}

#[test]
fn default_path_is_used_when_no_sibling_exists() {
    let path = resolve(None, None, "/usr/bin/gp-test");

    assert_eq!(path, "/usr/bin/gp-test");
}

#[test]
fn override_and_sibling_win_over_default() {
    assert_eq!(resolve(Some("/opt/x".to_string()), Some("/here/x".to_string()), "/usr/bin/x"), "/opt/x");
    assert_eq!(resolve(Some(String::new()), Some("/here/x".to_string()), "/usr/bin/x"), "/here/x");
    assert_eq!(gpclient().resolve(None, None), "/usr/bin/gpclient");
    assert_eq!(gpservice().env_key, "GP_SERVICE_BINARY");
    assert_eq!(gpauth().binary_name, "gpauth");
    assert_eq!(gpgui().default_path, "/usr/bin/gpgui");
    assert_eq!(gpgui_helper().binary_name, "gpgui-helper");
}

#[test]
fn scripts_are_found_in_order() {
    assert_eq!(vpnc_script_locations().len(), 6);
    assert_eq!(find_vpnc_script(|p| p == "/usr/sbin/vpnc-script" || p == "/etc/vpnc/vpnc-script").as_deref(), Some("/usr/sbin/vpnc-script"));
    assert_eq!(find_vpnc_script(|_| false), None);
    assert_eq!(csd_wrapper_locations(true)[0], "/usr/lib/aarch64-linux-gnu/openconnect/hipreport.sh");
    assert_eq!(find_csd_wrapper(false, |_| true).as_deref(), Some("/usr/lib/x86_64-linux-gnu/openconnect/hipreport.sh"));
    assert_eq!(find_executable(&vec!["a", "b"], |p| p == "b").as_deref(), Some("b"));
}
