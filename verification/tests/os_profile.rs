use gpapi::gp_params::{CscMode, GpParams};
use gpapi::os_profile::host_identity::{
    derive_mac_address, derive_serial_number, normalize_mac_colon, normalize_uuid, resolve_host_id, HostIdentity,
    LinuxIdentityFiles, NativeHostIdentitySnapshot, RuntimeNativeHostIdentity,
};
use gpapi::os_profile::serial_number::{vmware_from_compact_hex, vmware_from_uuid};
use gpapi::os_profile::{
    default_os_version, default_software_version, runtime_client_os, ClientOs, OsProfile, OsProfileBuilder,
    PreloginBrowserMode, PreloginParamLocation, RuntimeFacts, WebviewUserAgent, WebviewUserAgentTransform,
    DEFAULT_LINUX_WEBVIEW_USER_AGENT, DEFAULT_MACOS_WEBVIEW_USER_AGENT, DEFAULT_WINDOWS_WEBVIEW_USER_AGENT,
    GP_CLIENT_VERSION_LINUX, GP_CLIENT_VERSION_WINDOWS,
};

fn assert_mac(value: &str, separator: char) {
    let parts: Vec<&str> = value.split(separator).collect();
    assert_eq!(parts.len(), 6, "MAC should have 6 octets");
    for part in &parts {
        assert_eq!(part.len(), 2);
        assert!(part.chars().all(|c| c.is_ascii_hexdigit()));
    }
}

fn non_native_client_os() -> ClientOs {
    match runtime_client_os() {
        ClientOs::Linux => ClientOs::Mac,
        ClientOs::Mac | ClientOs::Windows => ClientOs::Linux,
    }
}

fn profile(client_os: ClientOs) -> OsProfile {
    OsProfile::builder(client_os).build()
}

fn facts(runtime_os: ClientOs) -> RuntimeFacts {
    RuntimeFacts { runtime_os, distro: None, os_version: None, os_edition: None }
}

// ─── serial numbers ───────────────────────────────────────────────────────

#[test]
fn vmware_serial_from_uuid_uses_smbios_byte_order() {
    assert_eq!(
        vmware_from_uuid("5a784d56-6461-19ac-9ea9-d36a3b9c6cef").unwrap(),
        "VMware-56 4d 78 5a 61 64 ac 19-9e a9 d3 6a 3b 9c 6c ef"
    );
}

#[test]
fn invalid_uuid_is_rejected() {
    assert_eq!(vmware_from_uuid("not-a-uuid"), None);
}

#[test]
fn vmware_serial_from_compact_hex() {
    assert_eq!(
        vmware_from_compact_hex(" 564D785A616419AC9EA9D36A3B9C6CEF ").unwrap(),
        "VMware-56 4d 78 5a 61 64 19 ac-9e a9 d3 6a 3b 9c 6c ef"
    );
    assert_eq!(vmware_from_compact_hex("zz"), None);
}

// ─── host identity ────────────────────────────────────────────────────────

#[test]
fn collect_produces_non_empty_identity() {
    let identity = HostIdentity::collect();

    assert!(!identity.computer().is_empty());
    assert!(!identity.host_id().is_empty());
    assert!(!identity.serialno().is_empty());
    assert!(!identity.mac_addr().is_empty());
    assert_mac(identity.mac_addr(), ':');
}

#[test]
fn collect_with_host_id_uses_provided_host_id() {
    let identity = HostIdentity::collect_with_host_id(Some("provided-host-id"));

    assert_eq!(identity.host_id(), "provided-host-id");
    assert!(!identity.computer().is_empty());
    assert!(!identity.serialno().is_empty());
    assert!(!identity.mac_addr().is_empty());
}

#[test]
fn collect_with_blank_host_id_falls_back_to_runtime_host_id() {
    let identity = HostIdentity::collect_with_host_id(Some(" "));

    assert!(!identity.host_id().is_empty());
    assert_ne!(identity.host_id(), " ");
}

#[test]
fn resolve_host_id_does_not_collect_when_override_is_provided() {
    let host_id = resolve_host_id(Some("provided-host-id"), || panic!("runtime host id should not be collected"));

    assert_eq!(host_id, "provided-host-id");
}

#[test]
fn host_identity_normalizes_mac_to_lowercase_colon_format() {
    let identity = HostIdentity::new(
        "computer".to_string(),
        "host-id".to_string(),
        "serial-number".to_string(),
        "AA-BB-CC-DD-EE-FF".to_string(),
    );

    assert_eq!(identity.mac_addr(), "aa:bb:cc:dd:ee:ff");
}

#[test]
fn native_snapshot_uses_host_id_as_derivation_seed() {
    let native = RuntimeNativeHostIdentity::collect(None);

    assert!(!native.host_id.is_empty());
}

#[test]
fn native_identity_falls_back_to_derived_values_when_missing() {
    let native = NativeHostIdentitySnapshot {
        host_id: "native-host-id".to_string(),
        computer: "native-computer".to_string(),
        serial_number: None,
        mac_address: None,
    };

    let identity = native.into_host_identity();

    assert_eq!(identity.computer(), "native-computer");
    assert_eq!(identity.host_id(), "native-host-id");
    assert!(identity.serialno().starts_with("VMware-"));
    assert_mac(identity.mac_addr(), ':');
}

#[test]
fn derived_serial_uses_vmware_uuid_byte_order_when_host_id_is_uuid() {
    let identity = HostIdentity::new(
        "computer".to_string(),
        "5a784d56-6461-19ac-9ea9-d36a3b9c6cef".to_string(),
        String::new(),
        "aa:bb:cc:dd:ee:ff".to_string(),
    );

    assert_eq!(identity.serialno(), "VMware-56 4d 78 5a 61 64 ac 19-9e a9 d3 6a 3b 9c 6c ef");
}

#[test]
fn empty_host_id_falls_back_to_non_empty_value() {
    let identity = HostIdentity::new(String::new(), String::new(), String::new(), String::new());

    assert!(!identity.host_id().is_empty());
    assert!(!identity.computer().is_empty());
    assert!(!identity.serialno().is_empty());
    assert!(!identity.mac_addr().is_empty());
}

#[test]
fn derived_values_are_stable() {
    assert_eq!(derive_serial_number("seed"), derive_serial_number("seed"));
    assert_eq!(derive_mac_address("seed"), derive_mac_address("seed"));
    assert_mac(&derive_mac_address("seed"), ':');
    assert!(derive_serial_number("seed").starts_with("VMware-"));
}

#[test]
fn mac_normalization() {
    assert_eq!(normalize_mac_colon("AA-BB-CC-DD-EE-FF").as_deref(), Some("aa:bb:cc:dd:ee:ff"));
    assert_eq!(normalize_mac_colon("aabbccddeeff"), None);
    assert_eq!(normalize_mac_colon(" 0a-0B-0c-0d-0e-0f ").as_deref(), Some("0a:0b:0c:0d:0e:0f"));
    assert_eq!(normalize_mac_colon("aa:bb:cc:dd:ee:fg"), None);
}

#[test]
fn linux_identity_files_prefer_product_uuid() {
    let mut files = LinuxIdentityFiles::none();
    files.product_uuid = Some("5A784D56-6461-19AC-9EA9-D36A3B9C6CEF\n".to_string());
    files.machine_id = Some("abc\n".to_string());
    assert_eq!(files.host_id("host"), "5a784d56-6461-19ac-9ea9-d36a3b9c6cef");
    let mut files = LinuxIdentityFiles::none();
    files.machine_id = Some(" machine-id \n".to_string());
    let derived = files.host_id("host");
    assert_eq!(derived.len(), 36);
    assert_ne!(derived, "machine-id");
    assert_eq!(derived, files.host_id("other-host"));
}

// ─── profiles ─────────────────────────────────────────────────────────────

fn real_identity() -> HostIdentity {
    HostIdentity::new(
        "real-computer".to_string(),
        "real-host-id".to_string(),
        "real-serial".to_string(),
        "AA-BB-CC-DD-EE-FF".to_string(),
    )
}

#[test]
fn native_linux_projection_uses_real_identity_with_dash_mac() {
    let profile = OsProfileBuilder::new(ClientOs::Linux).build_with(&facts(ClientOs::Linux), real_identity());

    assert_eq!(profile.computer(), "real-computer");
    assert_eq!(profile.host_id(), "real-host-id");
    assert_eq!(profile.serialno(), "real-serial");
    assert_eq!(profile.mac_addr(), "aa-bb-cc-dd-ee-ff");
}

#[test]
fn native_windows_projection_uses_real_identity_with_dash_mac() {
    let profile = OsProfileBuilder::new(ClientOs::Windows).build_with(&facts(ClientOs::Windows), real_identity());

    assert_eq!(profile.computer(), "real-computer");
    assert_eq!(profile.host_id(), "real-host-id");
    assert_eq!(profile.serialno(), "real-serial");
    assert_eq!(profile.mac_addr(), "aa-bb-cc-dd-ee-ff");
}

#[test]
fn native_macos_projection_uses_real_identity_with_colon_mac() {
    let profile = OsProfileBuilder::new(ClientOs::Mac).build_with(&facts(ClientOs::Mac), real_identity());

    assert_eq!(profile.computer(), "real-computer");
    assert_eq!(profile.host_id(), "real:host:id");
    assert_eq!(profile.serialno(), "real-serial");
    assert_eq!(profile.mac_addr(), "aa:bb:cc:dd:ee:ff");
}

#[test]
fn csc_support_defaults_match_official_profiles() {
    assert!(!ClientOs::Linux.default_csc_support());
    assert!(ClientOs::Mac.default_csc_support());
    assert!(ClientOs::Windows.default_csc_support());
}

#[test]
fn prelogin_param_location_matches_official_profiles() {
    assert_eq!(OsProfileBuilder::new(ClientOs::Linux).build().prelogin_param_location(), PreloginParamLocation::Body);
    assert_eq!(OsProfileBuilder::new(ClientOs::Mac).build().prelogin_param_location(), PreloginParamLocation::Body);
    assert_eq!(OsProfileBuilder::new(ClientOs::Windows).build().prelogin_param_location(), PreloginParamLocation::Query);
}

#[test]
fn embedded_portal_default_browser_is_minus_ten_for_all() {
    for os in [ClientOs::Linux, ClientOs::Mac, ClientOs::Windows] {
        assert_eq!(OsProfileBuilder::new(os).build().portal_default_browser(PreloginBrowserMode::Embedded), "-10");
    }
}

#[test]
fn embedded_gateway_default_browser_is_zero_for_all() {
    for os in [ClientOs::Linux, ClientOs::Mac, ClientOs::Windows] {
        assert_eq!(OsProfileBuilder::new(os).build().gateway_default_browser(PreloginBrowserMode::Embedded), "0");
    }
}

#[test]
fn external_default_browser_values_match_official_profiles() {
    assert_eq!(OsProfileBuilder::new(ClientOs::Linux).build().portal_default_browser(PreloginBrowserMode::External), "4");
    assert_eq!(OsProfileBuilder::new(ClientOs::Mac).build().portal_default_browser(PreloginBrowserMode::External), "3");
    assert_eq!(OsProfileBuilder::new(ClientOs::Windows).build().portal_default_browser(PreloginBrowserMode::External), "2");

    assert_eq!(OsProfileBuilder::new(ClientOs::Linux).build().gateway_default_browser(PreloginBrowserMode::External), "4");
    assert_eq!(OsProfileBuilder::new(ClientOs::Mac).build().gateway_default_browser(PreloginBrowserMode::External), "3");
    assert_eq!(OsProfileBuilder::new(ClientOs::Windows).build().gateway_default_browser(PreloginBrowserMode::External), "2");
}

#[test]
fn saml_password_matches_official_profiles() {
    assert_eq!(OsProfileBuilder::new(ClientOs::Linux).build().saml_password(), "SAMLPASS");
    assert_eq!(OsProfileBuilder::new(ClientOs::Mac).build().saml_password(), "");
    assert_eq!(OsProfileBuilder::new(ClientOs::Windows).build().saml_password(), "");
}

#[test]
fn gateway_server_uses_resolved_ipv4_for_all() {
    assert!(OsProfileBuilder::new(ClientOs::Linux).build().gateway_server_uses_resolved_ipv4());
    assert!(OsProfileBuilder::new(ClientOs::Mac).build().gateway_server_uses_resolved_ipv4());
    assert!(OsProfileBuilder::new(ClientOs::Windows).build().gateway_server_uses_resolved_ipv4());
}

#[test]
fn kerberos_support_in_query_matches_official_profiles() {
    assert!(!OsProfileBuilder::new(ClientOs::Linux).build().kerberos_support_in_query());
    assert!(OsProfileBuilder::new(ClientOs::Mac).build().kerberos_support_in_query());
    assert!(OsProfileBuilder::new(ClientOs::Windows).build().kerberos_support_in_query());
}

#[test]
fn os_vendor_matches_official_profiles() {
    assert_eq!(OsProfileBuilder::new(ClientOs::Linux).build().os_vendor(), "Linux");
    assert_eq!(OsProfileBuilder::new(ClientOs::Mac).build().os_vendor(), "Apple");
    assert_eq!(OsProfileBuilder::new(ClientOs::Windows).build().os_vendor(), "Microsoft");
}

#[test]
fn supports_macos_plist_csc_only_for_mac() {
    assert!(!OsProfileBuilder::new(ClientOs::Linux).build().supports_macos_plist_csc());
    assert!(OsProfileBuilder::new(ClientOs::Mac).build().supports_macos_plist_csc());
    assert!(!OsProfileBuilder::new(ClientOs::Windows).build().supports_macos_plist_csc());
}

#[test]
fn supports_linux_process_csc_only_for_linux() {
    assert!(OsProfileBuilder::new(ClientOs::Linux).build().supports_linux_process_csc());
    assert!(!OsProfileBuilder::new(ClientOs::Mac).build().supports_linux_process_csc());
    assert!(!OsProfileBuilder::new(ClientOs::Windows).build().supports_linux_process_csc());
}

#[test]
fn supports_windows_registry_csc_only_for_windows() {
    assert!(!OsProfileBuilder::new(ClientOs::Linux).build().supports_windows_registry_csc());
    assert!(!OsProfileBuilder::new(ClientOs::Mac).build().supports_windows_registry_csc());
    assert!(OsProfileBuilder::new(ClientOs::Windows).build().supports_windows_registry_csc());
}

#[test]
fn user_agent_derived_format_without_override() {
    let profile = OsProfileBuilder::new(ClientOs::Linux).client_version("6.0.0").build();

    assert_eq!(profile.user_agent(), format!("PAN GlobalProtect/6.0.0 ({})", default_os_version(&ClientOs::Linux)));
}

#[test]
fn user_agent_explicit_override_returns_custom_value() {
    let profile = OsProfileBuilder::new(ClientOs::Linux).client_version("6.0.0").user_agent("custom/1.0").build();

    assert_eq!(profile.user_agent(), "custom/1.0");
}

#[test]
fn user_agent_empty_override_falls_back_to_derived() {
    let profile = OsProfileBuilder::new(ClientOs::Linux).client_version("6.0.0").user_agent("").build();

    assert_eq!(profile.user_agent(), format!("PAN GlobalProtect/6.0.0 ({})", default_os_version(&ClientOs::Linux)));
}

#[test]
fn user_agent_whitespace_only_override_falls_back_to_derived() {
    let profile = OsProfileBuilder::new(ClientOs::Linux).client_version("6.0.0").user_agent("   ").build();

    assert_eq!(profile.user_agent(), format!("PAN GlobalProtect/6.0.0 ({})", default_os_version(&ClientOs::Linux)));
}

#[test]
fn user_agent_derived_is_non_empty_for_all_client_os_variants() {
    for client_os in [ClientOs::Linux, ClientOs::Windows, ClientOs::Mac] {
        let profile = OsProfileBuilder::new(client_os).build();
        assert!(!profile.user_agent().is_empty(), "user_agent() should be non-empty for {:?}", client_os);
    }
}

#[test]
fn native_webview_user_agent_uses_native_default() {
    let profile = OsProfileBuilder::new(runtime_client_os()).build();
    let user_agent = profile.webview_user_agent();
    let transform = match runtime_client_os() {
        ClientOs::Linux => WebviewUserAgentTransform::LinuxPanGpuiVersion,
        ClientOs::Mac | ClientOs::Windows => WebviewUserAgentTransform::Unchanged,
    };

    assert_eq!(user_agent, WebviewUserAgent::Native { prefix: profile.user_agent().to_string(), transform });
}

#[test]
fn projected_linux_webview_user_agent_uses_linux_default() {
    if runtime_client_os() == ClientOs::Linux {
        return;
    }

    let profile = OsProfileBuilder::new(ClientOs::Linux).build();

    assert_eq!(
        profile.webview_user_agent(),
        WebviewUserAgent::Projected {
            prefix: profile.user_agent().to_string(),
            default_user_agent: DEFAULT_LINUX_WEBVIEW_USER_AGENT.to_string()
        }
    );
}

#[test]
fn projected_macos_webview_user_agent_uses_macos_default() {
    if runtime_client_os() == ClientOs::Mac {
        return;
    }

    let profile = OsProfileBuilder::new(ClientOs::Mac).build();

    assert_eq!(
        profile.webview_user_agent(),
        WebviewUserAgent::Projected {
            prefix: profile.user_agent().to_string(),
            default_user_agent: DEFAULT_MACOS_WEBVIEW_USER_AGENT.to_string()
        }
    );
}

#[test]
fn projected_windows_webview_user_agent_uses_windows_default() {
    if runtime_client_os() == ClientOs::Windows {
        return;
    }

    let profile = OsProfileBuilder::new(ClientOs::Windows).build();

    assert_eq!(
        profile.webview_user_agent(),
        WebviewUserAgent::Projected {
            prefix: profile.user_agent().to_string(),
            default_user_agent: DEFAULT_WINDOWS_WEBVIEW_USER_AGENT.to_string()
        }
    );
}

#[test]
fn os_version_strings_match_profiles() {
    assert!(default_os_version(&ClientOs::Linux).starts_with("Linux "));
    assert!(default_os_version(&ClientOs::Mac).starts_with("Apple Mac OS X "));
    assert!(default_os_version(&ClientOs::Windows).starts_with("Microsoft "));
    assert_eq!(default_software_version(&ClientOs::Linux), "");
    assert!(!default_software_version(&ClientOs::Mac).is_empty());
    assert!(!default_software_version(&ClientOs::Windows).is_empty());
}

#[test]
fn builder_fills_defaults_when_nothing_specified() {
    let profile = OsProfileBuilder::new(ClientOs::Linux).build();

    assert_eq!(profile.client_os(), ClientOs::Linux);
    assert!(!profile.computer().is_empty());
    assert!(profile.os_version().starts_with("Linux "));
    assert_eq!(profile.client_version(), GP_CLIENT_VERSION_LINUX);
    assert!(!profile.host_id().is_empty());
}

#[test]
fn builder_delegates_default_identity_to_host_identity() {
    let expected = HostIdentity::collect();
    let profile = OsProfileBuilder::new(runtime_client_os()).host_identity(expected.clone()).build();

    assert_eq!(profile.host_identity(), &expected);
}

#[test]
fn builder_host_id_override_uses_supplied_runtime_identity_seed() {
    let profile = OsProfileBuilder::new(runtime_client_os()).host_id_override("provided-host-id").build();

    assert_eq!(profile.host_identity().host_id(), "provided-host-id");
}

#[test]
fn builder_host_id_override_is_used_as_projected_identity_seed() {
    let client_os = non_native_client_os();

    let first = OsProfileBuilder::new(client_os).host_id_override("provided-host-id").build();
    let second = OsProfileBuilder::new(client_os).host_id_override("provided-host-id").build();

    assert_eq!(first.host_identity().host_id(), "provided-host-id");
    assert_eq!(first.host_id(), second.host_id());
    assert_ne!(first.host_id(), "provided-host-id");
}

#[test]
fn builder_uses_explicit_values_when_provided() {
    let identity = HostIdentity::new(
        "identity-computer".to_string(),
        "test-host-id".to_string(),
        "test-serial".to_string(),
        "aa:bb:cc:dd:ee:ff".to_string(),
    );
    let profile = OsProfileBuilder::new(ClientOs::Mac)
        .computer_name_override("MyMac")
        .client_version("6.2.0-100")
        .host_identity(identity.clone())
        .build();

    assert_eq!(profile.client_os(), ClientOs::Mac);
    assert_eq!(profile.computer(), "MyMac");
    assert!(profile.os_version().starts_with("Apple Mac OS X "));
    assert_eq!(profile.client_version(), "6.2.0-100");
    assert_eq!(profile.host_identity(), &identity);
    assert!(!profile.host_id().is_empty());
    assert!(!profile.serialno().is_empty());
    assert!(!profile.mac_addr().is_empty());
}

#[test]
fn builder_ignores_empty_strings() {
    let profile = OsProfileBuilder::new(ClientOs::Windows).computer_name_override("").client_version("").build();

    assert!(!profile.computer().is_empty());
    assert!(profile.os_version().starts_with("Microsoft "));
    assert_eq!(profile.client_version(), GP_CLIENT_VERSION_WINDOWS);
}

#[test]
fn identity_accessors_delegate_to_host_identity() {
    let identity = HostIdentity::new(
        "test-computer".to_string(),
        "host-123".to_string(),
        "serial-456".to_string(),
        "11:22:33:44:55:66".to_string(),
    );
    let profile = OsProfileBuilder::new(runtime_client_os()).host_identity(identity).build();

    assert!(!profile.host_id().is_empty());
    assert_eq!(profile.serialno(), "serial-456");
    assert!(!profile.mac_addr().is_empty());
}

#[test]
fn local_hostname_override_changes_only_projected_computer() {
    let identity = HostIdentity::new(
        "real-computer".to_string(),
        "real-host-id".to_string(),
        "real-serial".to_string(),
        "11:22:33:44:55:66".to_string(),
    );

    let profile = OsProfileBuilder::new(runtime_client_os())
        .host_identity(identity)
        .computer_name_override("profile-computer")
        .build();

    assert_eq!(profile.computer(), "profile-computer");
    assert_eq!(profile.host_identity().computer(), "real-computer");
}

#[test]
fn simulated_profile_identity_is_derived_from_real_host_id() {
    let client_os = non_native_client_os();
    let identity = HostIdentity::new(
        "real-computer".to_string(),
        "stable-real-host-id".to_string(),
        "real-serial".to_string(),
        "11:22:33:44:55:66".to_string(),
    );

    let first = OsProfileBuilder::new(client_os).host_identity(identity.clone()).build();
    let second = OsProfileBuilder::new(client_os).host_identity(identity).build();

    assert_eq!(first.host_identity().host_id(), "stable-real-host-id");
    assert_ne!(first.host_id(), "stable-real-host-id");
    assert_eq!(first.host_id(), second.host_id());
    assert_eq!(first.serialno(), second.serialno());
    assert_eq!(first.mac_addr(), second.mac_addr());
}

#[test]
fn simulated_linux_serial_uses_vmware_style_uuid_bytes() {
    if runtime_client_os() == ClientOs::Linux {
        return;
    }

    let identity = HostIdentity::new(
        "real-computer".to_string(),
        "stable-real-host-id".to_string(),
        "real-serial".to_string(),
        "11:22:33:44:55:66".to_string(),
    );

    let profile = OsProfileBuilder::new(ClientOs::Linux).host_identity(identity).build();

    assert!(profile.serialno().starts_with("VMware-"));
    assert_eq!(profile.serialno().len(), "VMware-56 4d 78 5a 61 64 ac 19-9e a9 d3 6a 3b 9c 6c ef".len());
}

#[test]
fn profile_os_versions_are_not_host_identity_fields() {
    let identity = HostIdentity::new(
        "real-computer".to_string(),
        "stable-real-host-id".to_string(),
        "real-serial".to_string(),
        "11:22:33:44:55:66".to_string(),
    );
    let profile = OsProfileBuilder::new(ClientOs::Mac).host_identity(identity).build();

    assert!(profile.os_version().starts_with("Apple Mac OS X "));
    assert!(!profile.software_version().is_empty());
}

#[test]
fn projected_linux_profile_on_another_machine() {
    let profile = OsProfileBuilder::new(ClientOs::Linux).build_with(&facts(ClientOs::Mac), real_identity());
    assert!(profile.serialno().starts_with("VMware-"));
    assert_mac(profile.mac_addr(), '-');
    assert_eq!(profile.computer(), "real-computer");
    assert_eq!(profile.host_id().len(), 36);
}

// ─── client parameters ───────────────────────────────────────────────────

#[test]
fn default_client_versions_match_observed_official_clients() {
    assert_eq!(ClientOs::Linux.default_client_version(), "6.3.3-619");
    assert_eq!(ClientOs::Windows.default_client_version(), "6.3.3-650");
    assert_eq!(ClientOs::Mac.default_client_version(), "6.3.3-915");
}

#[test]
fn builder_uses_os_profile_client_version_when_unspecified() {
    let params = GpParams::builder(profile(ClientOs::Mac)).build();

    assert_eq!(params.client_version(), Some("6.3.3-915"));
}

#[test]
fn builder_keeps_explicit_client_version() {
    let profile = OsProfile::builder(ClientOs::Mac).client_version("6.2.9-1").build();
    let params = GpParams::builder(profile).build();

    assert_eq!(params.client_version(), Some("6.2.9-1"));
}

#[test]
fn builder_uses_os_profile_version_when_unspecified() {
    let params = GpParams::builder(profile(ClientOs::Mac)).build();
    let default_os_version = ClientOs::Mac.default_os_version();

    assert_eq!(params.os_version(), Some(default_os_version.as_str()));
}

#[test]
fn os_profile_accessor_returns_profile() {
    let params = GpParams::builder(profile(ClientOs::Linux)).build();
    let profile = params.os_profile();

    assert_eq!(profile.client_os(), ClientOs::Linux);
}

#[test]
fn delegates_identity_to_os_profile() {
    let identity = HostIdentity::new(
        "test-computer".to_string(),
        "test-host-id".to_string(),
        "test-serial".to_string(),
        "aa:bb:cc:dd:ee:ff".to_string(),
    );
    let params = GpParams::builder(OsProfile::builder(ClientOs::Linux).host_identity(identity).build()).build();

    assert!(!params.host_id().is_empty());
    assert_eq!(params.host_identity().host_id(), "test-host-id");
    assert_eq!(params.host_identity().serialno(), "test-serial");
    assert_eq!(params.host_identity().mac_addr(), "aa:bb:cc:dd:ee:ff");
}

#[test]
fn builder_accepts_pre_built_os_profile() {
    let profile = OsProfile::builder(ClientOs::Mac).computer_name_override("MyMac").build();
    let expected_os_version = profile.os_version().to_string();

    let params = GpParams::builder(profile).build();

    assert_eq!(params.computer(), "MyMac");
    assert_eq!(params.os_version(), Some(expected_os_version.as_str()));
    assert_eq!(params.client_os(), "Mac");
}

#[test]
fn delegates_computer_to_os_profile() {
    let profile = OsProfile::builder(ClientOs::Mac).computer_name_override("MyComputer").build();
    let params = GpParams::builder(profile).build();

    assert_eq!(params.computer(), "MyComputer");
    assert_eq!(params.computer(), params.os_profile().computer());
}

#[test]
fn delegates_client_os_string_to_os_profile() {
    let params = GpParams::builder(profile(ClientOs::Windows)).build();

    assert_eq!(params.client_os(), "Windows");
    assert_eq!(params.client_os(), params.os_profile().client_os().as_str());
}

#[test]
fn delegates_host_identity_to_os_profile() {
    let identity = HostIdentity::new(
        "delegated-computer".to_string(),
        "delegated-host".to_string(),
        "delegated-serial".to_string(),
        "01:02:03:04:05:06".to_string(),
    );
    let params = GpParams::builder(OsProfile::builder(ClientOs::Linux).host_identity(identity.clone()).build()).build();

    assert_eq!(params.host_identity(), params.os_profile().host_identity());
    assert_eq!(params.host_identity().host_id(), "delegated-host");
    assert_eq!(params.host_identity().serialno(), "delegated-serial");
    assert_eq!(params.host_identity().mac_addr(), "01:02:03:04:05:06");
}

#[test]
fn builder_uses_provided_os_profile() {
    let identity = HostIdentity::new(
        "identity-host".to_string(),
        "host-7".to_string(),
        "serial-7".to_string(),
        "aa:bb:cc:11:22:33".to_string(),
    );
    let profile = OsProfile::builder(ClientOs::Linux)
        .computer_name_override("linux-host")
        .client_version("6.0.0-1")
        .host_identity(identity)
        .build();
    let params = GpParams::builder(profile).build();

    let profile = params.os_profile();
    assert_eq!(profile.client_os(), ClientOs::Linux);
    assert_eq!(profile.computer(), "linux-host");
    assert_eq!(profile.os_version(), ClientOs::Linux.default_os_version());
    assert_eq!(profile.client_version(), "6.0.0-1");
    assert_eq!(profile.host_identity().host_id(), "host-7");
    assert_eq!(profile.host_identity().serialno(), "serial-7");
    assert_eq!(profile.host_identity().mac_addr(), "aa:bb:cc:11:22:33");
    assert!(!profile.host_id().is_empty());
    assert!(!profile.serialno().is_empty());
    assert!(!profile.mac_addr().is_empty());
}

#[test]
fn user_agent_delegates_to_os_profile_for_default_build() {
    let params = GpParams::builder(profile(runtime_client_os())).build();

    assert_eq!(params.user_agent(), params.os_profile().user_agent());
}

#[test]
fn builder_uses_profile_user_agent() {
    let params = GpParams::builder(OsProfile::builder(runtime_client_os()).user_agent("custom").build()).build();

    assert_eq!(params.user_agent(), "custom");
}

#[test]
fn builder_os_profile_without_user_agent_delegates_to_profile() {
    let profile = OsProfile::builder(ClientOs::Mac).client_version("6.1.0").build();
    let expected_ua = profile.user_agent().to_string();

    let params = GpParams::builder(profile).build();

    assert_eq!(params.user_agent(), expected_ua);
}

#[test]
fn profile_user_agent_override_wins_before_gp_params_construction() {
    let profile = OsProfile::builder(ClientOs::Mac).client_version("6.1.0").user_agent("override").build();
    let params = GpParams::builder(profile).build();

    assert_eq!(params.user_agent(), "override");
}

#[test]
fn csc_mode_names_round_trip() {
    for mode in [CscMode::Auto, CscMode::Yes, CscMode::No] {
        assert_eq!(CscMode::from_str(mode.as_str()).unwrap(), mode);
        assert_eq!(CscMode::from_str(&mode.as_str().to_uppercase()).unwrap(), mode);
    }
    assert_eq!(CscMode::from_str("maybe").unwrap_err(), "Invalid CSC mode: maybe");
    assert!(!CscMode::Auto.effective(ClientOs::Linux));
    assert!(CscMode::Auto.effective(ClientOs::Mac));
    assert!(CscMode::Yes.effective(ClientOs::Linux));
    assert!(!CscMode::No.effective(ClientOs::Windows));
}

#[test]
fn client_os_names_round_trip() {
    for os in [ClientOs::Linux, ClientOs::Windows, ClientOs::Mac] {
        assert_eq!(ClientOs::from(os.as_str()), os);
    }
    assert_eq!(ClientOs::from("Solaris"), ClientOs::Linux);
}

#[test]
fn normalize_uuid_preserves_real_uuid_identity() {
    assert_eq!(
        normalize_uuid("5A784D56-6461-19AC-9EA9-D36A3B9C6CEF"),
        Some("5a784d56-6461-19ac-9ea9-d36a3b9c6cef".to_string())
    );
    assert_eq!(normalize_uuid("not-a-uuid"), None);
}

#[test]
fn normalizing_a_mac_twice_normalizes_once() {
    let once = normalize_mac_colon(" AA-BB-CC-DD-EE-FF ").unwrap();
    assert_eq!(once, "aa:bb:cc:dd:ee:ff");
    assert_eq!(normalize_mac_colon(&once), Some(once.clone()));
}

#[test]
fn identity_parts_are_filled_and_well_formed() {
    let identity = HostIdentity::new("".to_string(), "".to_string(), " ".to_string(), "not a mac".to_string());
    assert!(!identity.host_id().trim().is_empty());
    assert!(identity.serialno().starts_with("VMware-"));
    let mac = identity.mac_addr();
    assert_eq!(mac.len(), 17);
    assert_eq!(normalize_mac_colon(mac).as_deref(), Some(mac));
    assert_eq!(mac, mac.to_lowercase());
}
