use gpapi::credential::{Credential, PasswordCredential};
use gpapi::gp_params::GpParams;
use gpapi::os_profile::host_identity::HostIdentity;
use gpapi::os_profile::{ClientOs, OsProfile, PreloginBrowserMode};
use gpapi::params::{gateway_prelogin, portal_prelogin};
use gpapi::portal::config::{
    detection_candidates, internal_host_detect, parse_allow_extend_session, parse_connect_method,
    parse_default_browser, parse_portal_config, resolves_back,
};
use gpapi::portal::csc::{csc_params, is_config_criteria, nonce_from_millis, pan_md5_hex, CscRequest, DIGEST_PLACEHOLDER};
use gpapi::portal::csc_report::{build_csc_request_with_reader, CscBuildSummary, CscDataReader};
use gpapi::os_profile::{OsProfileBuilder, RuntimeFacts};
use std::collections::HashMap;
use gpapi::portal::prelogin::{parse_res_xml, Prelogin, PreloginOptions};
use gpapi::xml::{parse_xml, XmlElement};

fn xml(text: &str) -> XmlElement {
    parse_xml(text).unwrap()
}

fn gp_params(client_os: ClientOs) -> GpParams {
    let profile = OsProfile::builder(client_os)
        .host_identity(HostIdentity::new(
            "test-computer".to_string(),
            "host-id".to_string(),
            "serial".to_string(),
            "aa:bb:cc:dd:ee:ff".to_string(),
        ))
        .build();
    GpParams::builder(profile).build()
}

#[test]
fn portal_prelogin_params_include_official_profile_fields() {
    let gp_params = gp_params(ClientOs::Linux);
    let request_params = portal_prelogin::build(gp_params.os_profile(), PreloginBrowserMode::Embedded);

    let body: std::collections::HashMap<&str, &str> =
        request_params.body.iter().map(|(k, v)| (k.as_str(), v.as_str())).collect();
    let query: std::collections::HashMap<&str, &str> =
        request_params.query.iter().map(|(k, v)| (k.as_str(), v.as_str())).collect();

    assert_eq!(body.get("host-id"), Some(&gp_params.os_profile().host_id()));
    assert_eq!(body.get("default-browser"), Some(&"-10"));
    assert_eq!(body.get("cas-support"), Some(&"yes"));
    assert_eq!(body.get("data"), Some(&r#"eyJjYXNfZW1iZWRkZWRfYnJvd3NlciI6InllcyJ9"#));
    assert_eq!(query.get("kerberos-support"), None);
}

#[test]
fn gateway_prelogin_uses_gateway_default_browser() {
    let gp_params = gp_params(ClientOs::Mac);
    let request_params = gateway_prelogin::build(gp_params.os_profile(), PreloginBrowserMode::Embedded);

    let body: std::collections::HashMap<&str, &str> =
        request_params.body.iter().map(|(k, v)| (k.as_str(), v.as_str())).collect();

    assert_eq!(body.get("default-browser"), Some(&"0"));
}

#[test]
fn browser_mode_uses_external_for_portal_when_requested() {
    let options = PreloginOptions::default().external_browser_requested(true);

    assert_eq!(options.browser_mode(false), PreloginBrowserMode::External);
}

#[test]
fn browser_mode_requires_gateway_external_browser_allowed_for_gateway_external() {
    let options = PreloginOptions::default().external_browser_requested(true);

    assert_eq!(options.browser_mode(true), PreloginBrowserMode::Embedded);

    let options = options.gateway_external_browser_allowed(true);

    assert_eq!(options.browser_mode(true), PreloginBrowserMode::External);
}

#[test]
fn parses_saml_and_standard_prelogin_answers() {
    let saml = r#"<prelogin-response><status>Success</status><saml-auth-method>REDIRECT</saml-auth-method><saml-request>aHR0cHM6Ly9zc28uZXhhbXBsZS5jb20=</saml-request><region>US</region></prelogin-response>"#;
    match parse_res_xml(saml, false).unwrap() {
        Prelogin::Saml(p) => {
            assert_eq!(p.saml_request(), "https://sso.example.com");
            assert_eq!(p.region(), "US");
        }
        Prelogin::Standard(_) => panic!("expected SAML"),
    }
    let standard = r#"<prelogin-response><status>Success</status><authentication-message>Enter login</authentication-message><username-label>User</username-label><password-label>Pass</password-label></prelogin-response>"#;
    match parse_res_xml(standard, true).unwrap() {
        Prelogin::Standard(p) => {
            assert_eq!(p.auth_message(), "Enter login");
            assert_eq!(p.label_username(), "User");
            assert_eq!(p.label_password(), "Pass");
        }
        Prelogin::Saml(_) => panic!("expected standard"),
    }
    let refused = r#"<prelogin-response><status>Error</status><msg>Denied</msg></prelogin-response>"#;
    assert!(parse_res_xml(refused, false).is_err());
}

#[test]
fn parses_allow_extend_session_yes() {
    assert_eq!(parse_allow_extend_session(&xml("<response><allow-extend-session>yes</allow-extend-session></response>")), Some(true));
}

#[test]
fn parses_allow_extend_session_no() {
    assert_eq!(parse_allow_extend_session(&xml("<response><allow-extend-session>no</allow-extend-session></response>")), Some(false));
}

#[test]
fn leaves_absent_allow_extend_session_unknown() {
    assert_eq!(parse_allow_extend_session(&xml("<response></response>")), None);
}

#[test]
fn ignores_non_official_allow_extend_session_values() {
    assert_eq!(parse_allow_extend_session(&xml("<response><allow-extend-session>true</allow-extend-session></response>")), None);
}

#[test]
fn parses_default_browser_yes() {
    assert_eq!(parse_default_browser(&xml("<response><default-browser>yes</default-browser></response>")), Some(true));
}

#[test]
fn parses_default_browser_no() {
    assert_eq!(parse_default_browser(&xml("<response><default-browser>no</default-browser></response>")), Some(false));
}

#[test]
fn leaves_absent_default_browser_unknown() {
    assert_eq!(parse_default_browser(&xml("<response></response>")), None);
}

#[test]
fn parses_connect_method() {
    assert_eq!(parse_connect_method(&xml("<policy><connect-method>on-demand</connect-method></policy>")).as_deref(), Some("on-demand"));
}

#[test]
fn parses_csc_policy_response_as_portal_config() {
    let root = xml(
        r#"<policy>
        <portal-userauthcookie>user-cookie</portal-userauthcookie>
        <portal-prelogonuserauthcookie>prelogon-cookie</portal-prelogonuserauthcookie>
        <gateways>
          <external>
            <list>
              <entry name="US_East">
                <description>us1.vpn.example.com</description>
              </entry>
            </list>
          </external>
        </gateways>
      </policy>"#,
    );
    let cred = Credential::from(PasswordCredential::new("alice", "secret"));

    let config = parse_portal_config("vpn.example.com", &cred, &root);

    assert_eq!(config.auth_cookie().user_auth_cookie(), "user-cookie");
    assert_eq!(config.auth_cookie().prelogon_user_auth_cookie(), "prelogon-cookie");
    assert_eq!(config.gateways().len(), 1);
}

#[test]
fn detects_config_criteria_response() {
    assert!(is_config_criteria(&xml("<config-criteria/>")));
    assert!(!is_config_criteria(&xml("<policy/>")));
}

#[test]
fn uses_pan_non_padded_md5_digest() {
    assert_eq!(pan_md5_hex(b""), "d41d8cd98f0b24e980998ecf8427e");
    assert_ne!(pan_md5_hex(b""), format!("{:x}", md5::compute(b"")));
}

#[test]
fn builds_getconfig_csc_params() {
    let req = CscRequest {
        auth_cookie: "cookie".to_string(),
        config_digest: "config-digest".to_string(),
        csc_digest: "csc-digest".to_string(),
        csc_data: "<hip-report><host-id>host</host-id><device-serial-number>serial</device-serial-number></hip-report>"
            .to_string(),
        host_id: "host".to_string(),
        serial_number: "serial".to_string(),
        summary: CscBuildSummary::default(),
    };
    let nonce = "123";
    let gp_params = gp_params(ClientOs::Mac);
    let params = csc_params(&req, "alice", &gp_params, nonce);

    assert_eq!(params.get("user").map(String::as_str), Some("alice"));
    assert_eq!(params.get("hostid").map(String::as_str), Some("host"));
    assert_eq!(params.get("serialno").map(String::as_str), Some("serial"));
    assert_eq!(params.get("portal-cc-auth-cookie").map(String::as_str), Some("cookie"));
    assert_eq!(params.get("config-digest").map(String::as_str), Some("config-digest"));
    assert_eq!(params.get("csc-digest").map(String::as_str), Some("csc-digest"));
    assert_eq!(params.get("csc-data").map(String::as_str), Some(req.csc_data.as_str()));
    assert_eq!(params.get("swg-auth-token").map(String::as_str), Some("0"));
    assert_eq!(params.get("swg-nonce").map(String::as_str), Some("123"));
}

#[test]
fn swg_nonce_wraps_at_the_signed_limit() {
    assert_eq!(nonce_from_millis(5), "5");
    assert_eq!(nonce_from_millis(2_147_483_647), "0");
    assert_eq!(nonce_from_millis(2_147_483_648), "1");
}

struct TestCscDataReader {
    values: HashMap<String, String>,
    processes: Vec<String>,
}

impl CscDataReader for TestCscDataReader {
    fn read_preference(&self, domain: &str, key: &str) -> Option<String> {
        self.values.get(&format!("{domain}:{key}")).cloned()
    }

    fn process_exists(&self, name: &str) -> bool {
        self.processes.iter().any(|p| p == name)
    }
}

/// Client parameters whose operating system reports `Apple Mac OS X
/// 26.4.1` for macOS.
fn csc_gp_params(client_os: ClientOs) -> GpParams {
    let facts = RuntimeFacts {
        runtime_os: ClientOs::Mac,
        distro: None,
        os_version: Some("26.4.1".to_string()),
        os_edition: None,
    };
    let identity = HostIdentity::new(
        "test-computer".to_string(),
        "host-id".to_string(),
        "serial".to_string(),
        "aa:bb:cc:dd:ee:ff".to_string(),
    );
    GpParams::builder(OsProfileBuilder::new(client_os).build_with(&facts, identity)).build()
}

#[test]
fn builds_macos_plist_csc_report_with_existing_value() {
    let root = xml(
        r#"<config-criteria>
        <custom-checks>
          <mac-os>
            <plist>
              <entry name="com.example.settings">
                <key><member>ExampleKey</member></key>
              </entry>
            </plist>
          </mac-os>
        </custom-checks>
        <portal-csc-auth-cookie>cookie</portal-csc-auth-cookie>
      </config-criteria>"#,
    );
    let reader = TestCscDataReader {
        values: HashMap::from([("com.example.settings:ExampleKey".to_string(), "ExampleValue".to_string())]),
        processes: Vec::new(),
    };

    let req = build_csc_request_with_reader(&root, "alice@example.com", &csc_gp_params(ClientOs::Mac), "host", "serial", &reader)
        .unwrap();

    assert_eq!(req.auth_cookie, "cookie");
    assert!(req.csc_data.contains("<user-name>alice%40example.com</user-name>"));
    assert!(req.csc_data.contains("<client-os>Apple+Mac+OS+X+26.4.1</client-os>"));
    assert!(req.csc_data.contains("<exist>yes</exist>"));
    assert!(req.csc_data.contains("<value>ExampleValue</value>"));
    assert!(req.csc_data.contains(&format!("<csc-digest>{}</csc-digest>", req.csc_digest)));
    assert!(!req.csc_data.contains(DIGEST_PLACEHOLDER));
}

#[test]
fn reports_missing_macos_plist_value() {
    let root = xml(
        r#"<config-criteria>
        <custom-checks>
          <mac-os>
            <plist>
              <entry name="com.example"><key><member>Missing</member></key></entry>
            </plist>
          </mac-os>
        </custom-checks>
        <portal-csc-auth-cookie>cookie</portal-csc-auth-cookie>
      </config-criteria>"#,
    );
    let reader = TestCscDataReader { values: HashMap::new(), processes: Vec::new() };

    let req = build_csc_request_with_reader(&root, "alice", &csc_gp_params(ClientOs::Mac), "host", "serial", &reader).unwrap();

    assert!(req.csc_data.contains("<exist>no</exist>"));
    assert!(req.csc_data.contains("<value />") || req.csc_data.contains("<value></value>"));
}

#[test]
fn unsupported_client_os_ignores_macos_plist_branch() {
    let root = xml(
        r#"<config-criteria>
        <custom-checks>
          <mac-os>
            <plist>
              <entry name="com.example"><key><member>HipID</member></key></entry>
            </plist>
          </mac-os>
        </custom-checks>
        <portal-csc-auth-cookie>cookie</portal-csc-auth-cookie>
      </config-criteria>"#,
    );
    let reader = TestCscDataReader {
        values: HashMap::from([("com.example:HipID".to_string(), "present".to_string())]),
        processes: Vec::new(),
    };

    let req = build_csc_request_with_reader(&root, "alice", &csc_gp_params(ClientOs::Linux), "host", "serial", &reader).unwrap();

    assert!(!req.csc_data.contains("<plist>"));
    assert!(!req.csc_data.contains("<exist>no</exist>"));
    assert!(!req.csc_data.contains("present"));
}

#[test]
fn builds_linux_process_list_report() {
    let root = xml(
        r#"<config-criteria>
        <custom-checks>
          <linux>
            <process-list>
              <entry name="present-process" />
              <entry name="missing-process" />
            </process-list>
          </linux>
        </custom-checks>
        <portal-csc-auth-cookie>cookie</portal-csc-auth-cookie>
      </config-criteria>"#,
    );
    let reader = TestCscDataReader { values: HashMap::new(), processes: vec!["present-process".to_string()] };

    let req = build_csc_request_with_reader(&root, "alice", &csc_gp_params(ClientOs::Linux), "host", "serial", &reader).unwrap();

    assert!(req.csc_data.contains(r#"<entry name="present-process">"#));
    assert!(req.csc_data.contains("<value>present-process</value>"));
    assert!(req.csc_data.contains(r#"<entry name="missing-process">"#));
    assert!(req.summary().contains("process_entries=2"));
    assert!(req.summary().contains("process_present=1"));
    assert!(req.summary().contains("process_missing=1"));
}

#[test]
fn generated_getconfig_csc_params_include_final_digest_and_data() {
    let root = xml(
        r#"<config-criteria>
        <custom-checks />
        <portal-csc-auth-cookie>cookie</portal-csc-auth-cookie>
      </config-criteria>"#,
    );
    let reader = TestCscDataReader { values: HashMap::new(), processes: Vec::new() };
    let gp_params = csc_gp_params(ClientOs::Linux);
    let req = build_csc_request_with_reader(&root, "alice", &gp_params, "host", "serial", &reader).unwrap();
    let params = csc_params(&req, "alice", &gp_params, "123");

    assert_eq!(params.get("csc-digest").map(String::as_str), Some(req.csc_digest.as_str()));
    assert_eq!(params.get("csc-data").map(String::as_str), Some(req.csc_data.as_str()));
    assert!(req.csc_data.contains(&format!("<csc-digest>{}</csc-digest>", req.csc_digest)));
    assert!(!req.csc_data.contains(DIGEST_PLACEHOLDER));
}

#[test]
fn criteria_without_cookie_are_refused() {
    let root = xml("<config-criteria><custom-checks /></config-criteria>");
    let reader = TestCscDataReader { values: HashMap::new(), processes: Vec::new() };
    let err = build_csc_request_with_reader(&root, "alice", &csc_gp_params(ClientOs::Linux), "host", "serial", &reader).unwrap_err();
    assert_eq!(err, "CSC criteria response does not contain portal-csc-auth-cookie");
}

#[test]
fn process_names_are_sorted_and_unique() {
    let list = xml("<process-list><member> b </member><member>a</member><member> </member><entry name=\"b\"/><entry name=\"c\"/></process-list>");
    let names = gpapi::portal::csc_report::process_list_names(&list);
    assert_eq!(names, vec!["a".to_string(), "b".to_string(), "c".to_string()]);
}

#[test]
fn detection_candidates_keep_complete_pairs_in_order() {
    let root = parse_xml(
        "<internal-host-detection><ip-address>10.0.0.1</ip-address><host>intra.example.com</host>\
         <ipv6-address></ipv6-address><ipv6-host>intra6.example.com</ipv6-host></internal-host-detection>",
    )
    .unwrap();
    assert_eq!(
        detection_candidates(&root),
        vec![("10.0.0.1".to_string(), "intra.example.com".to_string())]
    );
}

#[test]
fn detection_without_candidates_is_outside() {
    let root = parse_xml("<internal-host-detection><host>intra.example.com</host></internal-host-detection>").unwrap();
    assert!(detection_candidates(&root).is_empty());
    assert!(!internal_host_detect(&root));
}

#[test]
fn reverse_lookup_match_ignores_case() {
    assert!(resolves_back(Some("Intra.Example.COM".to_string()), "intra.example.com"));
    assert!(!resolves_back(Some("other.example.com".to_string()), "intra.example.com"));
    assert!(!resolves_back(None, "intra.example.com"));
}

#[test]
fn refused_prelogin_reports_the_portal_message() {
    let refused = r#"<prelogin-response><status>Error</status><msg>Denied</msg></prelogin-response>"#;
    assert_eq!(parse_res_xml(refused, false).unwrap_err(), "Denied");
    let silent = r#"<prelogin-response><status>Error</status></prelogin-response>"#;
    assert_eq!(parse_res_xml(silent, false).unwrap_err(), "Unknown error");
    let no_status = r#"<prelogin-response></prelogin-response>"#;
    assert_eq!(parse_res_xml(no_status, false).unwrap_err(), "Prelogin response does not contain status element");
    assert!(!parse_res_xml("<unclosed>", false).unwrap_err().is_empty());
}
