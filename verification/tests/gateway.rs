use gpapi::credential::{Credential, PasswordCredential};
use gpapi::gateway::hip::{build_csd_token, client_ip_from_response, hip_check_params, is_hip_needed, merge_cookie_params};
use gpapi::gateway::login::{build_gateway_login_params, build_gateway_token, lines, parse_gateway_login_response, parse_mfa, GatewayLogin};
use gpapi::gateway::parse_gateways::parse_gateways;
use gpapi::gateway::session::{
    build_extend_session_form, build_extend_session_form_at, check_extend_session_status, parse_cookie_form,
    parse_extend_session_status, validate_extension_login, SessionContext, EXTEND_SESSION_COMMENT,
    EXTEND_SESSION_MESSAGE,
};
use gpapi::gateway::{Gateway, GatewayKind, GatewayLoginContext, GatewaySelection};
use gpapi::gp_params::GpParams;
use gpapi::os_profile::{runtime_client_os, ClientOs, OsProfileBuilder};
use gpapi::params::ParamMap;
use gpapi::session::SessionRequestArgs;
use gpapi::xml::parse_xml;

fn default_gp_params() -> GpParams {
    GpParams::builder(OsProfileBuilder::new(runtime_client_os()).build()).build()
}

#[test]
fn mfa() {
    let res = r#"var respStatus = "Challenge";
var respMsg = "MFA message";
thisForm.inputStr.value = "5ef64e83000119ed";"#;

    let (message, input_str) = parse_mfa(res).unwrap();
    assert_eq!(message, "MFA message");
    assert_eq!(input_str, "5ef64e83000119ed");
}

#[test]
fn normal_gateway_login_params_do_not_extend_lifetime() {
    let cred = Credential::Password(PasswordCredential::new("alice", "secret"));
    let gp_params = default_gp_params();

    let params = build_gateway_login_params("vpn.example.com", &cred, &gp_params, None, None, false);

    assert!(!params.contains_key("extend-lifetime"));
    assert!(!params.contains_key("host"));
    assert!(!params.contains_key("gw"));
    assert!(!params.contains_key("gateway-name"));
    assert!(!params.contains_key("connect-method"));
    assert!(!params.contains_key("selection-type"));
    assert!(!params.contains_key("internal"));
    assert!(!params.contains_key("client-ip"));
    assert!(!params.contains_key("client-ipv6"));
}

#[test]
fn extension_gateway_login_params_extend_lifetime() {
    let cred = Credential::Password(PasswordCredential::new("alice", "secret"));
    let gp_params = default_gp_params();

    let params = build_gateway_login_params("vpn.example.com", &cred, &gp_params, None, None, true);

    assert_eq!(params.get("extend-lifetime").map(String::as_str), Some("true"));
}

#[test]
fn gateway_login_params_include_official_context_fields() {
    let cred = Credential::Password(PasswordCredential::new("alice", "secret"));
    let gp_params = default_gp_params();
    let gateway = Gateway {
        name: "US_East".to_string(),
        address: "us1.vpn.example.com".to_string(),
        kind: GatewayKind::External,
        priority: 1,
        priority_rules: vec![],
    };
    let context = GatewayLoginContext::new(&gateway, GatewaySelection::Auto)
        .with_connect_method(Some("on-demand"))
        .with_client_version(Some("6.3.3-915"));

    let params = build_gateway_login_params(
        "us1.vpn.example.com",
        &cred,
        &gp_params,
        Some(&context),
        Some("192.168.0.102"),
        false,
    );

    assert_eq!(params.get("host").map(String::as_str), Some("us1.vpn.example.com"));
    assert_eq!(params.get("gw").map(String::as_str), Some("US_East"));
    assert_eq!(params.get("gateway-name").map(String::as_str), Some("US_East"));
    assert_eq!(params.get("connect-method").map(String::as_str), Some("on-demand"));
    assert_eq!(params.get("selection-type").map(String::as_str), Some("auto"));
    assert_eq!(params.get("internal").map(String::as_str), Some("no"));
    assert_eq!(params.get("clientgpversion").map(String::as_str), Some("6.3.3-915"));
    assert_eq!(params.get("client-ip").map(String::as_str), Some("192.168.0.102"));
    assert_eq!(params.get("client-ipv6").map(String::as_str), Some(""));
}

#[test]
fn manual_gateway_selection_maps_to_manual_param() {
    let cred = Credential::Password(PasswordCredential::new("alice", "secret"));
    let gp_params = default_gp_params();
    let gateway = Gateway::new("Gateway".to_string(), "vpn.example.com".to_string());
    let context = GatewayLoginContext::new(&gateway, GatewaySelection::Manual);

    let params = build_gateway_login_params("vpn.example.com", &cred, &gp_params, Some(&context), None, false);

    assert_eq!(params.get("selection-type").map(String::as_str), Some("manual"));
}

#[test]
fn gateway_token_keeps_upstream_cookie_fields() {
    let res = r#"
<jnlp>
  <application-desc>
    <argument></argument>
    <argument>AUTHCOOKIE</argument>
    <argument>PERSISTENTCOOKIE</argument>
    <argument>vpn.example.com</argument>
    <argument>alice</argument>
    <argument>LDAP-auth</argument>
    <argument>vsys1</argument>
    <argument>%28empty_domain%29</argument>
    <argument></argument>
    <argument></argument>
    <argument></argument>
    <argument></argument>
    <argument>tunnel</argument>
    <argument>-1</argument>
    <argument>4100</argument>
    <argument>10.0.0.10</argument>
    <argument>unused-user-cookie</argument>
    <argument>unused-prelogon-cookie</argument>
    <argument>2001:db8::10</argument>
  </application-desc>
</jnlp>
"#;

    let root = parse_xml(res).unwrap();
    let token = build_gateway_token(&root, "metalklesk").unwrap();

    assert_eq!(
        token,
        "authcookie=AUTHCOOKIE&persistent-cookie=PERSISTENTCOOKIE&portal=vpn.example.com&user=alice&domain=%28empty_domain%29&preferred-ip=10.0.0.10&preferred-ipv6=2001%3Adb8%3A%3A10&computer=metalklesk"
    );
}

#[test]
fn gateway_token_omits_empty_optional_fields() {
    let res = r#"
<jnlp>
  <application-desc>
    <argument></argument>
    <argument>AUTHCOOKIE</argument>
    <argument></argument>
    <argument>vpn.example.com</argument>
    <argument>alice</argument>
    <argument>LDAP-auth</argument>
    <argument>vsys1</argument>
    <argument>-1</argument>
    <argument></argument>
    <argument></argument>
    <argument></argument>
    <argument></argument>
    <argument>tunnel</argument>
    <argument>-1</argument>
    <argument>4100</argument>
    <argument></argument>
    <argument>unused-user-cookie</argument>
    <argument>unused-prelogon-cookie</argument>
    <argument>(null)</argument>
  </application-desc>
</jnlp>
"#;

    let root = parse_xml(res).unwrap();
    let token = build_gateway_token(&root, "metalklesk").unwrap();

    assert_eq!(token, "authcookie=AUTHCOOKIE&portal=vpn.example.com&user=alice&computer=metalklesk");
}

#[test]
fn gateway_login_response_outcomes() {
    assert!(parse_gateway_login_response("  ", "pc").is_err());
    let challenge = "var respStatus = \"Challenge\";\nvar respMsg = \"Enter code\";\nthisForm.inputStr.value = \"abc\";";
    match parse_gateway_login_response(challenge, "pc").unwrap() {
        GatewayLogin::Mfa(m, i) => {
            assert_eq!(m, "Enter code");
            assert_eq!(i, "abc");
        }
        GatewayLogin::Cookie(_) => panic!("expected a challenge"),
    }
}

#[test]
fn parse_external_gateways_marks_gateway_kind() {
    let xml = r#"
<policy>
  <gateways>
    <external>
      <list>
        <entry name="us1.vpn.example.com">
          <description>US_East</description>
        </entry>
      </list>
    </external>
  </gateways>
</policy>
"#;
    let root = parse_xml(xml).unwrap();

    let gateways = parse_gateways(&root, false).unwrap();

    assert_eq!(gateways[0].name(), "US_East");
    assert_eq!(gateways[0].server(), "us1.vpn.example.com");
    assert_eq!(gateways[0].kind(), GatewayKind::External);
}

#[test]
fn parse_internal_gateways_marks_gateway_kind_when_preferred() {
    let xml = r#"
<policy>
  <gateways>
    <internal>
      <list>
        <entry name="internal.vpn.example.com">
          <description>Internal</description>
        </entry>
      </list>
    </internal>
  </gateways>
</policy>
"#;
    let root = parse_xml(xml).unwrap();

    let gateways = parse_gateways(&root, true).unwrap();

    assert_eq!(gateways[0].kind(), GatewayKind::Internal);
}

fn build_session_args() -> SessionRequestArgs {
    SessionRequestArgs::new("authcookie=AUTH&portal=vpn.example.com&user=alice&preferred-ip=10.0.0.10".to_string())
        .with_os(Some(ClientOs::Mac))
        .with_os_version(Some("macOS 15.0".to_string()))
        .with_client_version(Some("6.3.1-12".to_string()))
        .with_disable_ipv6(true)
}

#[test]
fn active_session_context_preserves_connect_args_for_extension() {
    let session_args = build_session_args();
    let ctx = SessionContext::new("vpn.example.com".to_string(), "portal.example.com".to_string(), session_args);

    let form = parse_cookie_form(ctx.session_args()).unwrap();

    assert_eq!(form.get("authcookie").map(String::as_str), Some("AUTH"));
    assert_eq!(form.get("portal").map(String::as_str), Some("vpn.example.com"));
    assert_eq!(form.get("user").map(String::as_str), Some("alice"));
    assert_eq!(form.get("preferred-ip").map(String::as_str), Some("10.0.0.10"));
}

#[test]
fn builds_extend_session_form() {
    let session_args = build_session_args();
    let ctx = SessionContext::new("vpn.example.com".to_string(), "portal.example.com".to_string(), session_args);

    let form = build_extend_session_form(&ctx).unwrap();

    assert_eq!(form.get("authcookie").map(String::as_str), Some("AUTH"));
    assert_eq!(form.get("portal").map(String::as_str), Some("portal.example.com"));
    assert_eq!(form.get("message").map(String::as_str), Some(EXTEND_SESSION_MESSAGE));
    assert_eq!(form.get("comment").map(String::as_str), Some(EXTEND_SESSION_COMMENT));
    assert!(form.contains_key("timestamp"));
}

#[test]
fn extend_session_form_carries_the_timestamp() {
    let ctx = SessionContext::new("vpn.example.com".to_string(), "portal.example.com".to_string(), build_session_args());
    let form = build_extend_session_form_at(&ctx, 1700000000).unwrap();
    assert_eq!(form.get("timestamp").map(String::as_str), Some("1700000000"));
}

#[test]
fn parses_extend_session_status_attribute() {
    let root = parse_xml(r#"<response status="success"></response>"#).unwrap();

    assert_eq!(parse_extend_session_status(&root).unwrap(), "success");
    assert!(check_extend_session_status("success").is_ok());
    assert!(check_extend_session_status("error").is_err());
}

#[test]
fn rejects_extend_session_response_without_status() {
    let root = parse_xml("<response><result>ok</result></response>").unwrap();

    assert_eq!(parse_extend_session_status(&root).unwrap_err(), "Malformed extend session response");
}

#[test]
fn rejects_extension_login_mfa_challenge() {
    assert_eq!(
        validate_extension_login(GatewayLogin::Mfa("MFA required".to_string(), "input".to_string())).unwrap_err(),
        "Session extension requires an interactive gateway challenge"
    );
}

#[test]
fn cookie_params_are_set_over_request_params() {
    let mut params = ParamMap::new();
    params.insert("client-role", "global-protect-full");
    params.insert("user", "nobody");
    let merged = merge_cookie_params("user=alice&authcookie=A", params).unwrap();
    assert_eq!(merged.get("user").map(String::as_str), Some("alice"));
    assert_eq!(merged.get("authcookie").map(String::as_str), Some("A"));
    assert_eq!(merged.get("client-role").map(String::as_str), Some("global-protect-full"));
}

#[test]
fn hip_check_params_carry_the_token() {
    let m = hip_check_params("authcookie=A", "10.0.0.2", "abc").unwrap();
    assert_eq!(m.get("client-ip").map(String::as_str), Some("10.0.0.2"));
    assert_eq!(m.get("md5").map(String::as_str), Some("abc"));
    assert_eq!(m.get("authcookie").map(String::as_str), Some("A"));
}

#[test]
fn csd_token_ignores_the_auth_cookie_and_preferred_addresses() {
    let a = build_csd_token("authcookie=A&portal=p&user=u&preferred-ip=1.2.3.4").unwrap();
    let b = build_csd_token("authcookie=B&portal=p&user=u&preferred-ipv6=x").unwrap();
    assert_eq!(a, b);
    assert_eq!(a.len(), 32);
    // md5("portal=p&user=u")
    assert_eq!(a, format!("{:x}", md5::compute("portal=p&user=u")));
}

#[test]
fn hip_answers_are_read() {
    assert_eq!(client_ip_from_response("<response><ip-address>10.1.2.3</ip-address></response>").unwrap(), "10.1.2.3");
    assert!(client_ip_from_response("<response></response>").is_err());
    assert_eq!(is_hip_needed("<response><hip-report-needed>yes</hip-report-needed></response>"), Ok(true));
    assert_eq!(is_hip_needed("<response><hip-report-needed>no</hip-report-needed></response>"), Ok(false));
    assert!(is_hip_needed("not xml").is_err());
}

#[test]
fn lines_keep_a_final_carriage_return() {
    assert_eq!(lines("a\r\nb\r"), vec!["a".to_string(), "b\r".to_string()]);
    assert_eq!(lines("a\nb\n"), vec!["a".to_string(), "b".to_string()]);
}

#[test]
fn gateway_login_errors_say_what_went_wrong() {
    assert_eq!(parse_gateway_login_response("  ", "pc").unwrap_err(), "Got empty gateway login response");
    let res = "var respStatus = \"Challenge\";";
    assert_eq!(
        parse_gateway_login_response(res, "pc").unwrap_err(),
        format!("Failed to parse MFA challenge: {res}")
    );
    assert!(!parse_gateway_login_response("<unclosed>", "pc").unwrap_err().is_empty());
}
