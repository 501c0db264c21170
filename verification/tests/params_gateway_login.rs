use gpapi::credential::{AuthCookieCredential, Credential, PasswordCredential, PreloginCredential};
use gpapi::gateway::{Gateway, GatewayKind, GatewayLoginContext, GatewaySelection};
use gpapi::gp_params::GpParams;
use gpapi::os_profile::host_identity::HostIdentity;
use gpapi::os_profile::{ClientOs, OsProfile};
use gpapi::params::gateway_login::{build, first_ipv4, GatewayLoginInput};

fn test_identity() -> HostIdentity {
  HostIdentity::new(
    "test-computer".to_string(),
    "host-id-123".to_string(),
    "serial-456".to_string(),
    "aa-bb-cc-dd-ee-ff".to_string(),
  )
}

fn test_profile(os: ClientOs) -> OsProfile {
  OsProfile::builder(os).host_identity(test_identity()).build()
}

fn make_gp_params() -> GpParams {
  GpParams::builder(test_profile(ClientOs::Linux)).build()
}

fn make_credential() -> Credential {
  Credential::Password(PasswordCredential::new("alice", "secret"))
}

fn passwd_values(body: &[(String, String)]) -> Vec<&str> {
  body
    .iter()
    .filter(|(k, _)| k == "passwd")
    .map(|(_, v)| v.as_str())
    .collect()
}

#[test]
fn otp_retry_replaces_passwd_instead_of_appending_duplicate() {
  let mut gp_params = make_gp_params();
  gp_params.set_input_str("challenge-token");
  gp_params.set_otp("123456");

  let cred = make_credential();
  let input = GatewayLoginInput {
    gp_params: &gp_params,
    cred: &cred,
    gateway_host: "vpn.example.com",
    context: None,
    client_ip: None,
    extend_lifetime: false,
  };

  let result = build(&input);

  assert_eq!(passwd_values(&result.body), vec!["123456"]);

  let encoded = serde_urlencoded::to_string(&result.body).expect("form body should encode");
  assert_eq!(encoded.matches("passwd=").count(), 1);
  assert!(encoded.contains("passwd=123456"));
  assert!(!encoded.contains("passwd=secret"));
}

#[test]
fn build_without_context_includes_identity_fields() {
  let profile = test_profile(ClientOs::Linux);
  let gp_params = make_gp_params();
  let cred = make_credential();

  let input = GatewayLoginInput {
    gp_params: &gp_params,
    cred: &cred,
    gateway_host: "vpn.example.com",
    context: None,
    client_ip: None,
    extend_lifetime: false,
  };

  let result = build(&input);

  let find = |key: &str| result.body.iter().find(|(k, _)| k == key).map(|(_, v)| v.as_str());

  assert_eq!(find("host-id"), Some(profile.host_id()));
  assert_eq!(find("serialno"), Some(profile.serialno()));
  assert_eq!(find("preferred-ip"), Some(""));
  assert_eq!(find("preferred-ipv6"), Some(""));
  assert_eq!(find("token"), Some(""));
  assert_eq!(find("server"), Some("vpn.example.com"));
}

#[test]
fn build_without_context_excludes_context_fields() {
  let gp_params = make_gp_params();
  let cred = make_credential();

  let input = GatewayLoginInput {
    gp_params: &gp_params,
    cred: &cred,
    gateway_host: "vpn.example.com",
    context: None,
    client_ip: None,
    extend_lifetime: false,
  };

  let result = build(&input);

  let has_key = |key: &str| result.body.iter().any(|(k, _)| k == key);

  assert!(!has_key("host"));
  assert!(!has_key("gw"));
  assert!(!has_key("gateway-name"));
  assert!(!has_key("internal"));
  assert!(!has_key("selection-type"));
  assert!(!has_key("connect-method"));
  assert!(!has_key("client-ip"));
  assert!(!has_key("client-ipv6"));
}

#[test]
fn build_with_context_includes_gateway_fqdn() {
  let gp_params = make_gp_params();
  let cred = make_credential();
  let gateway = Gateway {
    name: "US_East".to_string(),
    address: "us1.vpn.example.com".to_string(),
    kind: GatewayKind::External,
    priority: 1,
    priority_rules: vec![],
  };
  let context = GatewayLoginContext::new(&gateway, GatewaySelection::Auto);

  let input = GatewayLoginInput {
    gp_params: &gp_params,
    cred: &cred,
    gateway_host: "us1.vpn.example.com",
    context: Some(&context),
    client_ip: Some("192.168.0.10"),
    extend_lifetime: false,
  };

  let result = build(&input);

  let find = |key: &str| result.body.iter().find(|(k, _)| k == key).map(|(_, v)| v.as_str());

  assert_eq!(find("gw"), Some("us1.vpn.example.com"));
  assert_eq!(find("gateway-name"), Some("us1.vpn.example.com"));
  assert_eq!(find("host"), Some("us1.vpn.example.com"));
  assert_eq!(find("internal"), Some("no"));
  assert_eq!(find("selection-type"), Some("auto"));
  assert_eq!(find("client-ip"), Some("192.168.0.10"));
  assert_eq!(find("client-ipv6"), Some(""));
}

#[test]
fn mac_profile_uses_fqdn_for_gateway_display() {
  let gp_params = GpParams::builder(test_profile(ClientOs::Mac)).build();
  let cred = make_credential();
  let gateway = Gateway {
    name: "US_East".to_string(),
    address: "us1.vpn.example.com".to_string(),
    kind: GatewayKind::External,
    priority: 1,
    priority_rules: vec![],
  };
  let context = GatewayLoginContext::new(&gateway, GatewaySelection::Auto);

  let input = GatewayLoginInput {
    gp_params: &gp_params,
    cred: &cred,
    gateway_host: "us1.vpn.example.com",
    context: Some(&context),
    client_ip: None,
    extend_lifetime: false,
  };

  let result = build(&input);

  let find = |key: &str| result.body.iter().find(|(k, _)| k == key).map(|(_, v)| v.as_str());

  assert_eq!(find("gw"), Some("us1.vpn.example.com"));
  assert_eq!(find("gateway-name"), Some("us1.vpn.example.com"));
}

#[test]
fn linux_prelogin_credential_uses_profile_saml_password() {
  let gp_params = GpParams::builder(test_profile(ClientOs::Linux)).build();
  let cred = Credential::Prelogin(PreloginCredential::new(
    "alice",
    Some("prelogin-cookie"),
    None,
    None,
  ));

  let input = GatewayLoginInput {
    gp_params: &gp_params,
    cred: &cred,
    gateway_host: "vpn.example.com",
    context: None,
    client_ip: None,
    extend_lifetime: false,
  };

  let result = build(&input);

  let passwd = result.body.iter().find(|(k, _)| k == "passwd").map(|(_, v)| v.as_str());
  assert_eq!(passwd, Some("SAMLPASS"));
}

#[test]
fn portal_auth_cookie_login_leaves_gateway_prelogin_cookie_empty() {
  let gp_params = GpParams::builder(test_profile(ClientOs::Linux)).build();
  let cred = Credential::AuthCookie(AuthCookieCredential::new("alice", "empty", "empty"));

  let input = GatewayLoginInput {
    gp_params: &gp_params,
    cred: &cred,
    gateway_host: "vpn.example.com",
    context: None,
    client_ip: None,
    extend_lifetime: false,
  };

  let result = build(&input);
  let find = |key: &str| result.body.iter().find(|(k, _)| k == key).map(|(_, v)| v.as_str());

  assert_eq!(find("passwd"), Some("SAMLPASS"));
  assert_eq!(find("prelogin-cookie"), Some(""));
  assert_eq!(find("portal-userauthcookie"), Some("empty"));
  assert_eq!(find("portal-prelogonuserauthcookie"), Some("empty"));
}

#[test]
fn portal_auth_cookie_login_reuses_portal_password_when_available() {
  let gp_params = GpParams::builder(test_profile(ClientOs::Linux)).build();
  let cred = Credential::AuthCookie(
    AuthCookieCredential::new("alice", "portal-user-cookie", "portal-prelogon-cookie").with_password("secret".to_string()),
  );

  let input = GatewayLoginInput {
    gp_params: &gp_params,
    cred: &cred,
    gateway_host: "vpn.example.com",
    context: None,
    client_ip: None,
    extend_lifetime: false,
  };

  let result = build(&input);
  let find = |key: &str| result.body.iter().find(|(k, _)| k == key).map(|(_, v)| v.as_str());

  assert_eq!(find("passwd"), Some("secret"));
  assert_eq!(find("prelogin-cookie"), Some(""));
  assert_eq!(find("portal-userauthcookie"), Some("portal-user-cookie"));
  assert_eq!(find("portal-prelogonuserauthcookie"), Some("portal-prelogon-cookie"));
}

#[test]
fn extend_lifetime_adds_param() {
  let gp_params = make_gp_params();
  let cred = make_credential();

  let input = GatewayLoginInput {
    gp_params: &gp_params,
    cred: &cred,
    gateway_host: "vpn.example.com",
    context: None,
    client_ip: None,
    extend_lifetime: true,
  };

  let result = build(&input);

  let find = |key: &str| result.body.iter().find(|(k, _)| k == key).map(|(_, v)| v.as_str());
  assert_eq!(find("extend-lifetime"), Some("true"));
}

#[test]
fn no_extend_lifetime_omits_param() {
  let gp_params = make_gp_params();
  let cred = make_credential();

  let input = GatewayLoginInput {
    gp_params: &gp_params,
    cred: &cred,
    gateway_host: "vpn.example.com",
    context: None,
    client_ip: None,
    extend_lifetime: false,
  };

  let result = build(&input);

  let has_key = |key: &str| result.body.iter().any(|(k, _)| k == key);
  assert!(!has_key("extend-lifetime"));
}

#[test]
fn context_connect_method_included_when_present() {
  let gp_params = make_gp_params();
  let cred = make_credential();
  let gateway = Gateway::new("GW".to_string(), "vpn.example.com".to_string());
  let context = GatewayLoginContext::new(&gateway, GatewaySelection::Manual).with_connect_method(Some("on-demand"));

  let input = GatewayLoginInput {
    gp_params: &gp_params,
    cred: &cred,
    gateway_host: "vpn.example.com",
    context: Some(&context),
    client_ip: None,
    extend_lifetime: false,
  };

  let result = build(&input);

  let find = |key: &str| result.body.iter().find(|(k, _)| k == key).map(|(_, v)| v.as_str());
  assert_eq!(find("connect-method"), Some("on-demand"));
  assert_eq!(find("selection-type"), Some("manual"));
}

#[test]
fn gateway_login_all_params_in_body_not_query() {
  let gp_params = make_gp_params();
  let cred = make_credential();

  let input = GatewayLoginInput {
    gp_params: &gp_params,
    cred: &cred,
    gateway_host: "vpn.example.com",
    context: None,
    client_ip: None,
    extend_lifetime: false,
  };

  let result = build(&input);

  assert!(result.query.is_empty());
  assert!(!result.body.is_empty());
}

#[test]
fn server_resolves_to_ipv4_with_context_using_localhost() {
  let gp_params = make_gp_params();
  let cred = make_credential();
  let gateway = Gateway::new("Local".to_string(), "localhost".to_string());
  let context = GatewayLoginContext::new(&gateway, GatewaySelection::Auto);

  let input = GatewayLoginInput {
    gp_params: &gp_params,
    cred: &cred,
    gateway_host: "localhost",
    context: Some(&context),
    client_ip: None,
    extend_lifetime: false,
  };

  let result = build(&input);

  let server = result
    .body
    .iter()
    .find(|(k, _)| k == "server")
    .map(|(_, v)| v.as_str())
    .expect("server param should exist");
  // localhost resolves to 127.0.0.1 (IPv4)
  assert_eq!(server, "127.0.0.1");
}

#[test]
fn server_falls_back_to_host_when_resolution_fails() {
  let gp_params = make_gp_params();
  let cred = make_credential();
  let gateway = Gateway::new("GW".to_string(), "nonexistent.invalid.test".to_string());
  let context = GatewayLoginContext::new(&gateway, GatewaySelection::Auto);

  let input = GatewayLoginInput {
    gp_params: &gp_params,
    cred: &cred,
    gateway_host: "nonexistent.invalid.test",
    context: Some(&context),
    client_ip: None,
    extend_lifetime: false,
  };

  let result = build(&input);

  let server = result
    .body
    .iter()
    .find(|(k, _)| k == "server")
    .map(|(_, v)| v.as_str())
    .expect("server param should exist");
  // Falls back to the gateway host as given when DNS resolution fails
  assert_eq!(server, "nonexistent.invalid.test");
}

#[test]
fn first_ipv4_skips_ipv6_addresses() {
    let addrs = vec![
        (false, "2001:db8::1".to_string()),
        (true, "192.0.2.10".to_string()),
        (true, "192.0.2.11".to_string()),
    ];
    assert_eq!(first_ipv4(&addrs), Some("192.0.2.10".to_string()));
    assert_eq!(first_ipv4(&vec![(false, "2001:db8::1".to_string())]), None);
}
