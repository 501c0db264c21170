use gpapi::os_profile::{ClientOs, OsProfile, PreloginBrowserMode};
use gpapi::params::gateway_prelogin;
use gpapi::params::portal_prelogin::build;

#[test]
fn linux_places_params_in_body() {
  let profile = OsProfile::builder(ClientOs::Linux).build();
  let result = build(&profile, PreloginBrowserMode::Embedded);

  assert!(!result.body.is_empty());
  assert!(result.query.is_empty());
}

#[test]
fn mac_places_params_in_body_with_kerberos_query() {
  let profile = OsProfile::builder(ClientOs::Mac).build();
  let result = build(&profile, PreloginBrowserMode::Embedded);

  assert!(!result.body.is_empty());
  assert_eq!(result.query.len(), 1);
  assert_eq!(result.query[0], ("kerberos-support".to_string(), "yes".to_string()));
}

#[test]
fn windows_places_all_params_in_query() {
  let profile = OsProfile::builder(ClientOs::Windows).build();
  let result = build(&profile, PreloginBrowserMode::Embedded);

  assert!(result.body.is_empty());
  // 9 base params + 1 kerberos-support
  assert_eq!(result.query.len(), 10);
}

#[test]
fn uses_embedded_portal_default_browser_value() {
  let profile = OsProfile::builder(ClientOs::Linux).build();
  let result = build(&profile, PreloginBrowserMode::Embedded);

  let browser_param = result
    .body
    .iter()
    .find(|(k, _)| k == "default-browser")
    .expect("default-browser param should exist");
  assert_eq!(browser_param.1, "-10");
}

#[test]
fn uses_target_value_when_external_browser_is_requested() {
  let profile = OsProfile::builder(ClientOs::Linux).build();
  let result = build(&profile, PreloginBrowserMode::External);

  let browser_param = result
    .body
    .iter()
    .find(|(k, _)| k == "default-browser")
    .expect("default-browser param should exist");
  assert_eq!(browser_param.1, "4");
}

#[test]
fn includes_all_required_params() {
  let profile = OsProfile::builder(ClientOs::Linux).build();
  let result = build(&profile, PreloginBrowserMode::Embedded);

  let keys: Vec<&str> = result.body.iter().map(|(k, _)| k.as_str()).collect();
  assert!(keys.contains(&"tmp"));
  assert!(keys.contains(&"clientVer"));
  assert!(keys.contains(&"clientos"));
  assert!(keys.contains(&"os-version"));
  assert!(keys.contains(&"host-id"));
  assert!(keys.contains(&"ipv6-support"));
  assert!(keys.contains(&"default-browser"));
  assert!(keys.contains(&"cas-support"));
  assert!(keys.contains(&"data"));
}

#[test]
fn data_param_is_cas_embedded_browser_base64() {
  let profile = OsProfile::builder(ClientOs::Linux).build();
  let result = build(&profile, PreloginBrowserMode::Embedded);

  let data_param = result
    .body
    .iter()
    .find(|(k, _)| k == "data")
    .expect("data param should exist");
  assert_eq!(data_param.1, "eyJjYXNfZW1iZWRkZWRfYnJvd3NlciI6InllcyJ9");
}

#[test]
fn kerberos_not_in_query_for_linux() {
  let profile = OsProfile::builder(ClientOs::Linux).build();
  let result = build(&profile, PreloginBrowserMode::Embedded);

  let has_kerberos = result.query.iter().any(|(k, _)| k == "kerberos-support");
  assert!(!has_kerberos);
}

#[test]
fn kerberos_in_query_for_windows() {
  let profile = OsProfile::builder(ClientOs::Windows).build();
  let result = build(&profile, PreloginBrowserMode::Embedded);

  let has_kerberos = result.query.iter().any(|(k, _)| k == "kerberos-support");
  assert!(has_kerberos);
}


#[test]
fn gateway_prelogin_uses_gateway_default_browser_values() {
  let profile = OsProfile::builder(ClientOs::Linux).build();
  let embedded = gateway_prelogin::build(&profile, PreloginBrowserMode::Embedded);
  let value = embedded.body.iter().find(|(k, _)| k == "default-browser").map(|(_, v)| v.as_str());
  assert_eq!(value, Some("0"));
  let external = gateway_prelogin::build(&profile, PreloginBrowserMode::External);
  let value = external.body.iter().find(|(k, _)| k == "default-browser").map(|(_, v)| v.as_str());
  assert_eq!(value, Some("4"));
}
