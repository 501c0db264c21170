use gpapi::auth::{SamlAuthData, SamlAuthResult};
use gpapi::credential::{AuthCookieCredential, CachedCredential, Credential};
use gpapi::error::AuthDataParseError;

#[test]
fn auth_data_from_gpcallback_cas() {
    let auth_data = "globalprotectcallback:cas-as=1&un=xyz@email.com&token=very_long_string";

    let auth_data = SamlAuthData::from_gpcallback(auth_data).unwrap();

    assert_eq!(auth_data.username(), "xyz@email.com");
    assert_eq!(auth_data.token(), Some("very_long_string"));
}

#[test]
fn auth_data_from_gpcallback_cas_urlencoded() {
    let auth_data = "globalprotectcallback:cas-as%3D1%26un%3Dxyz%40email.com%26token%3Dvery_long_string";

    let auth_data = SamlAuthData::from_gpcallback(auth_data).unwrap();

    assert_eq!(auth_data.username(), "xyz@email.com");
    assert_eq!(auth_data.token(), Some("very_long_string"));
}

#[test]
fn auth_data_from_gpcallback_non_cas() {
    let auth_data = "PGh0bWw+PCEtLSA8c2FtbC1hdXRoLXN0YXR1cz4xPC9zYW1sLWF1dGgtc3RhdHVzPjxwcmVsb2dpbi1jb29raWU+cHJlbG9naW4tY29va2llPC9wcmVsb2dpbi1jb29raWU+PHBvcnRhbC11c2VyYXV0aGNvb2tpZT5wb3J0YWwtdXNlcmF1dGhjb29raWU8L3BvcnRhbC11c2VyYXV0aGNvb2tpZT48c2FtbC11c2VybmFtZT54eXpAZW1haWwuY29tPC9zYW1sLXVzZXJuYW1lPjxzYW1sLXNsbz5ubzwvc2FtbC1zbG8+IC0tPjwvaHRtbD4=";

    let auth_data = SamlAuthData::from_gpcallback(auth_data).unwrap();

    assert_eq!(auth_data.username(), "xyz@email.com");
    assert_eq!(auth_data.prelogin_cookie(), Some("prelogin-cookie"));
    assert_eq!(auth_data.portal_userauthcookie(), Some("portal-userauthcookie"));
}

#[test]
fn auth_result_success_can_carry_host_id() {
    let auth_data =
        SamlAuthData::new(Some("alice@example.com".to_string()), Some("prelogin-cookie".to_string()), None)
            .unwrap()
            .with_host_id("host-seed".to_string());
    let result = SamlAuthResult::Success(auth_data);

    assert_eq!(result.host_id(), Some("host-seed"));
}

#[test]
fn auth_result_success_omits_empty_host_id() {
    let auth_data =
        SamlAuthData::new(Some("alice@example.com".to_string()), Some("prelogin-cookie".to_string()), None)
            .unwrap()
            .with_host_id(" ".to_string());
    let result = SamlAuthResult::Success(auth_data);

    assert_eq!(result.host_id(), None);
}

#[test]
fn auth_data_needs_username_and_a_real_cookie() {
    assert!(SamlAuthData::new(None, Some("prelogin-cookie".to_string()), None).is_err());
    assert!(SamlAuthData::new(Some("alice".to_string()), Some("short".to_string()), Some("12345".to_string())).is_err());
    assert!(SamlAuthData::new(Some("alice".to_string()), Some("123456".to_string()), None).is_ok());
}

#[test]
fn html_without_status_is_not_found() {
    assert!(matches!(SamlAuthData::from_html("<html></html>"), Err(AuthDataParseError::NotFound)));
    assert!(matches!(
        SamlAuthData::from_html("<saml-auth-status>-1</saml-auth-status>"),
        Err(AuthDataParseError::Invalid(_))
    ));
}

#[test]
fn malformed_callbacks_are_invalid() {
    assert!(matches!(SamlAuthData::from_gpcallback("globalprotectcallback:%%%"), Err(AuthDataParseError::Invalid(_))));
    assert!(matches!(
        SamlAuthData::from_gpcallback("globalprotectcallback:cas-as=1&token=t"),
        Err(AuthDataParseError::Invalid(_))
    ));
    assert!(matches!(
        SamlAuthData::from_gpcallback("globalprotectcallback:cas-as=1&un=a&un=b"),
        Err(AuthDataParseError::Invalid(_))
    ));
}

#[test]
fn prelogin_credential_keeps_saml_cookies() {
    let auth_data = SamlAuthData::new(
        Some("alice@example.com".to_string()),
        Some("prelogin-cookie".to_string()),
        Some("portal-userauthcookie".to_string()),
    )
    .unwrap();

    let cred = Credential::from(auth_data);
    let Credential::Prelogin(prelogin) = cred else {
        panic!("expected prelogin credential");
    };

    assert_eq!(prelogin.username(), "alice@example.com");
    assert_eq!(prelogin.prelogin_cookie(), Some("prelogin-cookie"));
    assert_eq!(prelogin.portal_userauthcookie(), Some("portal-userauthcookie"));
    assert_eq!(prelogin.token(), None);
}

#[test]
fn prelogin_credential_keeps_cas_token_without_cookies() {
    let auth_data =
        SamlAuthData::from_gpcallback("globalprotectcallback:cas-as=1&un=alice@example.com&token=cas-token").unwrap();

    let cred = Credential::from(auth_data);
    let Credential::Prelogin(prelogin) = cred else {
        panic!("expected prelogin credential");
    };

    assert_eq!(prelogin.username(), "alice@example.com");
    assert_eq!(prelogin.prelogin_cookie(), None);
    assert_eq!(prelogin.portal_userauthcookie(), None);
    assert_eq!(prelogin.token(), Some("cas-token"));
}

#[test]
fn auth_cookie_runtime_password_is_not_serialized() {
    let cred = AuthCookieCredential::new("alice", "user-cookie", "prelogon-cookie").with_password("secret".to_string());

    assert_eq!(cred.password(), Some("secret"));
}

#[test]
fn auth_cookie_with_empty_sentinels_cannot_authenticate_gateway() {
    let cred = AuthCookieCredential::new("alice", "empty", "empty");

    assert!(!cred.can_authenticate_gateway());
}

#[test]
fn auth_cookie_with_blank_values_cannot_authenticate_gateway() {
    let cred = AuthCookieCredential::new("alice", "", " ");

    assert!(!cred.can_authenticate_gateway());
}

#[test]
fn auth_cookie_with_real_cookie_can_authenticate_gateway() {
    let cred = AuthCookieCredential::new("alice", "empty", "portal-prelogon-cookie");

    assert!(cred.can_authenticate_gateway());
}

#[test]
fn cached_credential_without_real_auth_cookie_cannot_authenticate_gateway() {
    let cred = CachedCredential::new("alice".to_string(), None, Some(AuthCookieCredential::new("alice", "empty", "empty")));

    assert!(!cred.can_authenticate_gateway());
    assert!(!Credential::from(&cred).can_authenticate_gateway());
}
