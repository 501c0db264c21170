use gpapi::os_profile::{WebviewUserAgent, WebviewUserAgentTransform};
use gpapi::webview::{
    compose_webview_user_agent, extract_gpcallback, linux_pan_gpui_user_agent, next_login_action,
    prepend_webview_user_agent_prefix, read_from_html, read_from_response, AuthDataLocation, AuthError,
    AuthEvent, ChallengeDisposition, LoginAction, challenge_disposition,
};
use gpapi::webview_auth::{auth_result_from, is_acs_endpoint, AuthRequest};
use gpapi::error::AuthDataParseError;
use gpapi::webview_auth::AuthError as ReadError;

#[test]
fn prepends_prefix_to_default_user_agent() {
    let user_agent = prepend_webview_user_agent_prefix("PAN GlobalProtect/6.3.3", "Mozilla/5.0").unwrap();

    assert_eq!(user_agent, "PAN GlobalProtect/6.3.3 Mozilla/5.0");
}

#[test]
fn leaves_already_prefixed_user_agent_unchanged() {
    let user_agent =
        prepend_webview_user_agent_prefix("PAN GlobalProtect/6.3.3", "PAN GlobalProtect/6.3.3 Mozilla/5.0").unwrap();

    assert_eq!(user_agent, "PAN GlobalProtect/6.3.3 Mozilla/5.0");
}

#[test]
fn blank_prefix_leaves_default_user_agent_unchanged() {
    let user_agent = prepend_webview_user_agent_prefix(" ", "Mozilla/5.0").unwrap();

    assert_eq!(user_agent, "Mozilla/5.0");
}

#[test]
fn non_blank_prefix_requires_default_user_agent() {
    let err = prepend_webview_user_agent_prefix("PAN GlobalProtect/6.3.3", " ").unwrap_err();

    assert!(err.contains("default webview user agent"));
}

#[test]
fn native_plan_reads_native_default_user_agent() {
    let plan = WebviewUserAgent::Native {
        prefix: "PAN GlobalProtect/6.3.3".to_string(),
        transform: WebviewUserAgentTransform::Unchanged,
    };
    let user_agent = compose_webview_user_agent(&plan, || Ok("Mozilla/5.0".to_string())).unwrap();

    assert_eq!(user_agent, "PAN GlobalProtect/6.3.3 Mozilla/5.0");
}

#[test]
fn linux_transform_replaces_version_token_with_pan_gpui_version() {
    let user_agent = linux_pan_gpui_user_agent(
        "Mozilla/5.0 (X11; Linux x86_64) AppleWebKit/605.1.15 (KHTML, like Gecko) Version/60.5 Safari/605.1.15",
    );

    assert_eq!(
        user_agent,
        "Mozilla/5.0 (X11; Linux x86_64) AppleWebKit/605.1.15 (KHTML, like Gecko) PanGPUI Version/10.0 Safari/605.1.15"
    );
}

#[test]
fn linux_transform_does_not_duplicate_pan_gpui_version() {
    let user_agent = linux_pan_gpui_user_agent(
        "Mozilla/5.0 (X11; Linux x86_64) AppleWebKit/602.1 (KHTML, like Gecko) PanGPUI Version/10.0 Safari/602.1",
    );

    assert_eq!(
        user_agent,
        "Mozilla/5.0 (X11; Linux x86_64) AppleWebKit/602.1 (KHTML, like Gecko) PanGPUI Version/10.0 Safari/602.1"
    );
}

#[test]
fn native_linux_plan_applies_pan_gpui_transform_before_prefix() {
    let plan = WebviewUserAgent::Native {
        prefix: "PAN GlobalProtect/6.3.3".to_string(),
        transform: WebviewUserAgentTransform::LinuxPanGpuiVersion,
    };
    let user_agent =
        compose_webview_user_agent(&plan, || Ok("Mozilla/5.0 Version/60.5 Safari/605.1.15".to_string())).unwrap();

    assert_eq!(user_agent, "PAN GlobalProtect/6.3.3 Mozilla/5.0 PanGPUI Version/10.0 Safari/605.1.15");
}

#[test]
fn projected_plan_uses_profile_default_user_agent() {
    let plan = WebviewUserAgent::Projected {
        prefix: "PAN GlobalProtect/6.3.3".to_string(),
        default_user_agent: "Mozilla/5.0 projected".to_string(),
    };
    let user_agent =
        compose_webview_user_agent(&plan, || panic!("projected webview user agent should not read the native default"))
            .unwrap();

    assert_eq!(user_agent, "PAN GlobalProtect/6.3.3 Mozilla/5.0 projected");
}

fn check_extract_gpcallback_some() {
    let html = r#"
      <meta http-equiv="refresh" content="0; URL=globalprotectcallback:PGh0bWw+PCEtLSA8c">
      <meta http-equiv="refresh" content="0; URL=globalprotectcallback:PGh0bWw+PCEtLSA8c">
    "#;

    assert_eq!(extract_gpcallback(html).as_deref(), Some("globalprotectcallback:PGh0bWw+PCEtLSA8c"));
}

fn check_extract_gpcallback_cas() {
    let html = r#"
      <meta http-equiv="refresh" content="0; URL=globalprotectcallback:cas-as=1&amp;un=xyz@email.com&amp;token=very_long_string">
    "#;

    assert_eq!(
        extract_gpcallback(html).as_deref(),
        Some("globalprotectcallback:cas-as=1&un=xyz@email.com&token=very_long_string")
    );
}

fn check_extract_gpcallback_none() {
    let html = r#"
      <meta http-equiv="refresh" content="0; URL=PGh0bWw+PCEtLSA8c">
    "#;

    assert_eq!(extract_gpcallback(html), None);
}

#[test]
fn auth_messenger_extract_gpcallback_some() {
    check_extract_gpcallback_some();
}

#[test]
fn auth_messenger_extract_gpcallback_cas() {
    check_extract_gpcallback_cas();
}

#[test]
fn auth_messenger_extract_gpcallback_none() {
    check_extract_gpcallback_none();
}

#[test]
fn response_reader_extract_gpcallback_some() {
    check_extract_gpcallback_some();
}

#[test]
fn response_reader_extract_gpcallback_cas() {
    check_extract_gpcallback_cas();
}

#[test]
fn response_reader_extract_gpcallback_none() {
    check_extract_gpcallback_none();
}

#[test]
fn extract_gpcallback_stops_at_the_closing_quote() {
    let html = r#"<a href="globalprotectcallback:abc">x</a>"#;
    assert_eq!(extract_gpcallback(html).as_deref(), Some("globalprotectcallback:abc"));
    assert_eq!(extract_gpcallback(r#"globalprotectcallback:" then globalprotectcallback:z"#).as_deref(), Some("globalprotectcallback:z"));
}

#[test]
fn pan_gpui_transform_keeps_user_agent_without_version_token() {
    assert_eq!(linux_pan_gpui_user_agent("Mozilla/5.0 Safari"), "Mozilla/5.0 Safari");
    assert_eq!(linux_pan_gpui_user_agent("Mozilla/5.0 Version/1.2"), "Mozilla/5.0 PanGPUI Version/10.0");
}

#[test]
fn pan_gpui_transform_twice_is_once() {
    let once = linux_pan_gpui_user_agent("A Version/60.5 B");
    assert_eq!(linux_pan_gpui_user_agent(&once), once);
}

#[test]
fn prefixing_twice_is_prefixing_once() {
    let once = prepend_webview_user_agent_prefix(" PAN ", " Mozilla ").unwrap();
    assert_eq!(once, "PAN Mozilla");
    assert_eq!(prepend_webview_user_agent_prefix(" PAN ", &once).unwrap(), once);
}

#[test]
fn native_plan_passes_on_the_webview_error() {
    let plan = WebviewUserAgent::Native {
        prefix: "PAN".to_string(),
        transform: WebviewUserAgentTransform::Unchanged,
    };
    let err = compose_webview_user_agent(&plan, || Err("no webview".to_string())).unwrap_err();
    assert_eq!(err, "no webview");
}

#[test]
fn temporarily_unavailable_page_is_invalid() {
    match read_from_html("<html>Temporarily Unavailable</html>") {
        AuthEvent::Error(AuthError::Invalid(msg, AuthDataLocation::Body)) => assert_eq!(msg, "Temporarily Unavailable"),
        _ => panic!("expected an invalid page"),
    }
}

#[test]
fn page_with_saml_tags_gives_data() {
    let html = "<saml-auth-status>1</saml-auth-status><saml-username>alice</saml-username><prelogin-cookie>cookie-123456</prelogin-cookie>";
    match read_from_html(html) {
        AuthEvent::Data(d, AuthDataLocation::Body) => {
            assert_eq!(d.username(), "alice");
            assert_eq!(d.prelogin_cookie(), Some("cookie-123456"));
        }
        _ => panic!("expected data"),
    }
}

#[test]
fn page_without_data_is_not_found() {
    assert!(matches!(
        read_from_html("<html>nothing</html>"),
        AuthEvent::Error(AuthError::NotFound(AuthDataLocation::Body))
    ));
}

#[test]
fn headers_without_status_report_not_found() {
    assert!(matches!(
        read_from_response(None, None, None, None),
        Some(AuthEvent::Error(AuthError::NotFound(AuthDataLocation::Headers)))
    ));
}

#[test]
fn headers_with_bad_status_give_no_event() {
    assert!(read_from_response(Some("0".to_string()), Some("alice".to_string()), None, None).is_none());
}

#[test]
fn headers_with_data_give_data() {
    match read_from_response(
        Some("1".to_string()),
        Some("alice".to_string()),
        Some("cookie-123456".to_string()),
        None,
    ) {
        Some(AuthEvent::Data(d, AuthDataLocation::Headers)) => assert_eq!(d.username(), "alice"),
        _ => panic!("expected data"),
    }
}

#[test]
fn login_loop_actions() {
    assert!(matches!(next_login_action(AuthEvent::Close, false), LoginAction::Cancel));
    assert!(matches!(next_login_action(AuthEvent::RaiseWindow, true), LoginAction::Wait));
    assert!(matches!(next_login_action(AuthEvent::RaiseWindow, false), LoginAction::Raise));
    assert!(matches!(next_login_action(AuthEvent::Error(AuthError::TlsError), false), LoginAction::FailTls));
    assert!(matches!(
        next_login_action(AuthEvent::Error(AuthError::NotFound(AuthDataLocation::Body)), false),
        LoginAction::ScheduleRaise(2)
    ));
    assert!(matches!(
        next_login_action(AuthEvent::Error(AuthError::Invalid("x".to_string(), AuthDataLocation::Body)), true),
        LoginAction::Retry
    ));
}

#[test]
fn auth_request_knows_urls() {
    assert!(AuthRequest::new("https://sso.example.com").is_url());
    assert!(!AuthRequest::new("<html></html>").is_url());
    assert_eq!(AuthRequest::new("abc").as_str(), "abc");
}

#[test]
fn acs_endpoint_is_recognized() {
    assert!(is_acs_endpoint(Some("https://vpn.example.com/SAML20/SP/ACS")));
    assert!(!is_acs_endpoint(Some("https://vpn.example.com/other")));
    assert!(!is_acs_endpoint(None));
}

#[test]
fn body_without_data_at_consumer_endpoint_is_invalid() {
    let r = auth_result_from(Err(AuthDataParseError::NotFound), true, Ok(Some("<html></html>".to_string())));
    assert!(matches!(r, Some(Err(ReadError::Invalid))));
    let r = auth_result_from(Err(AuthDataParseError::NotFound), false, Ok(Some("<html></html>".to_string())));
    assert!(matches!(r, Some(Err(ReadError::NotFound))));
    let r = auth_result_from(Err(AuthDataParseError::NotFound), false, Ok(None));
    assert!(r.is_none());
    let r = auth_result_from(Err(AuthDataParseError::NotFound), false, Err("io".to_string()));
    assert!(matches!(r, Some(Err(ReadError::Invalid))));
}

#[test]
fn accepts_server_trust_challenges() {
    assert_eq!(challenge_disposition(true), ChallengeDisposition::UseCredential);
}

#[test]
fn preserves_default_handling_for_other_challenges() {
    assert_eq!(challenge_disposition(false), ChallengeDisposition::PerformDefaultHandling);
}

#[test]
fn blank_native_user_agent_is_reported() {
    let plan = WebviewUserAgent::Native {
        prefix: "PAN".to_string(),
        transform: WebviewUserAgentTransform::Unchanged,
    };
    let err = compose_webview_user_agent(&plan, || Ok("  ".to_string())).unwrap_err();
    assert_eq!(err, "Failed to read default webview user agent");
}
