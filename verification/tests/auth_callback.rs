use gpapi::callback::{
    callback_from_payload, check_request_header, confirm_handler_registration, encode_callback_request,
    ensure_auth_callback_handler,
    forward_outcome, response_status, should_register_handler, validate_callback, CallbackReadError,
    MAX_CALLBACK_SIZE,
};

const VALID_CALLBACK: &str = "globalprotectcallback:cas-as=1&un=alice@example.com&token=very_long_string";

#[test]
fn validates_supported_callback_scheme() {
    assert!(validate_callback(VALID_CALLBACK).is_ok());
    assert!(validate_callback("https://example.com").is_err());
    assert!(validate_callback("globalprotectcallback:").is_err());
    assert!(validate_callback(&format!("globalprotectcallback:{}", "x".repeat(MAX_CALLBACK_SIZE))).is_err());
}

#[test]
fn preserves_unrelated_callback_handler() {
    assert!(!should_register_handler("gpauth.desktop").unwrap());
    assert!(should_register_handler("").unwrap());
    assert!(should_register_handler("gpgui.desktop").unwrap());
    assert!(should_register_handler("other-vpn.desktop").is_err());
}

#[test]
fn forwarded_callback_reads_back() {
    let frame = encode_callback_request(VALID_CALLBACK);
    assert_eq!(&frame[0..4], b"GPAC");
    assert_eq!(frame[4], 1);
    let len = u32::from_be_bytes([frame[5], frame[6], frame[7], frame[8]]);
    let n = check_request_header(&frame[0..4], frame[4], len).unwrap();
    assert_eq!(n, VALID_CALLBACK.len());
    let payload = frame[9..].to_vec();
    assert_eq!(callback_from_payload(payload).unwrap(), VALID_CALLBACK);
}

#[test]
fn bad_request_headers_are_refused() {
    assert_eq!(check_request_header(b"XXXX", 1, 5), Err(CallbackReadError::Invalid));
    assert_eq!(check_request_header(b"GPAC", 2, 5), Err(CallbackReadError::UnsupportedVersion));
    assert_eq!(check_request_header(b"GPAC", 1, 0), Err(CallbackReadError::Invalid));
    assert_eq!(check_request_header(b"GPAC", 1, 1048577), Err(CallbackReadError::Invalid));
    assert_eq!(callback_from_payload(vec![0xff, 0xfe]), Err(CallbackReadError::Invalid));
    assert_eq!(callback_from_payload(b"https://x".to_vec()), Err(CallbackReadError::Invalid));
}

#[test]
fn statuses_and_outcomes() {
    assert_eq!(response_status(Ok(true)), Some(0));
    assert_eq!(response_status(Ok(false)), Some(1));
    assert_eq!(response_status(Err(CallbackReadError::UnsupportedVersion)), Some(2));
    assert_eq!(response_status(Err(CallbackReadError::Io)), None);
    assert!(forward_outcome(1, 0).is_ok());
    assert_eq!(forward_outcome(2, 0).unwrap_err(), "Authentication callback protocol version mismatch");
    assert_eq!(forward_outcome(1, 1).unwrap_err(), "Authentication callback was rejected");
    assert_eq!(forward_outcome(1, 9).unwrap_err(), "Authentication callback handler returned an unknown status");
}

#[test]
fn handler_registration_must_take_effect() {
    assert!(confirm_handler_registration(true, "gpauth.desktop").is_ok());
    assert!(confirm_handler_registration(false, "gpauth.desktop").is_err());
    assert!(confirm_handler_registration(true, "gpgui.desktop").is_err());
}

#[test]
fn handler_already_owned_by_gpauth_is_not_registered_again() {
    let registered = std::cell::Cell::new(false);
    let result = ensure_auth_callback_handler(
        || Ok("gpauth.desktop".to_string()),
        || {
            registered.set(true);
            Ok(true)
        },
    );
    assert!(result.is_ok());
    assert!(!registered.get());
}

#[test]
fn handler_is_registered_when_unowned_and_confirmed() {
    let calls = std::cell::Cell::new(0);
    let query = || {
        calls.set(calls.get() + 1);
        if calls.get() == 1 { Ok(String::new()) } else { Ok("gpauth.desktop".to_string()) }
    };
    assert!(ensure_auth_callback_handler(query, || Ok(true)).is_ok());
    assert_eq!(calls.get(), 2);
}

#[test]
fn registration_that_does_not_take_effect_is_an_error() {
    let err = ensure_auth_callback_handler(|| Ok("gpgui.desktop".to_string()), || Ok(true)).unwrap_err();
    assert_eq!(err, "The globalprotectcallback URL handler registration did not take effect");
}

#[test]
fn handler_owned_by_another_program_is_reported() {
    let err = ensure_auth_callback_handler(|| Ok("other.desktop".to_string()), || Ok(true)).unwrap_err();
    assert_eq!(err, "The globalprotectcallback URL scheme is owned by other.desktop");
}

#[test]
fn failed_registration_is_an_error() {
    let err = ensure_auth_callback_handler(|| Ok(String::new()), || Ok(false)).unwrap_err();
    assert_eq!(err, "Failed to register the globalprotectcallback URL handler");
}
