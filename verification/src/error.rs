//! Errors that the library's operations report.
use vstd::prelude::*;

use crate::text::{contains, contains_str};

verus! {

/// What went wrong while talking to a portal.
///
/// A network failure is held by its message, the text that the HTTP client
/// reported for it.
#[derive(Debug)]
pub enum PortalError {
    PreloginError(String),
    ConfigError(String),
    NetworkError(String),
    TlsError,
}

impl PortalError {
    /// The failure is OpenSSL's refusal of legacy renegotiation.
    pub fn is_legacy_openssl_error(&self) -> (r: bool)
        ensures
            r == (match self {
                PortalError::NetworkError(msg) => contains(msg@, "unsafe legacy renegotiation"@),
                _ => false,
            }),
    {
        match self {
            PortalError::NetworkError(msg) => contains_str(msg.as_str(), "unsafe legacy renegotiation"),
            _ => false,
        }
    }

    /// The failure is a certificate that did not verify.
    pub fn is_tls_error(&self) -> (r: bool)
        ensures
            r == (match self {
                PortalError::TlsError => true,
                PortalError::NetworkError(msg) => contains(msg@, "certificate verify failed"@),
                _ => false,
            }),
    {
        match self {
            PortalError::TlsError => true,
            PortalError::NetworkError(msg) => contains_str(msg.as_str(), "certificate verify failed"),
            _ => false,
        }
    }
}

/// Why authentication data could not be read.
#[derive(Debug)]
pub enum AuthDataParseError {
    /// No authentication data was found.
    NotFound,
    /// Authentication data was found but is unusable; the message says why.
    Invalid(String),
}

impl AuthDataParseError {
    pub fn is_invalid(&self) -> (r: bool)
        ensures
            r == (self is Invalid),
    {
        match self {
            AuthDataParseError::Invalid(_) => true,
            AuthDataParseError::NotFound => false,
        }
    }
}

} // verus!
