//! A verified library for the GlobalProtect VPN protocol: credentials, SAML
//! authentication data, operating-system profiles and the request parameters
//! that the portal and gateway endpoints expect.

pub mod auth;
pub mod browser;
pub mod callback;
pub mod cli;
pub mod common;
pub mod cookie_store;
pub mod credential;
pub mod error;
pub mod gateway;
pub mod gp_params;
pub mod os_profile;
pub mod params;
pub mod portal;
pub mod server;
pub mod session;
pub mod text;
pub mod webview;
pub mod webview_auth;
pub mod xml;
