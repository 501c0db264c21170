use gpapi::server::{normalize_server, remove_url_scheme};

#[test]
fn bare_host_gets_https_scheme() {
    assert_eq!(normalize_server("vpn.example.com"), "https://vpn.example.com");
}

#[test]
fn scheme_is_kept_and_trailing_slash_dropped() {
    assert_eq!(normalize_server("  http://vpn.example.com/ "), "http://vpn.example.com");
    assert_eq!(normalize_server("https://vpn.example.com"), "https://vpn.example.com");
}

#[test]
fn scheme_is_removed_from_url() {
    assert_eq!(remove_url_scheme("https://vpn.example.com"), "vpn.example.com");
    assert_eq!(remove_url_scheme("http://vpn.example.com:8443"), "vpn.example.com:8443");
    assert_eq!(remove_url_scheme("vpn.example.com"), "vpn.example.com");
}
