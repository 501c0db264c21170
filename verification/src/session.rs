//! What a running session was connected with.
use vstd::prelude::*;

use crate::os_profile::ClientOs;
use crate::text::{as_opt_str, clone_opt, opt_str_view, opt_view};

verus! {

broadcast use vstd::string::group_string_axioms;

/// The arguments a session was connected with: the gateway's cookie and
/// how the client presented itself.
#[derive(Debug)]
pub struct SessionRequestArgs {
    cookie: String,
    os: Option<ClientOs>,
    os_version: Option<String>,
    client_version: Option<String>,
    user_agent: Option<String>,
    certificate: Option<String>,
    sslkey: Option<String>,
    key_password: Option<String>,
    disable_ipv6: bool,
}

pub struct SessionRequestArgsView {
    pub cookie: Seq<char>,
    pub os: Option<ClientOs>,
    pub os_version: Option<Seq<char>>,
    pub client_version: Option<Seq<char>>,
    pub user_agent: Option<Seq<char>>,
    pub certificate: Option<Seq<char>>,
    pub sslkey: Option<Seq<char>>,
    pub key_password: Option<Seq<char>>,
    pub disable_ipv6: bool,
}

impl View for SessionRequestArgs {
    type V = SessionRequestArgsView;

    closed spec fn view(&self) -> SessionRequestArgsView {
        SessionRequestArgsView {
            cookie: self.cookie@,
            os: self.os,
            os_version: opt_view(self.os_version),
            client_version: opt_view(self.client_version),
            user_agent: opt_view(self.user_agent),
            certificate: opt_view(self.certificate),
            sslkey: opt_view(self.sslkey),
            key_password: opt_view(self.key_password),
            disable_ipv6: self.disable_ipv6,
        }
    }
}

impl Clone for SessionRequestArgs {
    fn clone(&self) -> (r: Self)
        ensures
            r@ == self@,
    {
        SessionRequestArgs {
            cookie: self.cookie.clone(),
            os: self.os,
            os_version: clone_opt(&self.os_version),
            client_version: clone_opt(&self.client_version),
            user_agent: clone_opt(&self.user_agent),
            certificate: clone_opt(&self.certificate),
            sslkey: clone_opt(&self.sslkey),
            key_password: clone_opt(&self.key_password),
            disable_ipv6: self.disable_ipv6,
        }
    }
}

impl SessionRequestArgs {
    pub fn new(cookie: String) -> (r: Self)
        ensures
            r@ == (SessionRequestArgsView {
                cookie: cookie@,
                os: None,
                os_version: None,
                client_version: None,
                user_agent: None,
                certificate: None,
                sslkey: None,
                key_password: None,
                disable_ipv6: false,
            }),
    {
        SessionRequestArgs {
            cookie,
            os: None,
            os_version: None,
            client_version: None,
            user_agent: None,
            certificate: None,
            sslkey: None,
            key_password: None,
            disable_ipv6: false,
        }
    }

    pub fn with_os(self, os: Option<ClientOs>) -> (r: Self)
        ensures
            r@ == (SessionRequestArgsView { os, ..self@ }),
    {
        SessionRequestArgs { os, ..self }
    }

    pub fn with_os_version(self, os_version: Option<String>) -> (r: Self)
        ensures
            r@ == (SessionRequestArgsView { os_version: opt_view(os_version), ..self@ }),
    {
        SessionRequestArgs { os_version, ..self }
    }

    pub fn with_client_version(self, client_version: Option<String>) -> (r: Self)
        ensures
            r@ == (SessionRequestArgsView { client_version: opt_view(client_version), ..self@ }),
    {
        SessionRequestArgs { client_version, ..self }
    }

    pub fn with_user_agent(self, user_agent: Option<String>) -> (r: Self)
        ensures
            r@ == (SessionRequestArgsView { user_agent: opt_view(user_agent), ..self@ }),
    {
        SessionRequestArgs { user_agent, ..self }
    }

    pub fn with_certificate(self, certificate: Option<String>, sslkey: Option<String>, key_password: Option<String>) -> (r: Self)
        ensures
            r@ == (SessionRequestArgsView {
                certificate: opt_view(certificate),
                sslkey: opt_view(sslkey),
                key_password: opt_view(key_password),
                ..self@
            }),
    {
        SessionRequestArgs { certificate, sslkey, key_password, ..self }
    }

    pub fn with_disable_ipv6(self, disable_ipv6: bool) -> (r: Self)
        ensures
            r@ == (SessionRequestArgsView { disable_ipv6, ..self@ }),
    {
        SessionRequestArgs { disable_ipv6, ..self }
    }

    /// The gateway's session cookie, form-encoded.
    pub fn cookie(&self) -> (r: &str)
        ensures
            r@ == self@.cookie,
    {
        self.cookie.as_str()
    }

    pub fn os(&self) -> (r: Option<ClientOs>)
        ensures
            r == self@.os,
    {
        self.os
    }

    pub fn os_version(&self) -> (r: Option<&str>)
        ensures
            opt_str_view(r) == self@.os_version,
    {
        as_opt_str(&self.os_version)
    }

    pub fn client_version(&self) -> (r: Option<&str>)
        ensures
            opt_str_view(r) == self@.client_version,
    {
        as_opt_str(&self.client_version)
    }

    pub fn user_agent(&self) -> (r: Option<&str>)
        ensures
            opt_str_view(r) == self@.user_agent,
    {
        as_opt_str(&self.user_agent)
    }

    pub fn certificate(&self) -> (r: Option<&str>)
        ensures
            opt_str_view(r) == self@.certificate,
    {
        as_opt_str(&self.certificate)
    }

    pub fn sslkey(&self) -> (r: Option<&str>)
        ensures
            opt_str_view(r) == self@.sslkey,
    {
        as_opt_str(&self.sslkey)
    }

    pub fn key_password(&self) -> (r: Option<&str>)
        ensures
            opt_str_view(r) == self@.key_password,
    {
        as_opt_str(&self.key_password)
    }

    pub fn disable_ipv6(&self) -> (r: bool)
        ensures
            r == self@.disable_ipv6,
    {
        self.disable_ipv6
    }
}

} // verus!
