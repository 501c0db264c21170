//! Gateways: the VPN endpoints a portal lists, and how a login names them.
pub mod login;
pub mod parse_gateways;
pub mod hip;
pub mod session;




use vstd::prelude::*;

use crate::text::{as_opt_str, clone_opt, opt_str_view, opt_view};

verus! {

broadcast use vstd::string::group_string_axioms;

/// A gateway's priority under a rule of the portal's configuration.
#[derive(Debug)]
pub struct PriorityRule {
    pub name: String,
    pub priority: u32,
}

impl Clone for PriorityRule {
    fn clone(&self) -> (r: Self)
        ensures
            r == *self,
    {
        PriorityRule { name: self.name.clone(), priority: self.priority }
    }
}

/// A gateway as the portal lists it: its description, its address, whether
/// it is internal, and its priorities (lower is preferred).
#[derive(Debug)]
pub struct Gateway {
    pub name: String,
    pub address: String,
    pub kind: GatewayKind,
    pub priority: u32,
    pub priority_rules: Vec<PriorityRule>,
}

impl Clone for Gateway {
    fn clone(&self) -> (r: Self)
        ensures
            r.name@ == self.name@,
            r.address@ == self.address@,
            r.kind == self.kind,
            r.priority == self.priority,
            r.priority_rules@ == self.priority_rules@,
    {
        let mut rules: Vec<PriorityRule> = Vec::new();
        let mut i: usize = 0;
        while i < self.priority_rules.len()
            invariant
                i <= self.priority_rules.len(),
                rules@ == self.priority_rules@.take(i as int),
            decreases self.priority_rules.len() - i,
        {
            rules.push(self.priority_rules[i].clone());
            assert(rules@ =~= self.priority_rules@.take(i + 1));
            i += 1;
        }
        assert(self.priority_rules@.take(self.priority_rules.len() as int) =~= self.priority_rules@);
        Gateway {
            name: self.name.clone(),
            address: self.address.clone(),
            kind: self.kind,
            priority: self.priority,
            priority_rules: rules,
        }
    }
}

/// Whether a gateway is inside the corporate network.
#[derive(Debug, Clone, Copy, PartialEq, Eq, Structural)]
pub enum GatewayKind {
    Internal,
    External,
}

impl GatewayKind {
    /// The `internal` value of a gateway login.
    pub fn as_login_param(self) -> (r: &'static str)
        ensures
            r@ == match self {
                GatewayKind::Internal => "yes"@,
                GatewayKind::External => "no"@,
            },
    {
        match self {
            GatewayKind::Internal => "yes",
            GatewayKind::External => "no",
        }
    }
}

/// Whether the gateway was chosen by the client or by the user.
#[derive(Debug, Clone, Copy, PartialEq, Eq, Structural)]
pub enum GatewaySelection {
    Auto,
    Manual,
}

impl GatewaySelection {
    /// The `selection-type` value of a gateway login.
    pub fn as_login_param(self) -> (r: &'static str)
        ensures
            r@ == match self {
                GatewaySelection::Auto => "auto"@,
                GatewaySelection::Manual => "manual"@,
            },
    {
        match self {
            GatewaySelection::Auto => "auto",
            GatewaySelection::Manual => "manual",
        }
    }
}

impl Gateway {
    /// An external gateway with no priority.
    pub fn new(name: String, address: String) -> (r: Self)
        ensures
            r.name@ == name@,
            r.address@ == address@,
            r.kind == GatewayKind::External,
            r.priority == 0,
            r.priority_rules@.len() == 0,
    {
        Gateway { name, address, kind: GatewayKind::External, priority: 0, priority_rules: Vec::new() }
    }

    pub fn name(&self) -> (r: &str)
        ensures
            r@ == self.name@,
    {
        self.name.as_str()
    }

    pub fn server(&self) -> (r: &str)
        ensures
            r@ == self.address@,
    {
        self.address.as_str()
    }

    pub fn kind(&self) -> (r: GatewayKind)
        ensures
            r == self.kind,
    {
        self.kind
    }

    /// `name (address)`, as the gateway is shown.
    pub fn display(&self) -> (r: String)
        ensures
            r@ == self.name@ + " ("@ + self.address@ + ")"@,
    {
        let mut r = self.name.clone();
        r.append(" (");
        r.append(self.address.as_str());
        r.append(")");
        r
    }
}

/// What a gateway login says of the gateway and of how it was chosen.
#[derive(Debug)]
pub struct GatewayLoginContext {
    host: String,
    name: String,
    kind: GatewayKind,
    selection: GatewaySelection,
    connect_method: Option<String>,
    client_version: Option<String>,
    client_ip: Option<String>,
}

pub struct GatewayLoginContextView {
    pub host: Seq<char>,
    pub name: Seq<char>,
    pub kind: GatewayKind,
    pub selection: GatewaySelection,
    pub connect_method: Option<Seq<char>>,
    pub client_version: Option<Seq<char>>,
    pub client_ip: Option<Seq<char>>,
}

impl View for GatewayLoginContext {
    type V = GatewayLoginContextView;

    closed spec fn view(&self) -> GatewayLoginContextView {
        GatewayLoginContextView {
            host: self.host@,
            name: self.name@,
            kind: self.kind,
            selection: self.selection,
            connect_method: opt_view(self.connect_method),
            client_version: opt_view(self.client_version),
            client_ip: opt_view(self.client_ip),
        }
    }
}

impl Clone for GatewayLoginContext {
    fn clone(&self) -> (r: Self)
        ensures
            r@ == self@,
    {
        GatewayLoginContext {
            host: self.host.clone(),
            name: self.name.clone(),
            kind: self.kind,
            selection: self.selection,
            connect_method: clone_opt(&self.connect_method),
            client_version: clone_opt(&self.client_version),
            client_ip: clone_opt(&self.client_ip),
        }
    }
}

/// A value kept only when it is not empty.
pub open spec fn non_empty_opt(v: Option<Seq<char>>) -> Option<Seq<char>> {
    match v {
        Some(s) => if s.len() > 0 {
            Some(s)
        } else {
            None
        },
        None => None,
    }
}

fn non_empty_text(v: Option<&str>) -> (r: Option<String>)
    ensures
        opt_view(r) == non_empty_opt(opt_str_view(v)),
{
    match v {
        Some(s) => if s.is_empty() {
            None
        } else {
            Some(s.to_string())
        },
        None => None,
    }
}

impl GatewayLoginContext {
    /// The context of a login to `gateway`: the gateway's name is its
    /// description, or its address when the description is empty.
    pub fn new(gateway: &Gateway, selection: GatewaySelection) -> (r: Self)
        ensures
            r@ == (GatewayLoginContextView {
                host: gateway.address@,
                name: if gateway.name@.len() == 0 {
                    gateway.address@
                } else {
                    gateway.name@
                },
                kind: gateway.kind,
                selection,
                connect_method: None,
                client_version: None,
                client_ip: None,
            }),
    {
        let name = if gateway.name().is_empty() {
            gateway.server()
        } else {
            gateway.name()
        };
        GatewayLoginContext {
            host: gateway.server().to_string(),
            name: name.to_string(),
            kind: gateway.kind(),
            selection,
            connect_method: None,
            client_version: None,
            client_ip: None,
        }
    }

    /// The portal's connect method; an empty one is dropped.
    pub fn with_connect_method(self, connect_method: Option<&str>) -> (r: Self)
        ensures
            r@ == (GatewayLoginContextView {
                connect_method: non_empty_opt(opt_str_view(connect_method)),
                ..self@
            }),
    {
        GatewayLoginContext { connect_method: non_empty_text(connect_method), ..self }
    }

    /// The client version to report; an empty one is dropped.
    pub fn with_client_version(self, client_version: Option<&str>) -> (r: Self)
        ensures
            r@ == (GatewayLoginContextView {
                client_version: non_empty_opt(opt_str_view(client_version)),
                ..self@
            }),
    {
        GatewayLoginContext { client_version: non_empty_text(client_version), ..self }
    }

    /// The client's address to report; an empty one is dropped.
    pub fn with_client_ip(self, client_ip: Option<String>) -> (r: Self)
        ensures
            r@ == (GatewayLoginContextView { client_ip: non_empty_opt(opt_view(client_ip)), ..self@ }),
    {
        let client_ip = match client_ip {
            Some(ip) => if ip.as_str().is_empty() {
                None
            } else {
                Some(ip)
            },
            None => None,
        };
        GatewayLoginContext { client_ip, ..self }
    }

    pub fn host(&self) -> (r: &str)
        ensures
            r@ == self@.host,
    {
        self.host.as_str()
    }

    pub fn name(&self) -> (r: &str)
        ensures
            r@ == self@.name,
    {
        self.name.as_str()
    }

    pub fn kind(&self) -> (r: GatewayKind)
        ensures
            r == self@.kind,
    {
        self.kind
    }

    pub fn selection(&self) -> (r: GatewaySelection)
        ensures
            r == self@.selection,
    {
        self.selection
    }

    pub fn connect_method(&self) -> (r: Option<&str>)
        ensures
            opt_str_view(r) == self@.connect_method,
    {
        as_opt_str(&self.connect_method)
    }

    pub fn client_version(&self) -> (r: Option<&str>)
        ensures
            opt_str_view(r) == self@.client_version,
    {
        as_opt_str(&self.client_version)
    }

    pub fn client_ip(&self) -> (r: Option<&str>)
        ensures
            opt_str_view(r) == self@.client_ip,
    {
        as_opt_str(&self.client_ip)
    }
}

} // verus!
