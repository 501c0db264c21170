//! The parameters of a gateway login (`login.esp`).
use vstd::prelude::*;

use super::credential::{credential_params, or_empty};
use super::{extend_params, push_param, set_body_param, set_param, Pairs, RequestParams};
use crate::credential::Credential;
use crate::gateway::{GatewayKind, GatewayLoginContext, GatewayLoginContextView, GatewaySelection};
use crate::gp_params::{GpParams, GpParamsView};
use crate::os_profile::client_os_name;
use crate::text::{decimal, opt_str_view, opt_view};

verus! {

broadcast use vstd::string::group_string_axioms;

/// What a gateway login is made of.
#[derive(Debug)]
pub struct GatewayLoginInput<'a> {
    pub gp_params: &'a GpParams,
    pub cred: &'a Credential,
    pub gateway_host: &'a str,
    pub context: Option<&'a GatewayLoginContext>,
    pub client_ip: Option<&'a str>,
    pub extend_lifetime: bool,
}

pub open spec fn opt_context_view(c: Option<&GatewayLoginContext>) -> Option<GatewayLoginContextView> {
    match c {
        Some(x) => Some(x@),
        None => None,
    }
}

pub open spec fn kind_param(k: GatewayKind) -> Seq<char> {
    match k {
        GatewayKind::Internal => "yes"@,
        GatewayKind::External => "no"@,
    }
}

pub open spec fn selection_param(s: GatewaySelection) -> Seq<char> {
    match s {
        GatewaySelection::Auto => "auto"@,
        GatewaySelection::Manual => "manual"@,
    }
}

/// The credential's fields and the fixed fields of a login.
pub open spec fn login_common(c: Credential, gp: GpParamsView) -> Pairs {
    let p = gp.os_profile;
    credential_params(c, p.client_os) + seq![
        ("prot"@, "https:"@),
        ("jnlpReady"@, "jnlpReady"@),
        ("ok"@, "Login"@),
        ("direct"@, "yes"@),
        ("ipv6-support"@, "yes"@),
        ("clientVer"@, "4100"@),
        ("clientos"@, client_os_name(p.client_os)),
        ("computer"@, p.identity.computer),
        ("inputStr"@, or_empty(gp.input_str)),
    ]
}

/// A one-time password replaces the password: `passwd` is sent once.
pub open spec fn with_otp(s: Pairs, gp: GpParamsView) -> Pairs {
    match gp.otp {
        Some(o) => set_param(s, "passwd"@, o),
        None => s,
    }
}

/// The login fields up to the client version.
pub open spec fn login_identity(c: Credential, gp: GpParamsView, server: Seq<char>) -> Pairs {
    let p = gp.os_profile;
    with_otp(login_common(c, gp), gp) + seq![
        ("os-version"@, p.os_version),
        ("server"@, server),
        ("host-id"@, p.identity.host_id),
        ("serialno"@, p.identity.serial_number),
        ("preferred-ip"@, Seq::empty()),
        ("preferred-ipv6"@, Seq::empty()),
        ("clientgpversion"@, p.client_version),
    ]
}

/// The fields that name the gateway and how it was chosen.
pub open spec fn login_context(s: Pairs, gp: GpParamsView, x: GatewayLoginContextView, client_ip: Option<Seq<char>>) -> Pairs {
    let a = s + seq![
        ("host"@, x.host),
        ("gw"@, x.host),
        ("gateway-name"@, x.host),
        ("internal"@, kind_param(x.kind)),
        ("selection-type"@, selection_param(x.selection)),
        ("client-ipv6"@, Seq::empty()),
    ];
    let b = match x.connect_method {
        Some(m) => a.push(("connect-method"@, m)),
        None => a,
    };
    let c = set_param(b, "clientgpversion"@, gp.os_profile.client_version);
    match client_ip {
        Some(ip) => c.push(("client-ip"@, ip)),
        None => c,
    }
}

/// The form body of a gateway login naming the gateway `server`.
pub open spec fn gateway_login_body(
    c: Credential,
    gp: GpParamsView,
    server: Seq<char>,
    context: Option<GatewayLoginContextView>,
    client_ip: Option<Seq<char>>,
    extend_lifetime: bool,
) -> Pairs {
    let s1 = login_identity(c, gp, server);
    let s2 = match context {
        Some(x) => login_context(s1, gp, x, client_ip),
        None => s1,
    };
    if extend_lifetime {
        s2.push(("extend-lifetime"@, "true"@))
    } else {
        s2
    }
}

fn login_common_params(cred: &Credential, gp_params: &GpParams) -> (r: Vec<(String, String)>)
    ensures
        r.deep_view() == login_common(*cred, gp_params@),
{
    let profile = gp_params.os_profile();
    let mut body = super::credential::build(cred, gp_params);
    let mut rest: Vec<(String, String)> = Vec::new();
    push_param(&mut rest, "prot", "https:");
    push_param(&mut rest, "jnlpReady", "jnlpReady");
    push_param(&mut rest, "ok", "Login");
    push_param(&mut rest, "direct", "yes");
    push_param(&mut rest, "ipv6-support", "yes");
    push_param(&mut rest, "clientVer", "4100");
    push_param(&mut rest, "clientos", profile.client_os().as_str());
    push_param(&mut rest, "computer", profile.computer());
    proof {
        reveal_strlit("");
    }
    let input_str = match gp_params.input_str() {
        Some(s) => s,
        None => "",
    };
    push_param(&mut rest, "inputStr", input_str);
    assert(""@ =~= Seq::<char>::empty());
    assert(input_str@ == or_empty(gp_params@.input_str));
    assert(rest.deep_view() =~= seq![
        ("prot"@, "https:"@),
        ("jnlpReady"@, "jnlpReady"@),
        ("ok"@, "Login"@),
        ("direct"@, "yes"@),
        ("ipv6-support"@, "yes"@),
        ("clientVer"@, "4100"@),
        ("clientos"@, client_os_name(gp_params@.os_profile.client_os)),
        ("computer"@, gp_params@.os_profile.identity.computer),
        ("inputStr"@, or_empty(gp_params@.input_str)),
    ]);
    extend_params(&mut body, rest);
    assert(body.deep_view() =~= login_common(*cred, gp_params@));
    body
}

fn identity_params(gp_params: &GpParams, server: &str) -> (r: Vec<(String, String)>)
    ensures
        r.deep_view() == seq![
            ("os-version"@, gp_params@.os_profile.os_version),
            ("server"@, server@),
            ("host-id"@, gp_params@.os_profile.identity.host_id),
            ("serialno"@, gp_params@.os_profile.identity.serial_number),
            ("preferred-ip"@, Seq::<char>::empty()),
            ("preferred-ipv6"@, Seq::<char>::empty()),
            ("clientgpversion"@, gp_params@.os_profile.client_version),
        ],
{
    let profile = gp_params.os_profile();
    let mut rest: Vec<(String, String)> = Vec::new();
    push_param(&mut rest, "os-version", profile.os_version());
    push_param(&mut rest, "server", server);
    push_param(&mut rest, "host-id", profile.host_id());
    push_param(&mut rest, "serialno", profile.serialno());
    proof {
        reveal_strlit("");
    }
    push_param(&mut rest, "preferred-ip", "");
    push_param(&mut rest, "preferred-ipv6", "");
    push_param(&mut rest, "clientgpversion", profile.client_version());
    assert(""@ =~= Seq::<char>::empty());
    assert(rest.deep_view() =~= seq![
        ("os-version"@, gp_params@.os_profile.os_version),
        ("server"@, server@),
        ("host-id"@, gp_params@.os_profile.identity.host_id),
        ("serialno"@, gp_params@.os_profile.identity.serial_number),
        ("preferred-ip"@, Seq::<char>::empty()),
        ("preferred-ipv6"@, Seq::<char>::empty()),
        ("clientgpversion"@, gp_params@.os_profile.client_version),
    ]);
    rest
}

fn push_context(
    body: &mut Vec<(String, String)>,
    gp_params: &GpParams,
    context: &GatewayLoginContext,
    client_ip: Option<&str>,
)
    ensures
        final(body).deep_view() == login_context(old(body).deep_view(), gp_params@, context@, opt_str_view(client_ip)),
{
    let mut rest: Vec<(String, String)> = Vec::new();
    push_param(&mut rest, "host", context.host());
    push_param(&mut rest, "gw", context.host());
    push_param(&mut rest, "gateway-name", context.host());
    push_param(&mut rest, "internal", context.kind().as_login_param());
    push_param(&mut rest, "selection-type", context.selection().as_login_param());
    proof {
        reveal_strlit("");
    }
    push_param(&mut rest, "client-ipv6", "");
    assert(""@ =~= Seq::<char>::empty());
    let ghost x = context@;
    assert(rest.deep_view() =~= seq![
        ("host"@, x.host),
        ("gw"@, x.host),
        ("gateway-name"@, x.host),
        ("internal"@, kind_param(x.kind)),
        ("selection-type"@, selection_param(x.selection)),
        ("client-ipv6"@, Seq::<char>::empty()),
    ]);
    extend_params(body, rest);
    let ghost a = body.deep_view();
    match context.connect_method() {
        Some(m) => push_param(body, "connect-method", m),
        None => {},
    }
    let ghost b = body.deep_view();
    assert(b == match x.connect_method {
        Some(m) => a.push(("connect-method"@, m)),
        None => a,
    });
    set_body_param(body, "clientgpversion", gp_params.os_profile().client_version());
    match client_ip {
        Some(ip) => push_param(body, "client-ip", ip),
        None => {},
    }
}

/// The login's body with `server` as the `server` field; the query is
/// empty.
pub fn build_with_server(input: &GatewayLoginInput, server: &str) -> (r: RequestParams)
    ensures
        r.body.deep_view() == gateway_login_body(
            *input.cred,
            input.gp_params@,
            server@,
            opt_context_view(input.context),
            opt_str_view(input.client_ip),
            input.extend_lifetime,
        ),
        r.query.deep_view().len() == 0,
{
    let gp_params = input.gp_params;
    let mut body = login_common_params(input.cred, gp_params);
    match gp_params.otp() {
        Some(otp) => set_body_param(&mut body, "passwd", otp),
        None => {},
    }
    let rest = identity_params(gp_params, server);
    extend_params(&mut body, rest);
    assert(body.deep_view() =~= login_identity(*input.cred, gp_params@, server@));
    match input.context {
        Some(context) => push_context(&mut body, gp_params, context, input.client_ip),
        None => {},
    }
    if input.extend_lifetime {
        push_param(&mut body, "extend-lifetime", "true");
    }
    let query: Vec<(String, String)> = Vec::new();
    RequestParams { body, query }
}

/// The dotted-decimal text of an IPv4 address, as `Ipv4Addr` displays it.
pub open spec fn dotted_quad(a: u8, b: u8, c: u8, d: u8) -> Seq<char> {
    decimal(a as nat) + "."@ + decimal(b as nat) + "."@ + decimal(c as nat) + "."@ + decimal(d as nat)
}

/// The text of some IPv4 address.
pub open spec fn is_ipv4_text(s: Seq<char>) -> bool {
    exists|a: u8, b: u8, c: u8, d: u8| #[trigger] dotted_quad(a, b, c, d) == s
}

/// The addresses a host name resolves to with `dns_lookup::lookup_host`,
/// each with whether it is IPv4 and its text. Which addresses they are is
/// the name service's; the contract states only that an address marked
/// IPv4 is written in the dotted-decimal form that std's `Display` for
/// `Ipv4Addr` documents.
#[verifier::external_body]
fn lookup_addresses(host: &str) -> (r: Option<Vec<(bool, String)>>)
    ensures
        r matches Some(v) ==> forall|i: int| 0 <= i < v@.len() && (#[trigger] v@[i]).0 ==> is_ipv4_text(v@[i].1@),
{
    dns_lookup::lookup_host(host).ok().map(|addrs| addrs.map(|a| (a.is_ipv4(), a.to_string())).collect())
}

/// The address of the first entry marked IPv4.
pub open spec fn first_ipv4_of(addrs: Seq<(bool, Seq<char>)>) -> Option<Seq<char>>
    decreases addrs.len(),
{
    if addrs.len() == 0 {
        None
    } else if addrs[0].0 {
        Some(addrs[0].1)
    } else {
        first_ipv4_of(addrs.drop_first())
    }
}

/// Of the addresses a lookup gave, each with whether it is IPv4, the first
/// IPv4 one.
pub fn first_ipv4(addrs: &Vec<(bool, String)>) -> (r: Option<String>)
    ensures
        opt_view(r) == first_ipv4_of(addrs@.map_values(|a: (bool, String)| (a.0, a.1@))),
{
    let ghost all = addrs@.map_values(|a: (bool, String)| (a.0, a.1@));
    assert(all.skip(0) =~= all);
    let mut i: usize = 0;
    while i < addrs.len()
        invariant
            i <= addrs.len(),
            all == addrs@.map_values(|a: (bool, String)| (a.0, a.1@)),
            first_ipv4_of(all) == first_ipv4_of(all.skip(i as int)),
        decreases addrs.len() - i,
    {
        assert(all.skip(i as int).drop_first() =~= all.skip(i + 1));
        if addrs[i].0 {
            return Some(addrs[i].1.clone());
        }
        i += 1;
    }
    None
}

/// The first entry marked IPv4 is one of the entries.
proof fn lemma_first_ipv4_is_entry(addrs: Seq<(bool, Seq<char>)>)
    ensures
        first_ipv4_of(addrs) matches Some(x) ==> exists|i: int| 0 <= i < addrs.len() && (#[trigger] addrs[i]).0 && addrs[i].1 == x,
    decreases addrs.len(),
{
    if addrs.len() > 0 && !addrs[0].0 {
        lemma_first_ipv4_is_entry(addrs.drop_first());
        if first_ipv4_of(addrs) is Some {
            let i = choose|i: int| 0 <= i < addrs.drop_first().len() && (#[trigger] addrs.drop_first()[i]).0
                && addrs.drop_first()[i].1 == first_ipv4_of(addrs)->0;
            assert(addrs[i + 1] == addrs.drop_first()[i]);
        }
    } else if addrs.len() > 0 {
        assert(addrs[0].0);
    }
}

/// The first IPv4 address a host name resolves to; which one that is, is
/// the name service's, and it is written in dotted-decimal form.
pub fn resolve_to_ipv4(host: &str) -> (r: Option<String>)
    ensures
        r matches Some(ip) ==> is_ipv4_text(ip@),
{
    match lookup_addresses(host) {
        Some(addrs) => {
            let r = first_ipv4(&addrs);
            proof {
                let all = addrs@.map_values(|a: (bool, String)| (a.0, a.1@));
                lemma_first_ipv4_is_entry(all);
                if r is Some {
                    let i = choose|i: int| 0 <= i < all.len() && (#[trigger] all[i]).0 && all[i].1 == r->0@;
                    assert(addrs@[i].0);
                }
            }
            r
        },
        None => None,
    }
}

/// The server that a lookup of the context's host gives: the address it
/// found, else the gateway host as given.
pub open spec fn server_from_lookup(gateway_host: Seq<char>, found: Option<String>) -> Seq<char> {
    match found {
        Some(ip) => ip@,
        None => gateway_host,
    }
}

/// `server` is what looking up the context's host with `resolve_to_ipv4`
/// gave, or the gateway host when it gave nothing; without a context any
/// server passes.
pub open spec fn server_of_context(
    context: Option<&GatewayLoginContext>,
    gateway_host: Seq<char>,
    server: Seq<char>,
) -> bool {
    match context {
        None => true,
        Some(c) => exists|h: &str, found: Option<String>|
            #![trigger call_ensures(resolve_to_ipv4, (h,), found)]
            h@ == c@.host && call_ensures(resolve_to_ipv4, (h,), found) && server == server_from_lookup(
                gateway_host,
                found,
            ),
    }
}

/// The `server` of a login, looking names up with `resolve`: with a
/// context, what `resolve` gives for the context's host, else the gateway
/// host as given; without a context, the gateway host.
pub fn resolve_server_with<F: Fn(&str) -> Option<String>>(input: &GatewayLoginInput, resolve: F) -> (r: String)
    requires
        forall|h: &str| resolve.requires((h,)),
    ensures
        match input.context {
            None => r@ == input.gateway_host@,
            Some(c) => exists|h: &str, found: Option<String>|
                #![trigger resolve.ensures((h,), found)]
                h@ == c@.host && resolve.ensures((h,), found) && r@ == server_from_lookup(input.gateway_host@, found),
        },
{
    match input.context {
        Some(context) => {
            let h = context.host();
            let found = resolve(h);
            assert(resolve.ensures((h,), found));
            match found {
                Some(ip) => ip,
                None => input.gateway_host.to_string(),
            }
        },
        None => input.gateway_host.to_string(),
    }
}

/// The `server` of a login: with a context, the IPv4 address that the
/// context's host resolves to, when it resolves; else the gateway host as
/// given.
pub fn resolve_server(input: &GatewayLoginInput) -> (r: String)
    ensures
        input.context is None ==> r@ == input.gateway_host@,
        input.context is Some ==> r@ == input.gateway_host@ || is_ipv4_text(r@),
        server_of_context(input.context, input.gateway_host@, r@),
{
    resolve_server_with(input, resolve_to_ipv4)
}

/// The parameters of a gateway login; the `server` field is the
/// gateway's resolved IPv4 address when a context names the gateway and its
/// name resolves.
pub fn build(input: &GatewayLoginInput) -> (r: RequestParams)
    ensures
        exists|server: Seq<char>|
            #![trigger gateway_login_body(*input.cred, input.gp_params@, server, opt_context_view(input.context), opt_str_view(input.client_ip), input.extend_lifetime)]
            {
                &&& r.body.deep_view() == gateway_login_body(
                    *input.cred,
                    input.gp_params@,
                    server,
                    opt_context_view(input.context),
                    opt_str_view(input.client_ip),
                    input.extend_lifetime,
                )
                &&& input.context is None ==> server == input.gateway_host@
                &&& input.context is Some ==> server == input.gateway_host@ || is_ipv4_text(server)
                &&& server_of_context(input.context, input.gateway_host@, server)
            },
        r.query.deep_view().len() == 0,
{
    let server = resolve_server(input);
    let r = build_with_server(input, server.as_str());
    assert(r.body.deep_view() == gateway_login_body(
        *input.cred,
        input.gp_params@,
        server@,
        opt_context_view(input.context),
        opt_str_view(input.client_ip),
        input.extend_lifetime,
    ));
    let ghost sv = server@;
    assert({
        &&& r.body.deep_view() == gateway_login_body(
            *input.cred,
            input.gp_params@,
            sv,
            opt_context_view(input.context),
            opt_str_view(input.client_ip),
            input.extend_lifetime,
        )
        &&& input.context is None ==> sv == input.gateway_host@
        &&& input.context is Some ==> sv == input.gateway_host@ || is_ipv4_text(sv)
        &&& server_of_context(input.context, input.gateway_host@, sv)
    });
    r
}

} // verus!
