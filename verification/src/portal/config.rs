//! The portal's configuration: its gateways, the cookies that log in to
//! them, and its policy switches.
use vstd::prelude::*;

use crate::credential::{AuthCookieCredential, AuthCookieCredentialView, Credential, credential_username};
use crate::gateway::parse_gateways::{gateway_view, gateways_of, parse_gateways, GatewaySpec};
use crate::gateway::{Gateway, GatewayKind};
use crate::params::credential::or_empty;
use crate::text::{opt_str_view, opt_view, str_eq, to_lower, trim, trim_str, unicode_lower};
use crate::xml::{child_text_of, descendant_of, descendant_text_of, XmlElement};

verus! {

broadcast use vstd::string::group_string_axioms;

/// A portal's configuration.
#[derive(Debug)]
pub struct PortalConfig {
    portal: String,
    auth_cookie: AuthCookieCredential,
    config_cred: Credential,
    gateways: Vec<Gateway>,
    connect_method: Option<String>,
    config_digest: Option<String>,
    internal_host_detection: Option<bool>,
    version: Option<String>,
    allow_extend_session: Option<bool>,
    default_browser: Option<bool>,
}

pub struct PortalConfigView {
    pub portal: Seq<char>,
    pub auth_cookie: AuthCookieCredentialView,
    pub config_cred: Credential,
    pub gateways: Seq<GatewaySpec>,
    pub connect_method: Option<Seq<char>>,
    pub config_digest: Option<Seq<char>>,
    pub internal_host_detection: Option<bool>,
    pub version: Option<Seq<char>>,
    pub allow_extend_session: Option<bool>,
    pub default_browser: Option<bool>,
}

impl View for PortalConfig {
    type V = PortalConfigView;

    closed spec fn view(&self) -> PortalConfigView {
        PortalConfigView {
            portal: self.portal@,
            auth_cookie: self.auth_cookie@,
            config_cred: self.config_cred,
            gateways: self.gateways@.map_values(|g: Gateway| gateway_view(g)),
            connect_method: opt_view(self.connect_method),
            config_digest: opt_view(self.config_digest),
            internal_host_detection: self.internal_host_detection,
            version: opt_view(self.version),
            allow_extend_session: self.allow_extend_session,
            default_browser: self.default_browser,
        }
    }
}

// ─── Choosing a gateway ────────────────────────────────────────────────────

/// A rule applies to the region: it names it, or it is the `Any` rule.
pub open spec fn rule_applies(rule: (Seq<char>, u32), region: Seq<char>) -> bool {
    rule.0 == region || rule.0 == "Any"@
}

/// Among the first `n` rules, one applies with a priority below `p`.
pub open spec fn rule_below(rules: Seq<(Seq<char>, u32)>, region: Seq<char>, p: u32, n: int) -> bool {
    exists|j: int| 0 <= j < n && j < rules.len() && rule_applies(#[trigger] rules[j], region) && rules[j].1 < p
}

/// Among the first `n` rules, one applies with priority `p`.
pub open spec fn rule_at(rules: Seq<(Seq<char>, u32)>, region: Seq<char>, p: u32, n: int) -> bool {
    exists|j: int| 0 <= j < n && j < rules.len() && rule_applies(#[trigger] rules[j], region) && rules[j].1 == p
}

pub open spec fn has_rule_below(g: GatewaySpec, region: Seq<char>, p: u32) -> bool {
    rule_below(g.priority_rules, region, p, g.priority_rules.len() as int)
}

pub open spec fn has_rule_at(g: GatewaySpec, region: Seq<char>, p: u32) -> bool {
    rule_at(g.priority_rules, region, p, g.priority_rules.len() as int)
}

/// Some gateway has a rule for the region with a priority that can win.
pub open spec fn region_rule_exists(gws: Seq<GatewaySpec>, region: Seq<char>) -> bool {
    exists|k: int| 0 <= k < gws.len() && has_rule_below(#[trigger] gws[k], region, u32::MAX)
}

/// Gateway `i` holds the lowest region priority `p`, and no earlier
/// gateway holds it.
pub open spec fn region_preferred(gws: Seq<GatewaySpec>, region: Seq<char>, i: int, p: u32) -> bool {
    &&& 0 <= i < gws.len()
    &&& p < u32::MAX
    &&& has_rule_at(gws[i], region, p)
    &&& forall|k: int| 0 <= k < gws.len() ==> !has_rule_below(#[trigger] gws[k], region, p)
    &&& forall|k: int| 0 <= k < i ==> !has_rule_at(#[trigger] gws[k], region, p)
}

/// Gateway `i` is the first one with the lowest priority.
pub open spec fn priority_preferred(gws: Seq<GatewaySpec>, i: int) -> bool {
    &&& 0 <= i < gws.len()
    &&& forall|k: int| 0 <= k < gws.len() ==> (#[trigger] gws[k]).priority >= gws[i].priority
    &&& forall|k: int| 0 <= k < i ==> (#[trigger] gws[k]).priority > gws[i].priority
}

/// The preferred gateway for a region: the first one with the lowest
/// priority among the rules for that region (or `Any`); without such rules,
/// the first one with the lowest priority.
pub open spec fn is_preferred_gateway(gws: Seq<GatewaySpec>, region: Seq<char>, i: int) -> bool {
    if region_rule_exists(gws, region) {
        exists|p: u32| region_preferred(gws, region, i, p)
    } else {
        priority_preferred(gws, i)
    }
}

/// At most one gateway is the preferred one for a region.
pub proof fn lemma_preferred_gateway_unique(gws: Seq<GatewaySpec>, region: Seq<char>, i: int, j: int)
    requires
        is_preferred_gateway(gws, region, i),
        is_preferred_gateway(gws, region, j),
    ensures
        i == j,
{
    if region_rule_exists(gws, region) {
        let p = choose|p: u32| region_preferred(gws, region, i, p);
        let q = choose|q: u32| region_preferred(gws, region, j, q);
        if p < q {
            let w = choose|w: int| 0 <= w < gws[i].priority_rules.len() && rule_applies(gws[i].priority_rules[w], region)
                && gws[i].priority_rules[w].1 == p;
            assert(has_rule_below(gws[i], region, q));
        } else if q < p {
            let w = choose|w: int| 0 <= w < gws[j].priority_rules.len() && rule_applies(gws[j].priority_rules[w], region)
                && gws[j].priority_rules[w].1 == q;
            assert(has_rule_below(gws[j], region, p));
        }
        if i < j {
            assert(!has_rule_at(gws[i], region, q));
        } else if j < i {
            assert(!has_rule_at(gws[j], region, p));
        }
    } else {
        if i < j {
            assert(gws[i].priority > gws[j].priority);
        } else if j < i {
            assert(gws[j].priority > gws[i].priority);
        }
    }
}

impl PortalConfig {
    pub fn portal(&self) -> (r: &str)
        ensures
            r@ == self@.portal,
    {
        self.portal.as_str()
    }

    pub fn gateways(&self) -> (r: Vec<&Gateway>)
        ensures
            r@.map_values(|g: &Gateway| gateway_view(*g)) == self@.gateways,
    {
        let mut r: Vec<&Gateway> = Vec::new();
        let mut i: usize = 0;
        while i < self.gateways.len()
            invariant
                i <= self.gateways.len(),
                r@.map_values(|g: &Gateway| gateway_view(*g)) == self.gateways@.take(i as int).map_values(
                    |g: Gateway| gateway_view(g),
                ),
            decreases self.gateways.len() - i,
        {
            let ghost before = r@;
            r.push(&self.gateways[i]);
            assert(r@.map_values(|g: &Gateway| gateway_view(*g)) =~= before.map_values(|g: &Gateway| gateway_view(*g)).push(
                gateway_view(self.gateways@[i as int]),
            ));
            assert(self.gateways@.take(i + 1) =~= self.gateways@.take(i as int).push(self.gateways@[i as int]));
            assert(self.gateways@.take(i + 1).map_values(|g: Gateway| gateway_view(g)) =~= self.gateways@.take(
                i as int,
            ).map_values(|g: Gateway| gateway_view(g)).push(gateway_view(self.gateways@[i as int])));
            i += 1;
        }
        assert(self.gateways@.take(self.gateways.len() as int) =~= self.gateways@);
        r
    }

    pub fn auth_cookie(&self) -> (r: &AuthCookieCredential)
        ensures
            r@ == self@.auth_cookie,
    {
        &self.auth_cookie
    }

    pub fn config_cred(&self) -> (r: &Credential)
        ensures
            *r == self@.config_cred,
    {
        &self.config_cred
    }

    pub fn internal_host_detection(&self) -> (r: Option<bool>)
        ensures
            r == self@.internal_host_detection,
    {
        self.internal_host_detection
    }

    pub fn connect_method(&self) -> (r: Option<&str>)
        ensures
            opt_str_view(r) == self@.connect_method,
    {
        crate::text::as_opt_str(&self.connect_method)
    }

    pub fn config_digest(&self) -> (r: Option<&str>)
        ensures
            opt_str_view(r) == self@.config_digest,
    {
        crate::text::as_opt_str(&self.config_digest)
    }

    pub fn version(&self) -> (r: Option<&str>)
        ensures
            opt_str_view(r) == self@.version,
    {
        crate::text::as_opt_str(&self.version)
    }

    pub fn allow_extend_session(&self) -> (r: Option<bool>)
        ensures
            r == self@.allow_extend_session,
    {
        self.allow_extend_session
    }

    pub fn default_browser(&self) -> (r: Option<bool>)
        ensures
            r == self@.default_browser,
    {
        self.default_browser
    }

    /// The first gateway named `name_or_address` or at that address.
    pub fn find_gateway(&self, name_or_address: &str) -> (r: Option<&Gateway>)
        ensures
            match r {
                Some(g) => exists|i: int|
                    0 <= i < self@.gateways.len() && (#[trigger] self@.gateways[i]) == gateway_view(*g) && (
                    gateway_view(*g).name == name_or_address@ || gateway_view(*g).address == name_or_address@)
                        && forall|k: int| 0 <= k < i ==> (#[trigger] self@.gateways[k]).name != name_or_address@
                        && self@.gateways[k].address != name_or_address@,
                None => forall|k: int| 0 <= k < self@.gateways.len() ==> (#[trigger] self@.gateways[k]).name
                    != name_or_address@ && self@.gateways[k].address != name_or_address@,
            },
    {
        let ghost gws = self@.gateways;
        let mut i: usize = 0;
        while i < self.gateways.len()
            invariant
                i <= self.gateways.len(),
                gws == self.gateways@.map_values(|g: Gateway| gateway_view(g)),
                forall|k: int| 0 <= k < i ==> (#[trigger] gws[k]).name != name_or_address@ && gws[k].address
                    != name_or_address@,
            decreases self.gateways.len() - i,
        {
            let g = &self.gateways[i];
            assert(gws[i as int] == gateway_view(*g));
            if str_eq(g.name.as_str(), name_or_address) || str_eq(g.address.as_str(), name_or_address) {
                return Some(g);
            }
            i += 1;
        }
        None
    }

    /// The position of the preferred gateway for a region.
    fn preferred_index(&self, region: &str) -> (r: usize)
        requires
            self@.gateways.len() > 0,
        ensures
            r < self@.gateways.len(),
            is_preferred_gateway(self@.gateways, region@, r as int),
    {
        let ghost gws = self@.gateways;
        proof {
            reveal_strlit("Any");
        }
        let mut best: Option<usize> = None;
        let mut low: u32 = u32::MAX;
        let mut i: usize = 0;
        while i < self.gateways.len()
            invariant
                i <= self.gateways.len(),
                gws == self.gateways@.map_values(|g: Gateway| gateway_view(g)),
                match best {
                    None => low == u32::MAX && forall|k: int| 0 <= k < i ==> !has_rule_below(#[trigger] gws[k], region@, u32::MAX),
                    Some(b) => {
                        &&& b < i
                        &&& low < u32::MAX
                        &&& has_rule_at(gws[b as int], region@, low)
                        &&& forall|k: int| 0 <= k < i ==> !has_rule_below(#[trigger] gws[k], region@, low)
                        &&& forall|k: int| 0 <= k < b ==> !has_rule_at(#[trigger] gws[k], region@, low)
                    },
                },
            decreases self.gateways.len() - i,
        {
            let g = &self.gateways[i];
            let ghost rules = gws[i as int].priority_rules;
            assert(gws[i as int] == gateway_view(*g));
            let mut j: usize = 0;
            while j < g.priority_rules.len()
                invariant
                    i < self.gateways.len(),
                    j <= g.priority_rules.len(),
                    *g == self.gateways@[i as int],
                    gws == self.gateways@.map_values(|g: Gateway| gateway_view(g)),
                    rules == gws[i as int].priority_rules,
                    rules.len() == g.priority_rules@.len(),
                    forall|t: int| 0 <= t < rules.len() ==> (#[trigger] rules[t]) == (g.priority_rules@[t].name@, g.priority_rules@[t].priority),
                    match best {
                        None => low == u32::MAX && (forall|k: int| 0 <= k < i ==> !has_rule_below(#[trigger] gws[k], region@, u32::MAX))
                            && !rule_below(rules, region@, u32::MAX, j as int),
                        Some(b) => {
                            &&& b <= i
                            &&& low < u32::MAX
                            &&& b < i ==> has_rule_at(gws[b as int], region@, low)
                            &&& b == i ==> rule_at(rules, region@, low, j as int)
                            &&& forall|k: int| 0 <= k < i ==> !has_rule_below(#[trigger] gws[k], region@, low)
                            &&& !rule_below(rules, region@, low, j as int)
                            &&& forall|k: int| 0 <= k < b ==> !has_rule_at(#[trigger] gws[k], region@, low)
                        },
                    },
                decreases g.priority_rules.len() - j,
            {
                let rule = &g.priority_rules[j];
                assert(rules[j as int] == (rule.name@, rule.priority));
                let applies = str_eq(rule.name.as_str(), region) || str_eq(rule.name.as_str(), "Any");
                if applies && rule.priority < low {
                    proof {
                        let p = rule.priority;
                        assert(rule_at(rules, region@, p, j + 1));
                        assert forall|k: int| 0 <= k < i implies !has_rule_below(#[trigger] gws[k], region@, p) && !has_rule_at(gws[k], region@, p) by {
                            if has_rule_below(gws[k], region@, p) {
                                let w = choose|w: int| 0 <= w < gws[k].priority_rules.len() && w < gws[k].priority_rules.len()
                                    && rule_applies(#[trigger] gws[k].priority_rules[w], region@) && gws[k].priority_rules[w].1 < p;
                                assert(rule_below(gws[k].priority_rules, region@, low, gws[k].priority_rules.len() as int));
                            }
                            if has_rule_at(gws[k], region@, p) {
                                let w = choose|w: int| 0 <= w < gws[k].priority_rules.len() && w < gws[k].priority_rules.len()
                                    && rule_applies(#[trigger] gws[k].priority_rules[w], region@) && gws[k].priority_rules[w].1 == p;
                                assert(rule_below(gws[k].priority_rules, region@, low, gws[k].priority_rules.len() as int));
                            }
                        }
                        if rule_below(rules, region@, p, j + 1) {
                            let w = choose|w: int| 0 <= w < j + 1 && w < rules.len() && rule_applies(#[trigger] rules[w], region@)
                                && rules[w].1 < p;
                            assert(rule_below(rules, region@, low, j as int));
                        }
                    }
                    best = Some(i);
                    low = rule.priority;
                } else {
                    proof {
                        if rule_below(rules, region@, low, j + 1) {
                            let w = choose|w: int| 0 <= w < j + 1 && w < rules.len() && rule_applies(#[trigger] rules[w], region@)
                                && rules[w].1 < low;
                            if w < j {
                                assert(rule_below(rules, region@, low, j as int));
                            }
                        }
                        if best == Some(i) {
                            let w = choose|w: int| 0 <= w < j && w < rules.len() && rule_applies(#[trigger] rules[w], region@)
                                && rules[w].1 == low;
                            assert(rule_at(rules, region@, low, j + 1));
                        }
                    }
                }
                j += 1;
            }
            assert(rules.len() == g.priority_rules.len());
            i += 1;
        }
        match best {
            Some(b) => {
                proof {
                    assert(region_preferred(gws, region@, b as int, low));
                    assert(region_rule_exists(gws, region@)) by {
                        let w = choose|w: int| 0 <= w < gws[b as int].priority_rules.len() && w < gws[b as int].priority_rules.len()
                            && rule_applies(#[trigger] gws[b as int].priority_rules[w], region@) && gws[b as int].priority_rules[w].1 == low;
                        assert(has_rule_below(gws[b as int], region@, u32::MAX));
                    }
                }
                b
            },
            None => {
                let mut m: usize = 0;
                let mut k: usize = 1;
                while k < self.gateways.len()
                    invariant
                        1 <= k <= self.gateways.len(),
                        m < k,
                        gws == self.gateways@.map_values(|g: Gateway| gateway_view(g)),
                        forall|t: int| 0 <= t < k ==> (#[trigger] gws[t]).priority >= gws[m as int].priority,
                        forall|t: int| 0 <= t < m ==> (#[trigger] gws[t]).priority > gws[m as int].priority,
                    decreases self.gateways.len() - k,
                {
                    assert(gws[k as int].priority == self.gateways@[k as int].priority);
                    assert(gws[m as int].priority == self.gateways@[m as int].priority);
                    if self.gateways[k].priority < self.gateways[m].priority {
                        m = k;
                    }
                    k += 1;
                }
                proof {
                    assert(!region_rule_exists(gws, region@));
                }
                m
            },
        }
    }

    /// The preferred gateway for a region: the first one holding the lowest
    /// priority among the rules for that region (or `Any`); without such a
    /// rule, the first one with the lowest priority.
    pub fn find_preferred_gateway(&self, region: &str) -> (r: &Gateway)
        requires
            self@.gateways.len() > 0,
        ensures
            exists|i: int| is_preferred_gateway(self@.gateways, region@, i) && self@.gateways[i] == gateway_view(*r),
    {
        let i = self.preferred_index(region);
        let r = &self.gateways[i];
        assert(self@.gateways[i as int] == gateway_view(*r));
        r
    }

    /// Moves the preferred gateway for a region to the front: it trades
    /// places with the first gateway.
    pub fn sort_gateways(&mut self, region: &str)
        requires
            old(self)@.gateways.len() > 0,
        ensures
            exists|p: int, q: int|
                {
                    &&& is_preferred_gateway(old(self)@.gateways, region@, p)
                    &&& 0 <= q <= p
                    &&& old(self)@.gateways[q].name == old(self)@.gateways[p].name
                    &&& forall|t: int| 0 <= t < q ==> (#[trigger] old(self)@.gateways[t]).name != old(self)@.gateways[p].name
                    &&& final(self)@.gateways == old(self)@.gateways.update(0, old(self)@.gateways[q]).update(
                        q,
                        old(self)@.gateways[0],
                    )
                },
            final(self)@.portal == old(self)@.portal,
            final(self)@.auth_cookie == old(self)@.auth_cookie,
            final(self)@.config_cred == old(self)@.config_cred,
            final(self)@.connect_method == old(self)@.connect_method,
            final(self)@.version == old(self)@.version,
            final(self)@.internal_host_detection == old(self)@.internal_host_detection,
            final(self)@.allow_extend_session == old(self)@.allow_extend_session,
            final(self)@.default_browser == old(self)@.default_browser,
            final(self)@.config_digest == old(self)@.config_digest,
    {
        let ghost gws = self@.gateways;
        let p = self.preferred_index(region);
        assert(gws[p as int].name == self.gateways@[p as int].name@);
        let mut q: usize = 0;
        while q < p && !str_eq(self.gateways[q].name.as_str(), self.gateways[p].name.as_str())
            invariant
                q <= p < self.gateways.len(),
                gws == self.gateways@.map_values(|g: Gateway| gateway_view(g)),
                forall|t: int| 0 <= t < q ==> (#[trigger] gws[t]).name != gws[p as int].name,
            decreases p - q,
        {
            q += 1;
        }
        let mut swapped: Vec<Gateway> = Vec::new();
        let mut k: usize = 0;
        let ghost target = gws.update(0, gws[q as int]).update(q as int, gws[0]);
        while k < self.gateways.len()
            invariant
                k <= self.gateways.len(),
                q < self.gateways.len(),
                gws == self.gateways@.map_values(|g: Gateway| gateway_view(g)),
                target == gws.update(0, gws[q as int]).update(q as int, gws[0]),
                swapped@.map_values(|g: Gateway| gateway_view(g)) == target.take(k as int),
            decreases self.gateways.len() - k,
        {
            let src = if k == q {
                0
            } else if k == 0 {
                q
            } else {
                k
            };
            let g = self.gateways[src].clone();
            let ghost before = swapped@;
            swapped.push(g);
            assert(swapped@.map_values(|g: Gateway| gateway_view(g)) =~= before.map_values(|g: Gateway| gateway_view(g)).push(
                gateway_view(g),
            ));
            assert(gateway_view(g) == gws[src as int]);
            assert(swapped@.map_values(|g: Gateway| gateway_view(g)) =~= target.take(k + 1));
            k += 1;
        }
        assert(target.take(self.gateways.len() as int) =~= target);
        assert(gws[q as int].name == gws[p as int].name);
        self.gateways = swapped;
        assert(self@.gateways == target);
        assert(is_preferred_gateway(gws, region@, p as int));
    }
}

// ─── Reading a configuration ───────────────────────────────────────────────

/// A `yes`/`no` switch of the configuration, its text trimmed; anything
/// else says nothing.
pub open spec fn yes_no_switch(text: Option<Seq<char>>) -> Option<bool> {
    match text {
        Some(t) => if trim(t) == "yes"@ {
            Some(true)
        } else if trim(t) == "no"@ {
            Some(false)
        } else {
            None
        },
        None => None,
    }
}

fn read_switch(root: &XmlElement, name: &str) -> (r: Option<bool>)
    ensures
        r == yes_no_switch(descendant_text_of(*root, name@)),
{
    match root.descendant_text(name) {
        Some(t) => {
            let t = trim_str(t.as_str());
            if str_eq(t.as_str(), "yes") {
                Some(true)
            } else if str_eq(t.as_str(), "no") {
                Some(false)
            } else {
                None
            }
        },
        None => None,
    }
}

/// Whether the portal enables authentication in the default browser.
pub fn parse_default_browser(root: &XmlElement) -> (r: Option<bool>)
    ensures
        r == yes_no_switch(descendant_text_of(*root, "default-browser"@)),
{
    read_switch(root, "default-browser")
}

/// Whether the portal allows extending a gateway session.
pub fn parse_allow_extend_session(root: &XmlElement) -> (r: Option<bool>)
    ensures
        r == yes_no_switch(descendant_text_of(*root, "allow-extend-session"@)),
{
    read_switch(root, "allow-extend-session")
}

/// The portal's connect method, when it names one.
pub open spec fn connect_method_of(root: XmlElement) -> Option<Seq<char>> {
    match descendant_text_of(root, "connect-method"@) {
        Some(t) => if t.len() > 0 {
            Some(t)
        } else {
            None
        },
        None => None,
    }
}

pub fn parse_connect_method(root: &XmlElement) -> (r: Option<String>)
    ensures
        opt_view(r) == connect_method_of(*root),
{
    match root.descendant_text("connect-method") {
        Some(t) => if t.as_str().is_empty() {
            None
        } else {
            Some(t)
        },
        None => None,
    }
}

/// The host name that an address resolves back to. Nothing is stated of
/// the result: it is the name service's (`None` when the text is not an IP
/// address or the lookup fails).
#[verifier::external_body]
fn reverse_lookup(ip_address: &str) -> (r: Option<String>) {
    ip_address.parse().ok().and_then(|ip| dns_lookup::lookup_addr(&ip).ok())
}

/// The (address, host name) pairs of a detection entry that are looked up:
/// the IPv4 pair, then the IPv6 pair, each when both of its texts are
/// present and not empty.
pub open spec fn detection_candidates_of(element: XmlElement) -> Seq<(Seq<char>, Seq<char>)> {
    let v4 = (child_text_of(element, "ip-address"@), child_text_of(element, "host"@));
    let v6 = (child_text_of(element, "ipv6-address"@), child_text_of(element, "ipv6-host"@));
    candidate_of(v4) + candidate_of(v6)
}

pub open spec fn candidate_of(p: (Option<Seq<char>>, Option<Seq<char>>)) -> Seq<(Seq<char>, Seq<char>)> {
    match p {
        (Some(ip), Some(host)) => if ip.len() > 0 && host.len() > 0 {
            seq![(ip, host)]
        } else {
            Seq::empty()
        },
        _ => Seq::empty(),
    }
}

fn push_candidate(out: &mut Vec<(String, String)>, ip: Option<String>, host: Option<String>)
    ensures
        final(out)@.map_values(|c: (String, String)| (c.0@, c.1@)) == old(out)@.map_values(
            |c: (String, String)| (c.0@, c.1@),
        ) + candidate_of((opt_view(ip), opt_view(host))),
{
    let ghost before = out@;
    match (ip, host) {
        (Some(ip), Some(host)) => {
            if !ip.as_str().is_empty() && !host.as_str().is_empty() {
                out.push((ip, host));
            }
        },
        _ => {},
    }
    assert(out@.map_values(|c: (String, String)| (c.0@, c.1@)) =~= before.map_values(
        |c: (String, String)| (c.0@, c.1@),
    ) + candidate_of((opt_view(ip), opt_view(host))));
}

/// The pairs of a detection entry to look up, in order.
pub fn detection_candidates(element: &XmlElement) -> (r: Vec<(String, String)>)
    ensures
        r@.map_values(|c: (String, String)| (c.0@, c.1@)) == detection_candidates_of(*element),
{
    let mut out: Vec<(String, String)> = Vec::new();
    assert(out@.map_values(|c: (String, String)| (c.0@, c.1@)) =~= Seq::<(Seq<char>, Seq<char>)>::empty());
    push_candidate(&mut out, element.child_text("ip-address"), element.child_text("host"));
    push_candidate(&mut out, element.child_text("ipv6-address"), element.child_text("ipv6-host"));
    proof {
        assert(Seq::<(Seq<char>, Seq<char>)>::empty() + candidate_of(
            (child_text_of(*element, "ip-address"@), child_text_of(*element, "host"@)),
        ) =~= candidate_of((child_text_of(*element, "ip-address"@), child_text_of(*element, "host"@))));
    }
    out
}

/// Whether a reverse lookup found the expected host name, letter case
/// ignored.
pub fn resolves_back(found: Option<String>, host: &str) -> (r: bool)
    ensures
        r == (found matches Some(f) && unicode_lower(f@) == unicode_lower(host@)),
{
    match found {
        Some(f) => {
            let a = to_lower(f.as_str());
            let b = to_lower(host);
            str_eq(a.as_str(), b.as_str())
        },
        None => false,
    }
}

/// The machine is inside the network when an address of the detection
/// entry resolves back to the host name given with it (letter case
/// ignored). What the lookups return is the name service's; an entry with
/// nothing to look up is never inside.
pub fn internal_host_detect(element: &XmlElement) -> (r: bool)
    ensures
        detection_candidates_of(*element).len() == 0 ==> !r,
{
    let candidates = detection_candidates(element);
    assert(candidates@.len() == detection_candidates_of(*element).len());
    let mut i: usize = 0;
    while i < candidates.len()
        invariant
            i <= candidates.len(),
            candidates@.len() == detection_candidates_of(*element).len(),
        decreases candidates.len() - i,
    {
        let (ip, host) = &candidates[i];
        if resolves_back(reverse_lookup(ip.as_str()), host.as_str()) {
            return true;
        }
        i += 1;
    }
    false
}

/// The configuration a portal's answer describes, given whether the
/// machine was found inside the network.
pub open spec fn portal_config_of(
    server: Seq<char>,
    cred: Credential,
    root: XmlElement,
    inside: bool,
) -> PortalConfigView {
    let ihd = descendant_of(root, "internal-host-detection"@) is Some;
    let prefer_internal = ihd && inside;
    let listed = match gateways_of(root, prefer_internal) {
        Some(g) => g,
        None => Seq::empty(),
    };
    PortalConfigView {
        portal: server,
        auth_cookie: AuthCookieCredentialView {
            username: credential_username(cred),
            user_auth_cookie: or_empty(descendant_text_of(root, "portal-userauthcookie"@)),
            prelogon_user_auth_cookie: or_empty(descendant_text_of(root, "portal-prelogonuserauthcookie"@)),
            password: None,
        },
        config_cred: cred,
        gateways: if listed.len() == 0 {
            seq![
                GatewaySpec {
                    name: server,
                    address: server,
                    kind: GatewayKind::External,
                    priority: 0,
                    priority_rules: Seq::empty(),
                },
            ]
        } else {
            listed
        },
        connect_method: connect_method_of(root),
        config_digest: descendant_text_of(root, "config-digest"@),
        internal_host_detection: if ihd {
            Some(prefer_internal)
        } else {
            None
        },
        version: descendant_text_of(root, "version"@),
        allow_extend_session: yes_no_switch(descendant_text_of(root, "allow-extend-session"@)),
        default_browser: yes_no_switch(descendant_text_of(root, "default-browser"@)),
    }
}

/// The configuration with the result of the internal host detection
/// given.
pub fn parse_portal_config_with_detection(server: &str, cred: &Credential, root: &XmlElement, inside: bool) -> (r: PortalConfig)
    ensures
        r@ == portal_config_of(server@, *cred, *root, inside),
{
    let ihd = root.descendant("internal-host-detection").is_some();
    let prefer_internal = ihd && inside;
    let mut gateways = match parse_gateways(root, prefer_internal) {
        Some(g) => g,
        None => Vec::new(),
    };
    let user_auth_cookie = match root.descendant_text("portal-userauthcookie") {
        Some(t) => t,
        None => String::new(),
    };
    let prelogon_user_auth_cookie = match root.descendant_text("portal-prelogonuserauthcookie") {
        Some(t) => t,
        None => String::new(),
    };
    if gateways.len() == 0 {
        let g = Gateway::new(server.to_string(), server.to_string());
        assert(crate::gateway::parse_gateways::rules_view(g.priority_rules@) =~= Seq::<(Seq<char>, u32)>::empty());
        gateways.push(g);
        assert(gateways@.map_values(|g: Gateway| gateway_view(g)) =~= seq![
            GatewaySpec {
                name: server@,
                address: server@,
                kind: GatewayKind::External,
                priority: 0,
                priority_rules: Seq::empty(),
            },
        ]);
    }
    let r = PortalConfig {
        portal: server.to_string(),
        auth_cookie: AuthCookieCredential::new(cred.username(), user_auth_cookie.as_str(), prelogon_user_auth_cookie.as_str()),
        config_cred: cred.clone(),
        gateways,
        connect_method: parse_connect_method(root),
        config_digest: root.descendant_text("config-digest"),
        internal_host_detection: if ihd {
            Some(prefer_internal)
        } else {
            None
        },
        version: root.descendant_text("version"),
        allow_extend_session: parse_allow_extend_session(root),
        default_browser: parse_default_browser(root),
    };
    assert(r@.gateways =~= portal_config_of(server@, *cred, *root, inside).gateways);
    r
}

/// The configuration a portal's answer describes; the internal host
/// detection it asks for is performed.
pub fn parse_portal_config(server: &str, cred: &Credential, root: &XmlElement) -> (r: PortalConfig)
    ensures
        exists|inside: bool| r@ == portal_config_of(server@, *cred, *root, inside),
{
    let inside = match root.descendant("internal-host-detection") {
        Some(node) => internal_host_detect(node),
        None => false,
    };
    let r = parse_portal_config_with_detection(server, cred, root, inside);
    assert(r@ == portal_config_of(server@, *cred, *root, inside));
    r
}

/// `present` for a non-empty value, else `empty`.
pub fn present(value: Option<&str>) -> (r: &'static str)
    ensures
        r@ == match opt_str_view(value) {
            Some(v) => if v.len() > 0 {
                "present"@
            } else {
                "empty"@
            },
            None => "empty"@,
        },
{
    match value {
        Some(v) => if v.is_empty() {
            "empty"
        } else {
            "present"
        },
        None => "empty",
    }
}

} // verus!
