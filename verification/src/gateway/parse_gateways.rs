//! The gateways that a portal configuration lists.
use vstd::prelude::*;

use super::{Gateway, GatewayKind, PriorityRule};
use crate::params::credential::or_empty;
use crate::text::{parse_u32, parse_u32_spec};
use crate::xml::{attr_of, child_of, child_text_of, descendant_of, XmlElement};

verus! {

broadcast use vstd::string::group_string_axioms;

/// A priority: the `<priority>` child as a number, the lowest preference
/// (`u32::MAX`) when it is missing or not a number.
pub open spec fn priority_of(e: XmlElement) -> u32 {
    match child_text_of(e, "priority"@) {
        Some(t) => match parse_u32_spec(t) {
            Some(n) => n,
            None => u32::MAX,
        },
        None => u32::MAX,
    }
}

pub fn parse_priority(element: &XmlElement) -> (r: u32)
    ensures
        r == priority_of(*element),
{
    match element.child_text("priority") {
        Some(t) => match parse_u32(t.as_str()) {
            Some(n) => n,
            None => u32::MAX,
        },
        None => u32::MAX,
    }
}

/// The rules of a `<priority-rule>` element: one per `<entry>`, named by
/// its `name` attribute.
pub open spec fn rule_of_entry(c: XmlElement) -> (Seq<char>, u32) {
    (or_empty(attr_of(c, "name"@)), priority_of(c))
}

pub open spec fn rules_of(e: XmlElement) -> Seq<(Seq<char>, u32)> {
    e.children@.filter(|c: XmlElement| c.name@ == "entry"@).map_values(|c: XmlElement| rule_of_entry(c))
}

pub open spec fn rules_view(rules: Seq<PriorityRule>) -> Seq<(Seq<char>, u32)> {
    rules.map_values(|r: PriorityRule| (r.name@, r.priority))
}

/// The `<entry>` children of an element, in document order.
pub open spec fn entry_children(e: XmlElement) -> Seq<XmlElement> {
    e.children@.filter(|c: XmlElement| c.name@ == "entry"@)
}

/// Each priority rule of a `<priority-rule>` element comes from one of its
/// `<entry>` children, in order: the rule's name is that entry's `name`
/// attribute (empty without one), and its priority is the number in the
/// entry's `<priority>` child (the lowest preference when it is missing or
/// not a number).
pub proof fn lemma_rules_are_named_by_entries(e: XmlElement)
    ensures
        rules_of(e).len() == entry_children(e).len(),
        forall|i: int|
            0 <= i < rules_of(e).len() ==> {
                &&& (#[trigger] rules_of(e)[i]).0 == match attr_of(entry_children(e)[i], "name"@) {
                    Some(n) => n,
                    None => Seq::<char>::empty(),
                }
                &&& rules_of(e)[i].1 == match child_text_of(entry_children(e)[i], "priority"@) {
                    Some(t) => match parse_u32_spec(t) {
                        Some(n) => n,
                        None => u32::MAX,
                    },
                    None => u32::MAX,
                }
            },
{
}

fn entries(element: &XmlElement) -> (r: Vec<&XmlElement>)
    ensures
        r@.map_values(|c: &XmlElement| *c) == element.children@.filter(|c: XmlElement| c.name@ == "entry"@),
{
    element.children_named("entry")
}

pub fn parse_priority_rules(element: &XmlElement) -> (r: Vec<PriorityRule>)
    ensures
        rules_view(r@) == rules_of(*element),
        r@.len() == entry_children(*element).len(),
        forall|i: int|
            0 <= i < r@.len() ==> (#[trigger] r@[i]).name@ == match attr_of(entry_children(*element)[i], "name"@) {
                Some(n) => n,
                None => Seq::<char>::empty(),
            },
{
    let list = entries(element);
    let ghost src = list@.map_values(|c: &XmlElement| *c);
    let mut out: Vec<PriorityRule> = Vec::new();
    let mut i: usize = 0;
    while i < list.len()
        invariant
            i <= list.len(),
            src == list@.map_values(|c: &XmlElement| *c),
            rules_view(out@) == src.take(i as int).map_values(|c: XmlElement| rule_of_entry(c)),
        decreases list.len() - i,
    {
        let e = list[i];
        let name = match e.attr("name") {
            Some(n) => n.to_string(),
            None => String::new(),
        };
        let priority = parse_priority(e);
        let ghost before = out@;
        out.push(PriorityRule { name, priority });
        assert(src[i as int] == *e);
        assert(rules_view(out@) =~= rules_view(before).push(rule_of_entry(*e)));
        assert(src.take(i + 1) =~= src.take(i as int).push(src[i as int]));
        assert(src.take(i + 1).map_values(|c: XmlElement| rule_of_entry(c)) =~= src.take(i as int).map_values(
            |c: XmlElement| rule_of_entry(c),
        ).push(rule_of_entry(src[i as int])));
        i += 1;
    }
    assert(src.take(list.len() as int) =~= src);
    proof {
        lemma_rules_are_named_by_entries(*element);
        assert forall|i: int| 0 <= i < out@.len() implies (#[trigger] out@[i]).name@ == match attr_of(
            entry_children(*element)[i],
            "name"@,
        ) {
            Some(n) => n,
            None => Seq::<char>::empty(),
        } by {
            assert(rules_view(out@)[i] == (out@[i].name@, out@[i].priority));
        }
    }
    out
}

/// What a gateway entry describes: its description, its address (the
/// entry's `name`), its priority and its rules.
pub struct GatewaySpec {
    pub name: Seq<char>,
    pub address: Seq<char>,
    pub kind: GatewayKind,
    pub priority: u32,
    pub priority_rules: Seq<(Seq<char>, u32)>,
}

pub open spec fn gateway_view(g: Gateway) -> GatewaySpec {
    GatewaySpec {
        name: g.name@,
        address: g.address@,
        kind: g.kind,
        priority: g.priority,
        priority_rules: rules_view(g.priority_rules@),
    }
}

pub open spec fn gateway_of_entry(e: XmlElement, kind: GatewayKind) -> GatewaySpec {
    GatewaySpec {
        name: or_empty(child_text_of(e, "description"@)),
        address: or_empty(attr_of(e, "name"@)),
        kind,
        priority: priority_of(e),
        priority_rules: match child_of(e, "priority-rule"@) {
            Some(pr) => rules_of(pr),
            None => Seq::empty(),
        },
    }
}

/// The gateway list to read: the internal one when it is preferred and
/// present, else the external one.
pub open spec fn gateway_list_of(root: XmlElement, prefer_internal: bool) -> Option<(XmlElement, GatewayKind)> {
    match descendant_of(root, "gateways"@) {
        Some(gws) => {
            let internal = if prefer_internal {
                match descendant_of(gws, "internal"@) {
                    Some(n) => match child_of(n, "list"@) {
                        Some(l) => Some((l, GatewayKind::Internal)),
                        None => None,
                    },
                    None => None,
                }
            } else {
                None
            };
            match internal {
                Some(x) => Some(x),
                None => match descendant_of(gws, "external"@) {
                    Some(n) => match child_of(n, "list"@) {
                        Some(l) => Some((l, GatewayKind::External)),
                        None => None,
                    },
                    None => None,
                },
            }
        },
        None => None,
    }
}

/// The gateways a portal configuration lists, in order; `None` when it has
/// no gateway list.
pub open spec fn gateways_of(root: XmlElement, prefer_internal: bool) -> Option<Seq<GatewaySpec>> {
    match gateway_list_of(root, prefer_internal) {
        Some((list, kind)) => Some(
            list.children@.filter(|c: XmlElement| c.name@ == "entry"@).map_values(|e: XmlElement| gateway_of_entry(e, kind)),
        ),
        None => None,
    }
}

fn gateway_list<'a>(root: &'a XmlElement, prefer_internal: bool) -> (r: Option<(&'a XmlElement, GatewayKind)>)
    ensures
        match r {
            Some((l, k)) => gateway_list_of(*root, prefer_internal) == Some((*l, k)),
            None => gateway_list_of(*root, prefer_internal) is None,
        },
{
    let gws = match root.descendant("gateways") {
        Some(g) => g,
        None => return None,
    };
    if prefer_internal {
        match gws.descendant("internal") {
            Some(n) => match n.child("list") {
                Some(l) => return Some((l, GatewayKind::Internal)),
                None => {},
            },
            None => {},
        }
    }
    match gws.descendant("external") {
        Some(n) => match n.child("list") {
            Some(l) => Some((l, GatewayKind::External)),
            None => None,
        },
        None => None,
    }
}

/// The gateways that a portal configuration lists: the internal ones when
/// they are preferred and listed, else the external ones.
pub fn parse_gateways(element: &XmlElement, prefer_internal: bool) -> (r: Option<Vec<Gateway>>)
    ensures
        match r {
            Some(v) => gateways_of(*element, prefer_internal) == Some(v@.map_values(|g: Gateway| gateway_view(g))),
            None => gateways_of(*element, prefer_internal) is None,
        },
{
    let (list, kind) = match gateway_list(element, prefer_internal) {
        Some(x) => x,
        None => return None,
    };
    let items = entries(list);
    let ghost src = items@.map_values(|c: &XmlElement| *c);
    let mut out: Vec<Gateway> = Vec::new();
    let mut i: usize = 0;
    while i < items.len()
        invariant
            i <= items.len(),
            src == items@.map_values(|c: &XmlElement| *c),
            out@.map_values(|g: Gateway| gateway_view(g)) == src.take(i as int).map_values(
                |e: XmlElement| gateway_of_entry(e, kind),
            ),
        decreases items.len() - i,
    {
        let e = items[i];
        let address = match e.attr("name") {
            Some(a) => a.to_string(),
            None => String::new(),
        };
        let name = match e.child_text("description") {
            Some(t) => t,
            None => String::new(),
        };
        let priority = parse_priority(e);
        let priority_rules = match e.child("priority-rule") {
            Some(pr) => parse_priority_rules(pr),
            None => Vec::new(),
        };
        let g = Gateway { name, address, kind, priority, priority_rules };
        assert(src[i as int] == *e);
        assert(gateway_view(g) == gateway_of_entry(*e, kind)) by {
            assert(rules_view(g.priority_rules@) =~= match child_of(*e, "priority-rule"@) {
                Some(pr) => rules_of(pr),
                None => Seq::<(Seq<char>, u32)>::empty(),
            });
        }
        let ghost before = out@;
        let ghost gv = gateway_view(g);
        out.push(g);
        assert(out@.map_values(|g: Gateway| gateway_view(g)) =~= before.map_values(|g: Gateway| gateway_view(g)).push(gv));
        assert(src.take(i + 1) =~= src.take(i as int).push(src[i as int]));
        assert(src.take(i + 1).map_values(|e: XmlElement| gateway_of_entry(e, kind)) =~= src.take(i as int).map_values(
            |e: XmlElement| gateway_of_entry(e, kind),
        ).push(gateway_of_entry(src[i as int], kind)));
        i += 1;
    }
    assert(src.take(items.len() as int) =~= src);
    Some(out)
}

} // verus!
