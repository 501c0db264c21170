//! The client-side check (CSC) report: which checks the portal asks for,
//! what the host answers them with, and the report that carries the
//! answers.
use vstd::prelude::*;

use crate::text::{byte_len, decimal, decimal_text, insert_sorted, opt_view, replace_all, replace_char, replace_str, str_eq, strictly_sorted, trim, trim_str, utf8_len};
use crate::gateway::login::{percent_encode, url_encode};
use crate::gp_params::{GpParams, GpParamsView};
use crate::os_profile::ClientOs;
use crate::portal::csc::{bytes_hex, client_os_report_value, md5_digest, pan_md5_hex, CscRequest, DIGEST_PLACEHOLDER};
use crate::xml::{attr_of, child_of, children_view, descendant_of, descendant_text_of, write_xml, xml_view, xml_written, XmlElement, XmlView};

verus! {

broadcast use vstd::string::group_string_axioms;

// ---------------------------------------------------------------------------
// What the portal asks
// ---------------------------------------------------------------------------

/// The texts of the elements named `name` among `elements` and their
/// descendants, in document order; an element without text gives none.
pub open spec fn texts_in(elements: Seq<XmlElement>, name: Seq<char>) -> Seq<Seq<char>>
    decreases elements,
{
    if elements.len() == 0 {
        Seq::empty()
    } else {
        let first = elements[0];
        let own: Seq<Seq<char>> = if first.name@ == name {
            match first.text {
                Some(t) => seq![t@],
                None => Seq::empty(),
            }
        } else {
            Seq::empty()
        };
        own + texts_in(first.children@, name) + texts_in(elements.subrange(1, elements.len() as int), name)
    }
}

fn collect_texts(elements: &Vec<XmlElement>, name: &str, texts: &mut Vec<String>)
    ensures
        final(texts).deep_view() == old(texts).deep_view() + texts_in(elements@, name@),
    decreases elements@,
{
    let mut i: usize = 0;
    assert(elements@.subrange(0, elements@.len() as int) =~= elements@);
    while i < elements.len()
        invariant
            i <= elements.len(),
            texts.deep_view() + texts_in(elements@.subrange(i as int, elements@.len() as int), name@)
                == old(texts).deep_view() + texts_in(elements@, name@),
        decreases elements.len() - i,
    {
        let ghost rest = elements@.subrange(i as int, elements@.len() as int);
        let ghost next = elements@.subrange(i + 1, elements@.len() as int);
        assert(rest[0] == elements@[i as int]);
        assert(rest.subrange(1, rest.len() as int) =~= next);
        let e = &elements[i];
        let ghost t0 = texts.deep_view();
        let ghost own: Seq<Seq<char>> = if e.name@ == name@ {
            match opt_view(e.text) {
                Some(t) => seq![t],
                None => Seq::empty(),
            }
        } else {
            Seq::empty()
        };
        if str_eq(e.name.as_str(), name) {
            match &e.text {
                Some(t) => {
                    texts.push(t.clone());
                },
                None => {},
            }
        }
        assert(texts.deep_view() =~= t0 + own);
        assert(decreases_to!(elements@ => elements@[i as int]));
        collect_texts(&e.children, name, texts);
        assert(texts_in(rest, name@) == own + texts_in(e.children@, name@) + texts_in(next, name@));
        assert(texts.deep_view() + texts_in(next, name@) =~= t0 + texts_in(rest, name@));
        i += 1;
    }
    assert(elements@.subrange(i as int, elements@.len() as int) =~= Seq::<XmlElement>::empty());
    assert(texts.deep_view() + Seq::<Seq<char>>::empty() =~= texts.deep_view());
}

/// The keys a plist entry asks for: the texts of its `member` elements, or
/// else its own name.
pub open spec fn entry_keys(entry: XmlElement) -> Seq<Seq<char>> {
    let members = texts_in(entry.children@, "member"@);
    if members.len() > 0 {
        members
    } else {
        match attr_of(entry, "name"@) {
            Some(n) => seq![n],
            None => Seq::empty(),
        }
    }
}

/// The keys a plist entry asks for.
pub fn plist_entry_keys(entry: &XmlElement) -> (r: Vec<String>)
    ensures
        r.deep_view() == entry_keys(*entry),
{
    let mut keys: Vec<String> = Vec::new();
    collect_texts(&entry.children, "member", &mut keys);
    assert(keys.deep_view() =~= texts_in(entry.children@, "member"@));
    if keys.len() > 0 {
        return keys;
    }
    match entry.attr("name") {
        Some(n) => {
            let r = vec![n.to_string()];
            assert(r.deep_view() =~= seq![n@]);
            r
        },
        None => {
            let r: Vec<String> = Vec::new();
            assert(r.deep_view() =~= Seq::<Seq<char>>::empty());
            r
        },
    }
}

/// The names of the `name` attributes of the children named `entry`.
pub open spec fn entry_names(children: Seq<XmlElement>) -> Seq<Seq<char>>
    decreases children.len(),
{
    if children.len() == 0 {
        Seq::empty()
    } else {
        let rest = entry_names(children.drop_last());
        let c = children.last();
        if c.name@ == "entry"@ {
            match attr_of(c, "name"@) {
                Some(n) => rest.push(n),
                None => rest,
            }
        } else {
            rest
        }
    }
}

/// The trimmed texts that are not blank.
pub open spec fn trimmed_nonblank(texts: Seq<Seq<char>>) -> Seq<Seq<char>>
    decreases texts.len(),
{
    if texts.len() == 0 {
        Seq::empty()
    } else {
        let rest = trimmed_nonblank(texts.drop_last());
        let t = trim(texts.last());
        if t.len() > 0 {
            rest.push(t)
        } else {
            rest
        }
    }
}

/// The processes a process list asks about: its trimmed `member` texts and
/// its entries' names.
pub open spec fn process_names(list: XmlElement) -> Seq<Seq<char>> {
    trimmed_nonblank(texts_in(list.children@, "member"@)) + entry_names(list.children@)
}

/// The processes a process list asks about, each once, in ascending order.
pub fn process_list_names(list: &XmlElement) -> (r: Vec<String>)
    ensures
        strictly_sorted(r.deep_view()),
        r.deep_view().to_set() == process_names(*list).to_set(),
{
    let mut members: Vec<String> = Vec::new();
    collect_texts(&list.children, "member", &mut members);
    assert(members.deep_view() =~= texts_in(list.children@, "member"@));
    let mut names: Vec<String> = Vec::new();
    let mut i: usize = 0;
    while i < members.len()
        invariant
            i <= members.len(),
            names.deep_view() == trimmed_nonblank(members.deep_view().take(i as int)),
        decreases members.len() - i,
    {
        assert(members.deep_view().take(i + 1).drop_last() =~= members.deep_view().take(i as int));
        let t = trim_str(members[i].as_str());
        if !t.as_str().is_empty() {
            names.push(t);
        }
        i += 1;
    }
    assert(members.deep_view().take(members.len() as int) =~= members.deep_view());
    let mut j: usize = 0;
    while j < list.children.len()
        invariant
            j <= list.children.len(),
            names.deep_view() == trimmed_nonblank(members.deep_view()) + entry_names(
                list.children@.take(j as int),
            ),
        decreases list.children.len() - j,
    {
        assert(list.children@.take(j + 1).drop_last() =~= list.children@.take(j as int));
        assert(list.children@.take(j + 1).last() == list.children@[j as int]);
        let ghost before = names.deep_view();
        let c = &list.children[j];
        if str_eq(c.name.as_str(), "entry") {
            match c.attr("name") {
                Some(n) => {
                    names.push(n.to_string());
                    assert(names.deep_view() =~= before.push(n@));
                },
                None => {},
            }
        }
        j += 1;
    }
    assert(list.children@.take(list.children.len() as int) =~= list.children@);
    let mut r: Vec<String> = Vec::new();
    let mut k: usize = 0;
    assert(r.deep_view().to_set() =~= names.deep_view().take(0).to_set());
    while k < names.len()
        invariant
            k <= names.len(),
            strictly_sorted(r.deep_view()),
            r.deep_view().to_set() == names.deep_view().take(k as int).to_set(),
        decreases names.len() - k,
    {
        assert(names.deep_view().take(k + 1) =~= names.deep_view().take(k as int).push(names.deep_view()[k as int]));
        proof {
            names.deep_view().take(k as int).lemma_push_to_set_commute(names.deep_view()[k as int]);
        }
        insert_sorted(&mut r, names[k].clone());
        k += 1;
    }
    assert(names.deep_view().take(names.len() as int) =~= names.deep_view());
    r
}

// ---------------------------------------------------------------------------
// The elements of the report
// ---------------------------------------------------------------------------

/// An element that holds only text.
pub open spec fn text_view(name: Seq<char>, value: Seq<char>) -> XmlView {
    XmlView { name, attributes: Seq::empty(), children: Seq::empty(), text: Some(value) }
}

/// An element with attributes and child elements and no text.
pub open spec fn node_view(name: Seq<char>, attributes: Seq<(Seq<char>, Seq<char>)>, children: Seq<XmlView>) -> XmlView {
    XmlView { name, attributes, children, text: None }
}

pub open spec fn yes_no_text(b: bool) -> Seq<char> {
    if b {
        "yes"@
    } else {
        "no"@
    }
}

fn yes_no_str(b: bool) -> (r: &'static str)
    ensures
        r@ == yes_no_text(b),
{
    if b {
        "yes"
    } else {
        "no"
    }
}

/// An element holding `value` as its text.
pub fn text_element(name: &str, value: &str) -> (r: XmlElement)
    ensures
        xml_view(r) == text_view(name@, value@),
{
    let r = XmlElement {
        name: name.to_string(),
        attributes: Vec::new(),
        children: Vec::new(),
        text: Some(value.to_string()),
    };
    assert(r.attributes.deep_view() =~= Seq::<(Seq<char>, Seq<char>)>::empty());
    assert(children_view(r.children@) =~= Seq::<XmlView>::empty());
    r
}

/// An element with a `name` attribute and these children.
fn named_entry(value: &str, children: Vec<XmlElement>) -> (r: XmlElement)
    ensures
        xml_view(r) == node_view("entry"@, seq![("name"@, value@)], children_view(children@)),
{
    let attributes = vec![("name".to_string(), value.to_string())];
    let r = XmlElement { name: "entry".to_string(), attributes, children, text: None };
    assert(r.attributes.deep_view() =~= seq![("name"@, value@)]);
    r
}

/// An element with children and no attributes.
fn node_element(name: &str, children: Vec<XmlElement>) -> (r: XmlElement)
    ensures
        xml_view(r) == node_view(name@, Seq::empty(), children_view(children@)),
{
    let r = XmlElement { name: name.to_string(), attributes: Vec::new(), children, text: None };
    assert(r.attributes.deep_view() =~= Seq::<(Seq<char>, Seq<char>)>::empty());
    r
}

proof fn lemma_children_view_push(cs: Seq<XmlElement>, c: XmlElement)
    ensures
        children_view(cs.push(c)) == children_view(cs).push(xml_view(c)),
        children_view(cs.push(c)).len() == cs.len() + 1,
{
    assert(cs.push(c).drop_last() =~= cs);
    lemma_children_view_len(cs);
}

proof fn lemma_children_view_len(cs: Seq<XmlElement>)
    ensures
        children_view(cs).len() == cs.len(),
    decreases cs.len(),
{
    if cs.len() > 0 {
        lemma_children_view_len(cs.drop_last());
    }
}

/// The answer for one preference key: whether it exists and its value.
pub open spec fn preference_view(key: Seq<char>, value: Option<Seq<char>>) -> XmlView {
    node_view(
        "entry"@,
        seq![("name"@, key)],
        seq![
            text_view("exist"@, yes_no_text(value is Some)),
            text_view("value"@, match value {
                Some(v) => v,
                None => Seq::empty(),
            }),
        ],
    )
}

/// The answer for one plist entry: whether any of its keys exists, and
/// each key's answer.
pub open spec fn plist_entry_view(domain: Seq<char>, keys: Seq<Seq<char>>, values: Seq<Option<Seq<char>>>) -> XmlView {
    node_view(
        "entry"@,
        seq![("name"@, domain)],
        seq![
            text_view("exist"@, yes_no_text(exists|i: int| 0 <= i < values.len() && values[i] is Some)),
            text_view("value"@, Seq::empty()),
            node_view(
                "preference-value"@,
                Seq::empty(),
                Seq::new(keys.len(), |i: int| preference_view(keys[i], values[i])),
            ),
        ],
    )
}

pub open spec fn opt_views(values: Seq<Option<String>>) -> Seq<Option<Seq<char>>> {
    values.map_values(|v: Option<String>| opt_view(v))
}

fn preference_element(key: &str, value: &Option<String>) -> (r: XmlElement)
    ensures
        xml_view(r) == preference_view(key@, opt_view(*value)),
{
    proof {
        reveal_strlit("");
    }
    let v = match value {
        Some(v) => v.as_str(),
        None => "",
    };
    assert(v@ == match opt_view(*value) {
        Some(t) => t,
        None => Seq::<char>::empty(),
    });
    let e0 = text_element("exist", yes_no_str(value.is_some()));
    let e1 = text_element("value", v);
    let ghost g0 = e0;
    let ghost g1 = e1;
    let mut children: Vec<XmlElement> = Vec::new();
    children.push(e0);
    children.push(e1);
    proof {
        lemma_children_view_push(Seq::empty(), g0);
        lemma_children_view_push(seq![g0], g1);
        assert(Seq::<XmlElement>::empty().push(g0) =~= seq![g0]);
        assert(seq![g0].push(g1) =~= children@);
        assert(children_view(Seq::<XmlElement>::empty()) =~= Seq::<XmlView>::empty());
        assert(children_view(children@) =~= seq![xml_view(g0), xml_view(g1)]);
        assert(xml_view(g0) == text_view("exist"@, yes_no_text(opt_view(*value) is Some)));
        assert(xml_view(g1) == text_view("value"@, match opt_view(*value) {
            Some(t) => t,
            None => Seq::<char>::empty(),
        }));
    }
    let r = named_entry(key, children);
    let ghost pv = preference_view(key@, opt_view(*value));
    assert(xml_view(r).name == pv.name);
    assert(xml_view(r).attributes == pv.attributes);
    assert(xml_view(r).text == pv.text);
    assert(xml_view(r).children[0] == pv.children[0]);
    assert(xml_view(r).children[1] == pv.children[1]);
    assert(xml_view(r).children =~= pv.children);
    r
}

/// The answer for one plist entry, with the answers for its keys.
fn plist_entry_element(domain: &str, keys: &Vec<String>, values: &Vec<Option<String>>) -> (r: XmlElement)
    requires
        keys.len() == values.len(),
    ensures
        xml_view(r) == plist_entry_view(domain@, keys.deep_view(), opt_views(values@)),
{
    proof {
        reveal_strlit("");
    }
    let ghost ks = keys.deep_view();
    let ghost vs = opt_views(values@);
    let mut any = false;
    let mut kids: Vec<XmlElement> = Vec::new();
    let mut i: usize = 0;
    while i < keys.len()
        invariant
            i <= keys.len(),
            keys.len() == values.len(),
            ks == keys.deep_view(),
            vs == opt_views(values@),
            any == exists|j: int| 0 <= j < i && vs[j] is Some,
            kids@.len() == i,
            children_view(kids@) =~= Seq::new(i as nat, |j: int| preference_view(ks[j], vs[j])),
        decreases keys.len() - i,
    {
        let e = preference_element(keys[i].as_str(), &values[i]);
        let ghost before = kids@;
        proof {
            lemma_children_view_push(before, e);
        }
        assert(vs[i as int] == opt_view(values@[i as int]));
        if values[i].is_some() {
            any = true;
            assert(vs[i as int] is Some);
        } else {
            assert(forall|j: int| 0 <= j < i + 1 && vs[j] is Some ==> 0 <= j < i);
        }
        kids.push(e);
        assert(children_view(kids@) =~= Seq::new((i + 1) as nat, |j: int| preference_view(ks[j], vs[j])));
        i += 1;
    }
    let prefs = node_element("preference-value", kids);
    let e0 = text_element("exist", yes_no_str(any));
    let e1 = text_element("value", "");
    let ghost g0 = e0;
    let ghost g1 = e1;
    let ghost g2 = prefs;
    let mut children: Vec<XmlElement> = Vec::new();
    children.push(e0);
    children.push(e1);
    children.push(prefs);
    proof {
        lemma_children_view_push(Seq::empty(), g0);
        lemma_children_view_push(seq![g0], g1);
        lemma_children_view_push(seq![g0, g1], g2);
        assert(Seq::<XmlElement>::empty().push(g0) =~= seq![g0]);
        assert(seq![g0].push(g1) =~= seq![g0, g1]);
        assert(seq![g0, g1].push(g2) =~= children@);
    }
    let r = named_entry(domain, children);
    let ghost pv = plist_entry_view(domain@, ks, vs);
    assert(xml_view(r).children[0] == pv.children[0]);
    assert(xml_view(r).children[1] == pv.children[1]);
    assert(xml_view(r).children[2] == pv.children[2]);
    assert(xml_view(r).children =~= pv.children);
    r
}

/// The entries of a plist check.
pub open spec fn plist_entries(plist: XmlElement) -> Seq<XmlElement> {
    plist.children@.filter(|c: XmlElement| c.name@ == "entry"@)
}

/// The domain a plist entry names; empty when it names none.
pub open spec fn entry_domain(e: XmlElement) -> Seq<char> {
    match attr_of(e, "name"@) {
        Some(d) => d,
        None => Seq::empty(),
    }
}

/// The answer for one process: whether it runs, and its name when it does.
pub open spec fn process_view(name: Seq<char>, present: bool) -> XmlView {
    node_view(
        "entry"@,
        seq![("name"@, name)],
        seq![
            text_view("exist"@, yes_no_text(present)),
            text_view("value"@, if present {
                name
            } else {
                Seq::empty()
            }),
        ],
    )
}

/// The process checks.
pub open spec fn process_list_view(names: Seq<Seq<char>>, present: Seq<bool>) -> XmlView {
    node_view("process-list"@, Seq::empty(), Seq::new(names.len(), |i: int| process_view(names[i], present[i])))
}

fn process_element(name: &str, present: bool) -> (r: XmlElement)
    ensures
        xml_view(r) == process_view(name@, present),
{
    proof {
        reveal_strlit("");
    }
    let value = if present {
        name
    } else {
        ""
    };
    let e0 = text_element("exist", yes_no_str(present));
    let e1 = text_element("value", value);
    let ghost g0 = e0;
    let ghost g1 = e1;
    let mut children: Vec<XmlElement> = Vec::new();
    children.push(e0);
    children.push(e1);
    proof {
        lemma_children_view_push(Seq::empty(), g0);
        lemma_children_view_push(seq![g0], g1);
        assert(Seq::<XmlElement>::empty().push(g0) =~= seq![g0]);
        assert(seq![g0].push(g1) =~= children@);
    }
    let r = named_entry(name, children);
    let ghost pv = process_view(name@, present);
    assert(xml_view(r).children[0] == pv.children[0]);
    assert(xml_view(r).children[1] == pv.children[1]);
    assert(xml_view(r).children =~= pv.children);
    r
}

/// The process checks of the named processes.
pub fn process_list_element(names: &Vec<String>, present: &Vec<bool>) -> (r: XmlElement)
    requires
        names.len() == present.len(),
    ensures
        xml_view(r) == process_list_view(names.deep_view(), present@),
{
    let ghost ns = names.deep_view();
    let mut kids: Vec<XmlElement> = Vec::new();
    let mut i: usize = 0;
    while i < names.len()
        invariant
            i <= names.len(),
            names.len() == present.len(),
            ns == names.deep_view(),
            kids@.len() == i,
            children_view(kids@) =~= Seq::new(i as nat, |j: int| process_view(ns[j], present@[j])),
        decreases names.len() - i,
    {
        let e = process_element(names[i].as_str(), present[i]);
        proof {
            lemma_children_view_push(kids@, e);
        }
        kids.push(e);
        assert(children_view(kids@) =~= Seq::new((i + 1) as nat, |j: int| process_view(ns[j], present@[j])));
        i += 1;
    }
    let r = node_element("process-list", kids);
    assert(xml_view(r).children =~= process_list_view(ns, present@).children);
    r
}

// ---------------------------------------------------------------------------
// Which checks are asked for
// ---------------------------------------------------------------------------

/// The checks the portal asks for.
pub open spec fn requested_checks(criteria: XmlElement) -> Option<XmlElement> {
    descendant_of(criteria, "custom-checks"@)
}

/// The plist checks, asked of a macOS client only.
pub open spec fn requested_plist(criteria: XmlElement, os: ClientOs) -> Option<XmlElement> {
    if os is Mac {
        match requested_checks(criteria) {
            Some(rc) => match child_of(rc, "mac-os"@) {
                Some(m) => child_of(m, "plist"@),
                None => None,
            },
            None => None,
        }
    } else {
        None
    }
}

/// The process checks, asked of a Linux client only: under `linux`, or
/// else directly under the checks.
pub open spec fn requested_process_list(criteria: XmlElement, os: ClientOs) -> Option<XmlElement> {
    if os is Linux {
        match requested_checks(criteria) {
            Some(rc) => {
                let nested = match child_of(rc, "linux"@) {
                    Some(l) => child_of(l, "process-list"@),
                    None => None,
                };
                match nested {
                    Some(p) => Some(p),
                    None => child_of(rc, "process-list"@),
                }
            },
            None => None,
        }
    } else {
        None
    }
}

/// Each plist entry's domain and the keys asked of it.
pub open spec fn plist_queries_of(plist: XmlElement) -> Seq<(Seq<char>, Seq<Seq<char>>)> {
    let entries = plist_entries(plist);
    Seq::new(entries.len(), |i: int| (entry_domain(entries[i]), entry_keys(entries[i])))
}

/// What must be asked of the host to answer the portal's checks.
#[derive(Debug)]
pub struct CscQueries {
    /// Each plist entry's domain and keys, when plist checks are asked for.
    pub plist: Option<Vec<(String, Vec<String>)>>,
    /// The processes, each once and in ascending order, when process checks
    /// are asked for.
    pub processes: Option<Vec<String>>,
}

pub open spec fn plist_query_view(q: Vec<(String, Vec<String>)>) -> Seq<(Seq<char>, Seq<Seq<char>>)> {
    q@.map_values(|e: (String, Vec<String>)| (e.0@, e.1.deep_view()))
}

/// `q` holds what the checks that `criteria` asks of a client of `os` need
/// to know: each plist entry's domain and keys, and the processes, each
/// once and in ascending order.
pub open spec fn queries_for(q: CscQueries, criteria: XmlElement, os: ClientOs) -> bool {
    &&& match requested_plist(criteria, os) {
        Some(pl) => q.plist matches Some(p) && plist_query_view(p) == plist_queries_of(pl),
        None => q.plist is None,
    }
    &&& match requested_process_list(criteria, os) {
        Some(l) => q.processes matches Some(n) && strictly_sorted(n.deep_view()) && n.deep_view().to_set()
            == process_names(l).to_set(),
        None => q.processes is None,
    }
}

/// What the checks the portal asks of a client of this operating system
/// need to know.
pub fn csc_queries(criteria: &XmlElement, client_os: ClientOs) -> (r: CscQueries)
    ensures
        queries_for(r, *criteria, client_os),
        match requested_plist(*criteria, client_os) {
            Some(pl) => r.plist matches Some(q) && plist_query_view(q) == plist_queries_of(pl),
            None => r.plist is None,
        },
        match requested_process_list(*criteria, client_os) {
            Some(l) => r.processes matches Some(n) && strictly_sorted(n.deep_view()) && n.deep_view().to_set()
                == process_names(l).to_set(),
            None => r.processes is None,
        },
{
    let checks = criteria.descendant("custom-checks");
    let mut plist: Option<Vec<(String, Vec<String>)>> = None;
    let mut processes: Option<Vec<String>> = None;
    if let Some(rc) = checks {
        if client_os == ClientOs::Mac {
            if let Some(m) = rc.child("mac-os") {
                if let Some(pl) = m.child("plist") {
                    plist = Some(plist_queries(pl));
                }
            }
        }
        if client_os == ClientOs::Linux {
            let nested = match rc.child("linux") {
                Some(l) => l.child("process-list"),
                None => None,
            };
            let list = match nested {
                Some(p) => Some(p),
                None => rc.child("process-list"),
            };
            if let Some(l) = list {
                processes = Some(process_list_names(l));
            }
        }
    }
    CscQueries { plist, processes }
}

/// Each plist entry's domain and keys.
pub fn plist_queries(plist: &XmlElement) -> (r: Vec<(String, Vec<String>)>)
    ensures
        plist_query_view(r) == plist_queries_of(*plist),
{
    let entries = plist.children_named("entry");
    let ghost es = plist_entries(*plist);
    assert(entries@.map_values(|c: &XmlElement| *c) == es);
    let mut r: Vec<(String, Vec<String>)> = Vec::new();
    let mut i: usize = 0;
    while i < entries.len()
        invariant
            i <= entries.len(),
            es == entries@.map_values(|c: &XmlElement| *c),
            r@.len() == i,
            plist_query_view(r) =~= Seq::new(i as nat, |j: int| (entry_domain(es[j]), entry_keys(es[j]))),
        decreases entries.len() - i,
    {
        let e = entries[i];
        assert(*e == es[i as int]);
        proof {
            reveal_strlit("");
        }
        let domain = match e.attr("name") {
            Some(d) => d.to_string(),
            None => "".to_string(),
        };
        let keys = plist_entry_keys(e);
        assert(domain@ == entry_domain(es[i as int]));
        assert(keys.deep_view() == entry_keys(es[i as int]));
        let ghost before = r@;
        let ghost old_view = plist_query_view(r);
        r.push((domain, keys));
        assert(r@ == before.push((domain, keys)));
        assert forall|j: int| 0 <= j < i implies plist_query_view(r)[j] == old_view[j] by {
            assert(r@[j] == before[j]);
        }
        assert(plist_query_view(r)[i as int] == (entry_domain(es[i as int]), entry_keys(es[i as int])));
        let ghost target = Seq::new((i + 1) as nat, |j: int| (entry_domain(es[j]), entry_keys(es[j])));
        assert(plist_query_view(r).len() == target.len());
        assert forall|j: int| 0 <= j < i + 1 implies plist_query_view(r)[j] == target[j] by {
            if j < i {
                assert(old_view[j] == (entry_domain(es[j]), entry_keys(es[j])));
            }
        }
        assert(plist_query_view(r) =~= target);
        i += 1;
    }
    r
}

// ---------------------------------------------------------------------------
// The answers
// ---------------------------------------------------------------------------

/// The plist checks, with the answers for each entry's keys.
pub open spec fn plist_answers_view(q: Seq<(Seq<char>, Seq<Seq<char>>)>, answers: Seq<Seq<Option<Seq<char>>>>) -> XmlView {
    node_view("plist"@, Seq::empty(), Seq::new(q.len(), |i: int| plist_entry_view(q[i].0, q[i].1, answers[i])))
}

pub open spec fn answers_view(answers: Seq<Vec<Option<String>>>) -> Seq<Seq<Option<Seq<char>>>> {
    answers.map_values(|a: Vec<Option<String>>| opt_views(a@))
}

/// The custom checks of the report: the plist checks, then the process
/// checks, each when asked for.
pub open spec fn custom_checks_view(plist: Option<XmlView>, processes: Option<XmlView>) -> XmlView {
    let a: Seq<XmlView> = match plist {
        Some(p) => seq![p],
        None => Seq::empty(),
    };
    let b: Seq<XmlView> = match processes {
        Some(p) => seq![p],
        None => Seq::empty(),
    };
    node_view("custom-checks"@, Seq::empty(), a + b)
}

/// The answers fit the questions: one list of values for each plist entry,
/// one value for each of its keys, and one presence for each process.
pub open spec fn answers_fit(q: CscQueries, plist_answers: Seq<Vec<Option<String>>>, process_present: Seq<bool>) -> bool {
    &&& match q.plist {
        Some(entries) => plist_answers.len() == entries@.len() && forall|i: int|
            0 <= i < entries@.len() ==> (#[trigger] plist_answers[i])@.len() == entries@[i].1@.len(),
        None => true,
    }
    &&& match q.processes {
        Some(names) => process_present.len() == names@.len(),
        None => true,
    }
}

/// The plist checks with their answers.
fn plist_answers_element(q: &Vec<(String, Vec<String>)>, answers: &Vec<Vec<Option<String>>>) -> (r: XmlElement)
    requires
        answers.len() == q.len(),
        forall|i: int| 0 <= i < q@.len() ==> (#[trigger] answers@[i])@.len() == q@[i].1@.len(),
    ensures
        xml_view(r) == plist_answers_view(plist_query_view(*q), answers_view(answers@)),
{
    let ghost qv = plist_query_view(*q);
    let ghost av = answers_view(answers@);
    let mut kids: Vec<XmlElement> = Vec::new();
    let mut i: usize = 0;
    while i < q.len()
        invariant
            i <= q.len(),
            answers.len() == q.len(),
            forall|k: int| 0 <= k < q@.len() ==> (#[trigger] answers@[k])@.len() == q@[k].1@.len(),
            qv == plist_query_view(*q),
            av == answers_view(answers@),
            kids@.len() == i,
            children_view(kids@) =~= Seq::new(i as nat, |j: int| plist_entry_view(qv[j].0, qv[j].1, av[j])),
        decreases q.len() - i,
    {
        assert(answers@[i as int]@.len() == q@[i as int].1@.len());
        let e = plist_entry_element(q[i].0.as_str(), &q[i].1, &answers[i]);
        assert(qv[i as int] == (q@[i as int].0@, q@[i as int].1.deep_view()));
        assert(av[i as int] == opt_views(answers@[i as int]@));
        proof {
            lemma_children_view_push(kids@, e);
        }
        kids.push(e);
        assert(children_view(kids@) =~= Seq::new((i + 1) as nat, |j: int| plist_entry_view(qv[j].0, qv[j].1, av[j])));
        i += 1;
    }
    let r = node_element("plist", kids);
    assert(xml_view(r).children =~= plist_answers_view(qv, av).children);
    r
}

/// How many checks were answered, and how.
#[derive(Debug)]
pub struct CscBuildSummary {
    pub plist_entries: usize,
    pub plist_present: usize,
    pub plist_missing: usize,
    pub process_entries: usize,
    pub process_present: usize,
    pub process_missing: usize,
}

impl Default for CscBuildSummary {
    fn default() -> (r: Self)
        ensures
            r.plist_entries == 0 && r.plist_present == 0 && r.plist_missing == 0,
            r.process_entries == 0 && r.process_present == 0 && r.process_missing == 0,
    {
        CscBuildSummary {
            plist_entries: 0,
            plist_present: 0,
            plist_missing: 0,
            process_entries: 0,
            process_present: 0,
            process_missing: 0,
        }
    }
}

/// How many of `present` are `true`.
pub open spec fn count_true(present: Seq<bool>) -> nat
    decreases present.len(),
{
    if present.len() == 0 {
        0
    } else {
        count_true(present.drop_last()) + if present.last() {
            1nat
        } else {
            0nat
        }
    }
}

/// The plist checks with their answers, when they were asked for.
pub open spec fn plist_part(q: CscQueries, plist_answers: Seq<Vec<Option<String>>>) -> Option<XmlView> {
    match q.plist {
        Some(entries) => Some(plist_answers_view(plist_query_view(entries), answers_view(plist_answers))),
        None => None,
    }
}

/// The process checks with their answers, when they were asked for.
pub open spec fn process_part(q: CscQueries, process_present: Seq<bool>) -> Option<XmlView> {
    match q.processes {
        Some(names) => Some(process_list_view(names.deep_view(), process_present)),
        None => None,
    }
}

/// The custom checks of the report from the questions and their answers,
/// and how many processes were found.
pub fn build_custom_checks(
    q: &CscQueries,
    plist_answers: &Vec<Vec<Option<String>>>,
    process_present: &Vec<bool>,
) -> (r: (XmlElement, CscBuildSummary))
    requires
        answers_fit(*q, plist_answers@, process_present@),
    ensures
        xml_view(r.0) == custom_checks_view(plist_part(*q, plist_answers@), process_part(*q, process_present@)),
        match q.processes {
            Some(names) => r.1.process_entries == names@.len() && r.1.process_present == count_true(process_present@)
                && r.1.process_present + r.1.process_missing == names@.len(),
            None => r.1.process_entries == 0,
        },
{
    let mut summary = CscBuildSummary::default();
    let mut kids: Vec<XmlElement> = Vec::new();
    let ghost pv = plist_part(*q, plist_answers@);
    let ghost lv = process_part(*q, process_present@);
    if let Some(entries) = &q.plist {
        let e = plist_answers_element(entries, plist_answers);
        let mut keys_total: usize = 0;
        let mut present: usize = 0;
        let mut k: usize = 0;
        while k < plist_answers.len()
            invariant
                k <= plist_answers.len(),
                present <= keys_total,
            decreases plist_answers.len() - k,
        {
            let mut m: usize = 0;
            while m < plist_answers[k].len()
                invariant
                    k < plist_answers.len(),
                    m <= plist_answers[k as int]@.len(),
                    present <= keys_total,
                decreases plist_answers[k as int]@.len() - m,
            {
                if keys_total < usize::MAX {
                    keys_total += 1;
                    if plist_answers[k][m].is_some() {
                        present += 1;
                    }
                }
                m += 1;
            }
            k += 1;
        }
        summary.plist_entries = keys_total;
        summary.plist_present = present;
        summary.plist_missing = keys_total - present;
        proof {
            lemma_children_view_push(kids@, e);
        }
        kids.push(e);
    }
    let ghost after_plist = kids@;
    assert(children_view(after_plist) =~= match pv {
        Some(p) => seq![p],
        None => Seq::<XmlView>::empty(),
    });
    if let Some(names) = &q.processes {
        let e = process_list_element(names, process_present);
        let mut present: usize = 0;
        let mut k: usize = 0;
        while k < process_present.len()
            invariant
                k <= process_present.len(),
                present == count_true(process_present@.take(k as int)),
                present <= k,
            decreases process_present.len() - k,
        {
            assert(process_present@.take(k + 1).drop_last() =~= process_present@.take(k as int));
            if process_present[k] {
                present += 1;
            }
            k += 1;
        }
        assert(process_present@.take(process_present.len() as int) =~= process_present@);
        summary.process_entries = names.len();
        summary.process_present = present;
        summary.process_missing = names.len() - present;
        proof {
            lemma_children_view_push(kids@, e);
        }
        kids.push(e);
    }
    let r = node_element("custom-checks", kids);
    let ghost cv = custom_checks_view(pv, lv);
    assert(xml_view(r).children =~= cv.children);
    (r, summary)
}

// ---------------------------------------------------------------------------
// The report
// ---------------------------------------------------------------------------

/// The report: the portal's cookie, the user, the client's system, the
/// host's identity, the digest, and the answered checks.
pub open spec fn report_view(
    auth_cookie: Seq<char>,
    user_name: Seq<char>,
    client_os: Seq<char>,
    host_id: Seq<char>,
    serial_number: Seq<char>,
    digest: Seq<char>,
    checks: XmlView,
) -> XmlView {
    node_view(
        "hip-report"@,
        Seq::empty(),
        seq![
            text_view("portal-csc-auth-cookie"@, auth_cookie),
            text_view("user-name"@, user_name),
            text_view("client-os"@, client_os),
            text_view("host-id"@, host_id),
            text_view("device-serial-number"@, serial_number),
            text_view("csc-digest"@, digest),
            node_view("categories"@, Seq::empty(), Seq::empty()),
            checks,
        ],
    )
}

/// The digest of a written report: the PAN MD5 hex of its text with the
/// placeholder still in it.
pub open spec fn report_digest(written: Seq<char>) -> Seq<char> {
    bytes_hex(md5_digest(vstd::utf8::encode_utf8(written)))
}

/// The written report of a request, before the digest is filled in.
pub open spec fn written_report(
    auth_cookie: Seq<char>,
    username: Seq<char>,
    gp_params: crate::gp_params::GpParamsView,
    host_id: Seq<char>,
    serial_number: Seq<char>,
    checks: XmlView,
) -> Option<Seq<char>> {
    xml_written(
        report_view(
            auth_cookie,
            url_encode(username),
            replace_char(gp_params.os_profile.os_version, ' ', '+'),
            host_id,
            serial_number,
            DIGEST_PLACEHOLDER@,
            checks,
        ),
    )
}

/// The portal's cookie for the report: its non-empty
/// `portal-csc-auth-cookie`.
pub open spec fn report_cookie(root: XmlElement) -> Option<Seq<char>> {
    match descendant_text_of(root, "portal-csc-auth-cookie"@) {
        Some(c) => if c.len() > 0 {
            Some(c)
        } else {
            None
        },
        None => None,
    }
}

/// `r` is the client-side check report for the portal's answer `root`,
/// with the checks `checks`: an error when the answer has no report cookie
/// or the report cannot be written, else the request with the cookie, the
/// configuration digest, the report, its digest, and the host's ID and
/// serial number.
pub open spec fn csc_request_of(
    root: XmlElement,
    username: Seq<char>,
    gp_params: GpParamsView,
    host_id: Seq<char>,
    serial_number: Seq<char>,
    checks: XmlView,
    r: Result<CscRequest, String>,
) -> bool {
    match report_cookie(root) {
        None => r is Err,
        Some(cookie) => match written_report(cookie, username, gp_params, host_id, serial_number, checks) {
            None => r is Err,
            Some(w) => r matches Ok(req) && req.auth_cookie@ == cookie && req.config_digest@ == match descendant_text_of(
                root,
                "config-digest"@,
            ) {
                Some(d) => d,
                None => Seq::empty(),
            } && req.csc_digest@ == report_digest(w) && req.csc_data@ == replace_all(
                w,
                DIGEST_PLACEHOLDER@,
                report_digest(w),
            ) && req.host_id@ == host_id && req.serial_number@ == serial_number,
        },
    }
}

/// The report is built from the queries that `root` asks of a client of
/// `os`, with some answers that fit them.
pub open spec fn answered_request(
    q: CscQueries,
    plist_answers: Seq<Vec<Option<String>>>,
    process_present: Seq<bool>,
    root: XmlElement,
    username: Seq<char>,
    gp_params: GpParamsView,
    host_id: Seq<char>,
    serial_number: Seq<char>,
    r: Result<CscRequest, String>,
) -> bool {
    &&& queries_for(q, root, gp_params.os_profile.client_os)
    &&& answers_fit(q, plist_answers, process_present)
    &&& csc_request_of(
        root,
        username,
        gp_params,
        host_id,
        serial_number,
        custom_checks_view(plist_part(q, plist_answers), process_part(q, process_present)),
        r,
    )
}

/// The client-side check report for the portal's criteria, with the answered
/// checks: refused when the criteria carry no cookie or the report cannot be
/// written. The digest is taken over the report with a placeholder in its
/// place, then written into it.
pub fn build_csc_request_with(
    root: &XmlElement,
    username: &str,
    gp_params: &GpParams,
    host_id: &str,
    serial_number: &str,
    checks: XmlElement,
    summary: CscBuildSummary,
) -> (r: Result<CscRequest, String>)
    ensures
        match report_cookie(*root) {
            None => r is Err,
            Some(cookie) => match written_report(cookie, username@, gp_params@, host_id@, serial_number@, xml_view(checks)) {
                None => r is Err,
                Some(w) => r matches Ok(req) && req.auth_cookie@ == cookie && req.config_digest@ == match descendant_text_of(
                    *root,
                    "config-digest"@,
                ) {
                    Some(d) => d,
                    None => Seq::empty(),
                } && req.csc_digest@ == report_digest(w) && req.csc_data@ == replace_all(
                    w,
                    DIGEST_PLACEHOLDER@,
                    report_digest(w),
                ) && req.host_id@ == host_id@ && req.serial_number@ == serial_number@,
            },
        },
{
    proof {
        reveal_strlit("");
        reveal_strlit("__#_PAN_CSC_DATA_DIGEST_#__");
    }
    let auth_cookie = match root.descendant_text("portal-csc-auth-cookie") {
        Some(c) => c,
        None => {
            return Err("CSC criteria response does not contain portal-csc-auth-cookie".to_string());
        },
    };
    if auth_cookie.as_str().is_empty() {
        return Err("CSC criteria response does not contain portal-csc-auth-cookie".to_string());
    }
    let config_digest = match root.descendant_text("config-digest") {
        Some(d) => d,
        None => "".to_string(),
    };
    let user_name = percent_encode(username);
    let client_os = client_os_report_value(gp_params);
    let ghost cv = xml_view(checks);
    let e0 = text_element("portal-csc-auth-cookie", auth_cookie.as_str());
    let e1 = text_element("user-name", user_name.as_str());
    let e2 = text_element("client-os", client_os.as_str());
    let e3 = text_element("host-id", host_id);
    let e4 = text_element("device-serial-number", serial_number);
    let e5 = text_element("csc-digest", DIGEST_PLACEHOLDER);
    let e6 = node_element("categories", Vec::new());
    let ghost gs = seq![e0, e1, e2, e3, e4, e5, e6, checks];
    let mut kids: Vec<XmlElement> = Vec::new();
    kids.push(e0);
    kids.push(e1);
    kids.push(e2);
    kids.push(e3);
    kids.push(e4);
    kids.push(e5);
    kids.push(e6);
    kids.push(checks);
    proof {
        assert(kids@ =~= gs);
        lemma_children_view_len(gs);
        assert(children_view(Seq::<XmlElement>::empty()) =~= Seq::<XmlView>::empty());
        assert forall|k: int| 0 <= k < 8 implies #[trigger] children_view(gs)[k] == xml_view(gs[k]) by {
            lemma_children_view_index(gs, k);
        }
    }
    let report = node_element("hip-report", kids);
    let ghost rv = report_view(auth_cookie@, url_encode(username@), replace_char(gp_params@.os_profile.os_version, ' ', '+'), host_id@, serial_number@, DIGEST_PLACEHOLDER@, cv);
    assert(xml_view(e6) == node_view("categories"@, Seq::empty(), Seq::empty())) by {
        assert(children_view(Seq::<XmlElement>::empty()) =~= Seq::<XmlView>::empty());
    }
    assert(xml_view(report).children =~= rv.children);
    assert(xml_view(report) == rv);
    let written = match write_xml(&report) {
        Some(w) => w,
        None => {
            return Err("Failed to write the CSC report".to_string());
        },
    };
    let csc_digest = pan_md5_hex(written.as_str().as_bytes());
    let csc_data = replace_str(written.as_str(), DIGEST_PLACEHOLDER, csc_digest.as_str());
    Ok(
        CscRequest {
            auth_cookie,
            config_digest,
            csc_digest,
            csc_data,
            host_id: host_id.to_string(),
            serial_number: serial_number.to_string(),
            summary,
        },
    )
}

proof fn lemma_children_view_index(cs: Seq<XmlElement>, k: int)
    requires
        0 <= k < cs.len(),
    ensures
        children_view(cs)[k] == xml_view(cs[k]),
    decreases cs.len(),
{
    lemma_children_view_len(cs.drop_last());
    if k < cs.len() - 1 {
        lemma_children_view_index(cs.drop_last(), k);
    }
}

/// What the host says when a check asks: a preference's value, and whether
/// a process runs.
pub trait CscDataReader {
    fn read_preference(&self, domain: &str, key: &str) -> Option<String>;

    fn process_exists(&self, name: &str) -> bool;
}

/// Asks `reader` each question of `q`, in order.
pub fn answer_queries<R: CscDataReader>(q: &CscQueries, reader: &R) -> (r: (Vec<Vec<Option<String>>>, Vec<bool>))
    ensures
        answers_fit(*q, r.0@, r.1@),
{
    let mut plist_answers: Vec<Vec<Option<String>>> = Vec::new();
    if let Some(entries) = &q.plist {
        let mut i: usize = 0;
        while i < entries.len()
            invariant
                i <= entries.len(),
                plist_answers@.len() == i,
                forall|k: int| 0 <= k < i ==> (#[trigger] plist_answers@[k])@.len() == entries@[k].1@.len(),
            decreases entries.len() - i,
        {
            let mut values: Vec<Option<String>> = Vec::new();
            let mut j: usize = 0;
            while j < entries[i].1.len()
                invariant
                    i < entries.len(),
                    j <= entries@[i as int].1@.len(),
                    values@.len() == j,
                decreases entries@[i as int].1@.len() - j,
            {
                values.push(reader.read_preference(entries[i].0.as_str(), entries[i].1[j].as_str()));
                j += 1;
            }
            plist_answers.push(values);
            i += 1;
        }
    }
    let mut present: Vec<bool> = Vec::new();
    if let Some(names) = &q.processes {
        let mut i: usize = 0;
        while i < names.len()
            invariant
                i <= names.len(),
                present@.len() == i,
            decreases names.len() - i,
        {
            present.push(reader.process_exists(names[i].as_str()));
            i += 1;
        }
    }
    (plist_answers, present)
}

/// The client-side check report for the portal's criteria, with the host's
/// answers read from `reader`.
pub fn build_csc_request_with_reader<R: CscDataReader>(
    root: &XmlElement,
    username: &str,
    gp_params: &GpParams,
    host_id: &str,
    serial_number: &str,
    reader: &R,
) -> (r: Result<CscRequest, String>)
    ensures
        report_cookie(*root) is None ==> r is Err,
        exists|q: CscQueries, plist_answers: Seq<Vec<Option<String>>>, process_present: Seq<bool>|
            #[trigger] answered_request(
                q,
                plist_answers,
                process_present,
                *root,
                username@,
                gp_params@,
                host_id@,
                serial_number@,
                r,
            ),
{
    let q = csc_queries(root, gp_params.os_profile().client_os());
    let (plist_answers, present) = answer_queries(&q, reader);
    let (checks, summary) = build_custom_checks(&q, &plist_answers, &present);
    let r = build_csc_request_with(root, username, gp_params, host_id, serial_number, checks, summary);
    assert(answered_request(q, plist_answers@, present@, *root, username@, gp_params@, host_id@, serial_number@, r));
    r
}

/// A one-line account of a report: the digest's and the report's lengths
/// and the counts of the checks.
pub open spec fn summary_text(digest_len: nat, data_len: nat, s: CscBuildSummary) -> Seq<char> {
    "digest_len="@ + decimal(digest_len) + ", xml_len="@ + decimal(data_len) + ", plist_entries="@ + decimal(
        s.plist_entries as nat,
    ) + ", plist_present="@ + decimal(s.plist_present as nat) + ", plist_missing="@ + decimal(
        s.plist_missing as nat,
    ) + ", process_entries="@ + decimal(s.process_entries as nat) + ", process_present="@ + decimal(
        s.process_present as nat,
    ) + ", process_missing="@ + decimal(s.process_missing as nat)
}

impl CscRequest {
    /// A one-line account of the report, for the log.
    pub fn summary(&self) -> (r: String)
        ensures
            r@ == summary_text(utf8_len(self.csc_digest@), utf8_len(self.csc_data@), self.summary),
    {
        let mut out = "digest_len=".to_string();
        let t = decimal_text(byte_len(self.csc_digest.as_str()) as u64);
        out.append(t.as_str());
        out.append(", xml_len=");
        let t = decimal_text(byte_len(self.csc_data.as_str()) as u64);
        out.append(t.as_str());
        out.append(", plist_entries=");
        let t = decimal_text(self.summary.plist_entries as u64);
        out.append(t.as_str());
        out.append(", plist_present=");
        let t = decimal_text(self.summary.plist_present as u64);
        out.append(t.as_str());
        out.append(", plist_missing=");
        let t = decimal_text(self.summary.plist_missing as u64);
        out.append(t.as_str());
        out.append(", process_entries=");
        let t = decimal_text(self.summary.process_entries as u64);
        out.append(t.as_str());
        out.append(", process_present=");
        let t = decimal_text(self.summary.process_present as u64);
        out.append(t.as_str());
        out.append(", process_missing=");
        let t = decimal_text(self.summary.process_missing as u64);
        out.append(t.as_str());
        out
    }
}

} // verus!
