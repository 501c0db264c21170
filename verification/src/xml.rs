//! XML documents as a tree of elements, and the queries the protocol's
//! responses are read with.
use vstd::prelude::*;

use crate::text::{clone_opt, opt_view, str_eq};

verus! {

broadcast use vstd::string::group_string_axioms;

/// An XML element: its name, its attributes in the order of their names, its
/// child elements in document order, and its text (the concatenation of its
/// text and CDATA children, when it has any).
#[derive(Debug)]
pub struct XmlElement {
    pub name: String,
    pub attributes: Vec<(String, String)>,
    pub children: Vec<XmlElement>,
    pub text: Option<String>,
}

#[verifier::external_type_specification]
#[verifier::external_body]
pub struct ExXmltreeElement(xmltree::Element);

/// The root element of a document as `xmltree` parses it, or the text of
/// the parser's error.
pub uninterp spec fn xml_document(text: Seq<char>) -> Result<XmlElement, Seq<char>>;

/// The root element of a document, `None` when it is not well-formed XML.
pub open spec fn xml_root(text: Seq<char>) -> Option<XmlElement> {
    match xml_document(text) {
        Ok(e) => Some(e),
        Err(_) => None,
    }
}

/// A parse's result with its error by its view.
pub open spec fn xml_result_view(r: Result<XmlElement, String>) -> Result<XmlElement, Seq<char>> {
    match r {
        Ok(e) => Ok(e),
        Err(m) => Err(m@),
    }
}

/// The tree of an `xmltree` element, one for one: names, attributes (in
/// the order `xmltree` keeps them, sorted by name), child elements, and the
/// text that `Element::get_text` gives. Nothing is stated of it here: the
/// parse that calls it names the result.
#[verifier::external_body]
fn element_from_tree(e: &xmltree::Element) -> (r: XmlElement) {
    XmlElement {
        name: e.name.clone(),
        attributes: e.attributes.iter().map(|(k, v)| (k.clone(), v.clone())).collect(),
        children: e.children.iter().filter_map(|n| n.as_element()).map(element_from_tree).collect(),
        text: e.get_text().map(|t| t.into_owned()),
    }
}

/// `xmltree::Element::parse` of the text's bytes: the document's root
/// element, or the parser's error as its `Display` writes it. The contract
/// names the result.
#[verifier::external_body]
fn parse_document(text: &str) -> (r: Result<XmlElement, String>)
    ensures
        xml_result_view(r) == xml_document(text@),
{
    xmltree::Element::parse(text.as_bytes()).map(|e| element_from_tree(&e)).map_err(|e| e.to_string())
}

/// The root element of an XML document, or why the text is not
/// well-formed XML.
pub fn parse_xml_document(text: &str) -> (r: Result<XmlElement, String>)
    ensures
        xml_result_view(r) == xml_document(text@),
{
    parse_document(text)
}

/// The root element of an XML document; `None` when the text is not
/// well-formed XML.
pub fn parse_xml(text: &str) -> (r: Option<XmlElement>)
    ensures
        r == xml_root(text@),
{
    match parse_document(text) {
        Ok(e) => Some(e),
        Err(_) => None,
    }
}

/// The first child element named `name`.
pub open spec fn first_child_index(children: Seq<XmlElement>, name: Seq<char>, i: int) -> bool {
    0 <= i < children.len() && children[i].name@ == name && forall|j: int|
        0 <= j < i ==> (#[trigger] children[j]).name@ != name
}

pub open spec fn child_of(e: XmlElement, name: Seq<char>) -> Option<XmlElement> {
    if exists|i: int| first_child_index(e.children@, name, i) {
        Some(e.children@[choose|i: int| first_child_index(e.children@, name, i)])
    } else {
        None
    }
}

/// The first element named `name` among `elements` and their descendants,
/// in document order.
pub open spec fn find_in(elements: Seq<XmlElement>, name: Seq<char>) -> Option<XmlElement>
    decreases elements,
{
    if elements.len() == 0 {
        None
    } else {
        let first = elements[0];
        if first.name@ == name {
            Some(first)
        } else {
            match find_in(first.children@, name) {
                Some(d) => Some(d),
                None => find_in(elements.subrange(1, elements.len() as int), name),
            }
        }
    }
}

/// The first descendant element named `name`, in document order.
pub open spec fn descendant_of(e: XmlElement, name: Seq<char>) -> Option<XmlElement> {
    find_in(e.children@, name)
}

/// `i` is the first attribute named `name`.
pub open spec fn first_attr_index(attrs: Seq<(String, String)>, name: Seq<char>, i: int) -> bool {
    0 <= i < attrs.len() && attrs[i].0@ == name && forall|j: int|
        0 <= j < i ==> (#[trigger] attrs[j]).0@ != name
}

/// The value of the attribute `name`.
pub open spec fn attr_of(e: XmlElement, name: Seq<char>) -> Option<Seq<char>> {
    if exists|i: int| first_attr_index(e.attributes@, name, i) {
        Some(e.attributes@[choose|i: int| first_attr_index(e.attributes@, name, i)].1@)
    } else {
        None
    }
}

/// The text of the first child named `name`.
pub open spec fn child_text_of(e: XmlElement, name: Seq<char>) -> Option<Seq<char>> {
    match child_of(e, name) {
        Some(c) => opt_view(c.text),
        None => None,
    }
}

/// The text of the first descendant named `name`.
pub open spec fn descendant_text_of(e: XmlElement, name: Seq<char>) -> Option<Seq<char>> {
    match descendant_of(e, name) {
        Some(d) => opt_view(d.text),
        None => None,
    }
}

/// The first element named `name` among `elements` and their descendants.
fn find_in_elements<'a>(elements: &'a Vec<XmlElement>, name: &str) -> (r: Option<&'a XmlElement>)
    ensures
        match r {
            Some(d) => find_in(elements@, name@) == Some(*d),
            None => find_in(elements@, name@) is None,
        },
    decreases elements@,
{
    let mut i: usize = 0;
    assert(elements@.subrange(0, elements@.len() as int) =~= elements@);
    while i < elements.len()
        invariant
            i <= elements.len(),
            find_in(elements@, name@) == find_in(elements@.subrange(i as int, elements@.len() as int), name@),
        decreases elements.len() - i,
    {
        let ghost rest = elements@.subrange(i as int, elements@.len() as int);
        assert(rest[0] == elements@[i as int]);
        assert(rest.subrange(1, rest.len() as int) =~= elements@.subrange(i + 1, elements@.len() as int));
        let e = &elements[i];
        if str_eq(e.name.as_str(), name) {
            return Some(e);
        }
        assert(decreases_to!(elements@ => elements@[i as int]));
        let found = find_in_elements(&e.children, name);
        match found {
            Some(d) => {
                return Some(d);
            },
            None => {},
        }
        i += 1;
    }
    assert(elements@.subrange(i as int, elements@.len() as int).len() == 0);
    None
}

impl XmlElement {
    /// The first child element named `name`.
    pub fn child(&self, name: &str) -> (r: Option<&XmlElement>)
        ensures
            match r {
                Some(c) => child_of(*self, name@) == Some(*c),
                None => child_of(*self, name@) is None,
            },
    {
        let mut i: usize = 0;
        while i < self.children.len()
            invariant
                i <= self.children.len(),
                forall|j: int| 0 <= j < i ==> (#[trigger] self.children@[j]).name@ != name@,
            decreases self.children.len() - i,
        {
            if str_eq(self.children[i].name.as_str(), name) {
                assert(first_child_index(self.children@, name@, i as int));
                proof {
                    let k = choose|k: int| first_child_index(self.children@, name@, k);
                    if k < i {
                        assert(self.children@[k].name@ != name@);
                    } else if k > i {
                        assert(self.children@[i as int].name@ != name@);
                    }
                }
                return Some(&self.children[i]);
            }
            i += 1;
        }
        assert(!exists|k: int| first_child_index(self.children@, name@, k)) by {
            if exists|k: int| first_child_index(self.children@, name@, k) {
                let k = choose|k: int| first_child_index(self.children@, name@, k);
                assert(self.children@[k].name@ != name@);
            }
        }
        None
    }

    /// The child elements named `name`, in document order.
    pub fn children_named(&self, name: &str) -> (r: Vec<&XmlElement>)
        ensures
            r@.map_values(|c: &XmlElement| *c) == self.children@.filter(|c: XmlElement| c.name@ == name@),
    {
        let mut r: Vec<&XmlElement> = Vec::new();
        let mut i: usize = 0;
        while i < self.children.len()
            invariant
                i <= self.children.len(),
                r@.map_values(|c: &XmlElement| *c) == self.children@.take(i as int).filter(
                    |c: XmlElement| c.name@ == name@,
                ),
            decreases self.children.len() - i,
        {
            assert(self.children@.take(i + 1).drop_last() =~= self.children@.take(i as int));
            reveal(Seq::filter);
            let ghost before = r@;
            if str_eq(self.children[i].name.as_str(), name) {
                r.push(&self.children[i]);
                assert(r@.map_values(|c: &XmlElement| *c) =~= before.map_values(|c: &XmlElement| *c).push(self.children@[i as int]));
            }
            i += 1;
        }
        assert(self.children@.take(self.children.len() as int) =~= self.children@);
        r
    }

    /// The first descendant element named `name`, in document order.
    pub fn descendant(&self, name: &str) -> (r: Option<&XmlElement>)
        ensures
            match r {
                Some(d) => descendant_of(*self, name@) == Some(*d),
                None => descendant_of(*self, name@) is None,
            },
    {
        find_in_elements(&self.children, name)
    }

    /// The value of the attribute `name`.
    pub fn attr(&self, name: &str) -> (r: Option<&str>)
        ensures
            match r {
                Some(v) => attr_of(*self, name@) == Some(v@),
                None => attr_of(*self, name@) is None,
            },
    {
        let mut i: usize = 0;
        while i < self.attributes.len()
            invariant
                i <= self.attributes.len(),
                forall|j: int| 0 <= j < i ==> (#[trigger] self.attributes@[j]).0@ != name@,
            decreases self.attributes.len() - i,
        {
            if str_eq(self.attributes[i].0.as_str(), name) {
                assert(first_attr_index(self.attributes@, name@, i as int));
                proof {
                    let k = choose|k: int| first_attr_index(self.attributes@, name@, k);
                    if k < i {
                        assert(self.attributes@[k].0@ != name@);
                    } else if k > i {
                        assert(self.attributes@[i as int].0@ != name@);
                    }
                }
                return Some(self.attributes[i].1.as_str());
            }
            i += 1;
        }
        assert(!exists|k: int| first_attr_index(self.attributes@, name@, k)) by {
            if exists|k: int| first_attr_index(self.attributes@, name@, k) {
                let k = choose|k: int| first_attr_index(self.attributes@, name@, k);
                assert(self.attributes@[k].0@ != name@);
            }
        }
        None
    }

    /// The text of the first descendant named `name`.
    pub fn descendant_text(&self, name: &str) -> (r: Option<String>)
        ensures
            opt_view(r) == descendant_text_of(*self, name@),
    {
        match self.descendant(name) {
            Some(d) => clone_opt(&d.text),
            None => None,
        }
    }

    /// The text of the first child named `name`.
    pub fn child_text(&self, name: &str) -> (r: Option<String>)
        ensures
            opt_view(r) == child_text_of(*self, name@),
    {
        match self.child(name) {
            Some(c) => clone_opt(&c.text),
            None => None,
        }
    }
}

/// An element by its view: name, attributes, child elements and text.
#[verifier::ext_equal]
pub struct XmlView {
    pub name: Seq<char>,
    pub attributes: Seq<(Seq<char>, Seq<char>)>,
    pub children: Seq<XmlView>,
    pub text: Option<Seq<char>>,
}

pub open spec fn xml_view(e: XmlElement) -> XmlView
    decreases e,
{
    XmlView {
        name: e.name@,
        attributes: e.attributes.deep_view(),
        children: children_view(e.children@),
        text: opt_view(e.text),
    }
}

pub open spec fn children_view(cs: Seq<XmlElement>) -> Seq<XmlView>
    decreases cs,
{
    if cs.len() == 0 {
        Seq::empty()
    } else {
        children_view(cs.drop_last()).push(xml_view(cs.last()))
    }
}

/// The text that `xmltree` writes for an element, indented and after an
/// XML declaration; `None` where writing fails.
pub uninterp spec fn xml_written(e: XmlView) -> Option<Seq<char>>;

/// The `xmltree` element of a tree, one for one: its name, its attributes,
/// its text as a text node before its child elements. Nothing is stated of
/// it here: the writer that calls it names the result.
#[verifier::external_body]
fn element_to_tree(e: &XmlElement) -> xmltree::Element {
    let mut t = xmltree::Element::new(e.name.as_str());
    t.attributes = e.attributes.iter().map(|(k, v)| (k.clone(), v.clone())).collect();
    t.children = e.text.iter().map(|text| xmltree::XMLNode::Text(text.clone())).collect();
    t.children.extend(e.children.iter().map(|c| xmltree::XMLNode::Element(element_to_tree(c))));
    t
}

/// Writes an element with `xmltree`'s `Element::write_with_config`,
/// indented and after an XML declaration, as UTF-8 text. The contract names
/// the result.
#[verifier::external_body]
fn write_document(e: &XmlElement) -> (r: Option<String>)
    ensures
        opt_view(r) == xml_written(xml_view(*e)),
{
    let config = xmltree::EmitterConfig::new().perform_indent(true).write_document_declaration(true);
    let mut bytes: Vec<u8> = Vec::new();
    element_to_tree(e).write_with_config(&mut bytes, config).ok()?;
    String::from_utf8(bytes).ok()
}

/// An element as an indented XML document with its declaration; `None`
/// when it cannot be written.
pub fn write_xml(e: &XmlElement) -> (r: Option<String>)
    ensures
        opt_view(r) == xml_written(xml_view(*e)),
{
    write_document(e)
}

} // verus!
