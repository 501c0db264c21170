//! Gateway login: the parameters sent, and what the gateway's answer means
//! (a session cookie, or a multi-factor challenge).
use vstd::prelude::*;

use super::{GatewayLoginContext, GatewayLoginContextView};
use crate::auth::url_decode;
use crate::credential::Credential;
use crate::gp_params::{GpParams, GpParamsView};
use crate::os_profile::client_os_name;
use crate::params::credential::{credential_params, or_empty};
use crate::params::gateway_login::{kind_param, opt_context_view, selection_param};
use crate::params::ParamMap;
use crate::text::{contains, contains_str, is_blank, is_blank_str, opt_str_view, opt_view, str_eq, string_of, to_chars};
use crate::xml::{parse_xml_document, xml_document, XmlElement};

verus! {

broadcast use vstd::string::group_string_axioms;

/// What a gateway login gives: the session cookie, or a challenge's
/// message and its `inputStr`.
#[derive(Debug)]
pub enum GatewayLogin {
    Cookie(String),
    Mfa(String, String),
}

// ─── Lines and quoted fields ───────────────────────────────────────────────

/// `i` is the first position of `c` in `s`.
pub open spec fn first_index_of(s: Seq<char>, c: char, i: int) -> bool {
    0 <= i < s.len() && s[i] == c && forall|j: int| 0 <= j < i ==> s[j] != c
}

/// The line without the `\r` that ends it, if any.
pub open spec fn strip_cr(l: Seq<char>) -> Seq<char> {
    if l.len() > 0 && l.last() == '\r' {
        l.drop_last()
    } else {
        l
    }
}

/// The lines of a text, as `str::lines` gives them: split at each `\n`, a
/// `\r` before it dropped, no empty line after a final `\n`, and a last
/// line without `\n` kept whole.
pub open spec fn split_lines(s: Seq<char>) -> Seq<Seq<char>>
    decreases s.len(),
{
    if s.len() == 0 {
        Seq::empty()
    } else if exists|i: int| first_index_of(s, '\n', i) {
        let i = choose|i: int| first_index_of(s, '\n', i);
        seq![strip_cr(s.take(i))] + split_lines(s.subrange(i + 1, s.len() as int))
    } else {
        seq![s]
    }
}

/// The first line that contains `needle`.
pub open spec fn first_line_with(lines: Seq<Seq<char>>, needle: Seq<char>) -> Option<Seq<char>> {
    if exists|i: int| 0 <= i < lines.len() && contains(lines[i], needle) && forall|j: int| 0 <= j < i ==> !contains(#[trigger] lines[j], needle) {
        Some(lines[choose|i: int| 0 <= i < lines.len() && contains(lines[i], needle) && forall|j: int| 0 <= j < i ==> !contains(#[trigger] lines[j], needle)])
    } else {
        None
    }
}

/// The second field of the line split at `"`: the text after the first
/// quote, up to the next quote or the end of the line.
pub open spec fn quoted_field(l: Seq<char>) -> Option<Seq<char>> {
    if exists|i: int| first_index_of(l, '"', i) {
        let i = choose|i: int| first_index_of(l, '"', i);
        let rest = l.subrange(i + 1, l.len() as int);
        if exists|j: int| first_index_of(rest, '"', j) {
            Some(rest.take(choose|j: int| first_index_of(rest, '"', j)))
        } else {
            Some(rest)
        }
    } else {
        None
    }
}

/// The challenge's message and `inputStr`: the quoted values on the first
/// lines that mention `respMsg` and `inputStr`.
pub open spec fn mfa_of(res: Seq<char>) -> Option<(Seq<char>, Seq<char>)> {
    let lines = split_lines(res);
    match (first_line_with(lines, "respMsg"@), first_line_with(lines, "inputStr"@)) {
        (Some(m), Some(i)) => match (quoted_field(m), quoted_field(i)) {
            (Some(message), Some(input_str)) => Some((message, input_str)),
            _ => None,
        },
        _ => None,
    }
}

/// The position of the first `c` in `v[from..]`, or `v.len()`.
fn index_from(v: &Vec<char>, c: char, from: usize) -> (r: usize)
    requires
        from <= v.len(),
    ensures
        from <= r <= v.len(),
        forall|k: int| from <= k < r ==> v@[k] != c,
        r < v.len() ==> v@[r as int] == c,
{
    let mut i = from;
    while i < v.len() && v[i] != c
        invariant
            from <= i <= v.len(),
            forall|k: int| from <= k < i ==> v@[k] != c,
        decreases v.len() - i,
    {
        i += 1;
    }
    i
}

fn strip_cr_range(v: &Vec<char>, from: usize, to: usize) -> (r: String)
    requires
        from <= to <= v.len(),
    ensures
        r@ == strip_cr(v@.subrange(from as int, to as int)),
{
    if to > from && v[to - 1] == '\r' {
        assert(v@.subrange(from as int, to as int).drop_last() =~= v@.subrange(from as int, to - 1));
        string_of(v, from, to - 1)
    } else {
        string_of(v, from, to)
    }
}

/// The lines of a text (`str::lines`).
pub fn lines(s: &str) -> (r: Vec<String>)
    ensures
        r.deep_view() == split_lines(s@),
{
    let v = to_chars(s);
    let mut out: Vec<String> = Vec::new();
    let mut start: usize = 0;
    assert(v@.subrange(0, v@.len() as int) =~= v@);
    while start < v.len()
        invariant
            start <= v.len(),
            v@ == s@,
            out.deep_view() + split_lines(v@.subrange(start as int, v@.len() as int)) == split_lines(s@),
        decreases v.len() - start,
    {
        let ghost rest = v@.subrange(start as int, v@.len() as int);
        let end = index_from(&v, '\n', start);
        let ghost before = out.deep_view();
        if end < v.len() {
            let line = strip_cr_range(&v, start, end);
            assert(first_index_of(rest, '\n', end - start));
            proof {
                let k = choose|k: int| first_index_of(rest, '\n', k);
                if k < end - start {
                    assert(rest[k] == v@[start + k]);
                } else if k > end - start {
                    assert(rest[end - start] == '\n');
                }
                assert(k == end - start);
                assert(rest.take(k) =~= v@.subrange(start as int, end as int));
                assert(rest.subrange(k + 1, rest.len() as int) =~= v@.subrange(end + 1, v@.len() as int));
            }
            out.push(line);
            assert(out.deep_view() =~= before.push(strip_cr(v@.subrange(start as int, end as int))));
            start = end + 1;
        } else {
            assert(!exists|k: int| first_index_of(rest, '\n', k)) by {
                if exists|k: int| first_index_of(rest, '\n', k) {
                    let k = choose|k: int| first_index_of(rest, '\n', k);
                    assert(rest[k] == v@[start + k]);
                }
            }
            assert(rest =~= v@.subrange(start as int, end as int));
            let whole = string_of(&v, start, end);
            out.push(whole);
            assert(out.deep_view() =~= before.push(rest));
            assert(v@.subrange(v@.len() as int, v@.len() as int) =~= Seq::<char>::empty());
            start = v.len();
        }
        assert(split_lines(v@.subrange(start as int, v@.len() as int)).len() >= 0);
    }
    assert(v@.subrange(start as int, v@.len() as int) =~= Seq::<char>::empty());
    assert(out.deep_view() + Seq::<Seq<char>>::empty() =~= out.deep_view());
    out
}

/// The second field of a line split at `"`.
pub fn split_quote_second(l: &str) -> (r: Option<String>)
    ensures
        opt_view(r) == quoted_field(l@),
{
    let v = to_chars(l);
    let q1 = index_from(&v, '"', 0);
    if q1 == v.len() {
        assert(!exists|k: int| first_index_of(l@, '"', k)) by {
            if exists|k: int| first_index_of(l@, '"', k) {
                let k = choose|k: int| first_index_of(l@, '"', k);
                assert(v@[k] != '"');
            }
        }
        return None;
    }
    assert(first_index_of(l@, '"', q1 as int));
    proof {
        let k = choose|k: int| first_index_of(l@, '"', k);
        if k < q1 {
            assert(v@[k] != '"');
        } else if k > q1 {
            assert(l@[q1 as int] == '"');
        }
        assert(k == q1);
    }
    let ghost rest = l@.subrange(q1 + 1, l@.len() as int);
    let q2 = index_from(&v, '"', q1 + 1);
    if q2 == v.len() {
        assert(!exists|k: int| first_index_of(rest, '"', k)) by {
            if exists|k: int| first_index_of(rest, '"', k) {
                let k = choose|k: int| first_index_of(rest, '"', k);
                assert(rest[k] == v@[q1 + 1 + k]);
            }
        }
        Some(string_of(&v, q1 + 1, v.len()))
    } else {
        assert(first_index_of(rest, '"', q2 - q1 - 1));
        proof {
            let k = choose|k: int| first_index_of(rest, '"', k);
            if k < q2 - q1 - 1 {
                assert(rest[k] == v@[q1 + 1 + k]);
            } else if k > q2 - q1 - 1 {
                assert(rest[q2 - q1 - 1] == '"');
            }
            assert(k == q2 - q1 - 1);
            assert(rest.take(k) =~= v@.subrange(q1 + 1, q2 as int));
        }
        Some(string_of(&v, q1 + 1, q2))
    }
}

/// The first line that contains `needle`.
fn find_line<'a>(lines: &'a Vec<String>, needle: &str) -> (r: Option<&'a String>)
    ensures
        match r {
            Some(l) => first_line_with(lines.deep_view(), needle@) == Some(l@),
            None => first_line_with(lines.deep_view(), needle@) is None,
        },
{
    let ghost ls = lines.deep_view();
    let mut i: usize = 0;
    while i < lines.len()
        invariant
            i <= lines.len(),
            ls == lines.deep_view(),
            forall|j: int| 0 <= j < i ==> !contains(#[trigger] ls[j], needle@),
        decreases lines.len() - i,
    {
        if contains_str(lines[i].as_str(), needle) {
            proof {
                let p = |k: int| 0 <= k < ls.len() && contains(ls[k], needle@) && forall|j: int| 0 <= j < k ==> !contains(#[trigger] ls[j], needle@);
                assert(p(i as int));
                let k = choose|k: int| 0 <= k < ls.len() && contains(ls[k], needle@) && forall|j: int| 0 <= j < k ==> !contains(#[trigger] ls[j], needle@);
                if k < i {
                    assert(!contains(ls[k], needle@));
                } else if k > i {
                    assert(!contains(ls[i as int], needle@));
                }
                assert(k == i);
            }
            return Some(&lines[i]);
        }
        i += 1;
    }
    None
}

/// The message and `inputStr` of a multi-factor challenge page.
pub fn parse_mfa(res: &str) -> (r: Option<(String, String)>)
    ensures
        match r {
            Some((m, i)) => mfa_of(res@) == Some((m@, i@)),
            None => mfa_of(res@) is None,
        },
{
    let ls = lines(res);
    let message = match find_line(&ls, "respMsg") {
        Some(l) => split_quote_second(l.as_str()),
        None => None,
    };
    let message = match message {
        Some(m) => m,
        None => return None,
    };
    let input_str = match find_line(&ls, "inputStr") {
        Some(l) => split_quote_second(l.as_str()),
        None => None,
    };
    match input_str {
        Some(i) => Some((message, i)),
        None => None,
    }
}

// ─── The gateway's answer ──────────────────────────────────────────────────

/// A byte that percent-encoding keeps: an ASCII letter or digit, `-`, `_`,
/// `.` or `~`.
pub open spec fn is_unreserved_byte(b: u8) -> bool {
    ||| 48 <= b <= 57
    ||| 65 <= b <= 90
    ||| 97 <= b <= 122
    ||| b == 45u8
    ||| b == 95u8
    ||| b == 46u8
    ||| b == 126u8
}

/// An upper-case hex digit.
pub open spec fn upper_hex_digit(d: nat) -> char {
    if d < 10 {
        (48 + d) as char
    } else {
        (55 + d) as char
    }
}

/// Percent-encoding of bytes: a kept byte as its character, any other as
/// `%` and its two upper-case hex digits.
pub open spec fn percent_encoded_bytes(b: Seq<u8>) -> Seq<char>
    decreases b.len(),
{
    if b.len() == 0 {
        Seq::empty()
    } else {
        (if is_unreserved_byte(b[0]) {
            seq![b[0] as char]
        } else {
            seq!['%', upper_hex_digit((b[0] / 16) as nat), upper_hex_digit((b[0] % 16) as nat)]
        }) + percent_encoded_bytes(b.drop_first())
    }
}

/// Percent-encoding of a string's UTF-8 bytes, as `urlencoding::encode`
/// does it.
#[verifier::opaque]
pub open spec fn url_encode(s: Seq<char>) -> Seq<char> {
    percent_encoded_bytes(vstd::utf8::encode_utf8(s))
}

/// `urlencoding::encode`: every byte of the UTF-8 text except ASCII letters,
/// digits and `-_.~` becomes `%XX`, as `url_encode` states it.
#[verifier::external_body]
pub(crate) fn percent_encode(s: &str) -> (r: String)
    ensures
        r@ == url_encode(s@),
{
    urlencoding::encode(s).into_owned()
}

/// All elements named `name` among `elements` and their descendants, in
/// document order.
pub open spec fn all_named(elements: Seq<XmlElement>, name: Seq<char>) -> Seq<XmlElement>
    decreases elements,
{
    if elements.len() == 0 {
        Seq::empty()
    } else {
        let first = elements[0];
        (if first.name@ == name {
            seq![first]
        } else {
            Seq::empty()
        }) + all_named(first.children@, name) + all_named(elements.subrange(1, elements.len() as int), name)
    }
}

fn collect_named(elements: &Vec<XmlElement>, name: &str, texts: &mut Vec<String>)
    ensures
        final(texts).deep_view() == old(texts).deep_view() + all_named(elements@, name@).map_values(
            |e: XmlElement| or_empty(opt_view(e.text)),
        ),
    decreases elements@,
{
    let mut i: usize = 0;
    assert(elements@.subrange(0, elements@.len() as int) =~= elements@);
    while i < elements.len()
        invariant
            i <= elements.len(),
            texts.deep_view() + all_named(elements@.subrange(i as int, elements@.len() as int), name@).map_values(
                |e: XmlElement| or_empty(opt_view(e.text)),
            ) == old(texts).deep_view() + all_named(elements@, name@).map_values(
                |e: XmlElement| or_empty(opt_view(e.text)),
            ),
        decreases elements.len() - i,
    {
        let ghost rest = elements@.subrange(i as int, elements@.len() as int);
        assert(rest[0] == elements@[i as int]);
        assert(rest.subrange(1, rest.len() as int) =~= elements@.subrange(i + 1, elements@.len() as int));
        let e = &elements[i];
        let ghost t0 = texts.deep_view();
        let ghost f = |e: XmlElement| or_empty(opt_view(e.text));
        let ghost head: Seq<XmlElement> = if e.name@ == name@ { seq![*e] } else { Seq::empty() };
        if str_eq(e.name.as_str(), name) {
            let t = match &e.text {
                Some(t) => t.clone(),
                None => String::new(),
            };
            texts.push(t);
            assert(texts.deep_view() =~= t0 + head.map_values(f));
        } else {
            assert(texts.deep_view() =~= t0 + head.map_values(f));
        }
        let ghost t1 = texts.deep_view();
        assert(decreases_to!(elements@ => elements@[i as int]));
        collect_named(&e.children, name, texts);
        let ghost t2 = texts.deep_view();
        assert(all_named(rest, name@) == head + all_named(e.children@, name@) + all_named(
            elements@.subrange(i + 1, elements@.len() as int),
            name@,
        ));
        assert((head + all_named(e.children@, name@) + all_named(
            elements@.subrange(i + 1, elements@.len() as int),
            name@,
        )).map_values(f) =~= head.map_values(f) + all_named(e.children@, name@).map_values(f) + all_named(
            elements@.subrange(i + 1, elements@.len() as int),
            name@,
        ).map_values(f));
        assert(t2 + all_named(elements@.subrange(i + 1, elements@.len() as int), name@).map_values(f)
            =~= t0 + all_named(rest, name@).map_values(f));
        i += 1;
    }
    assert(elements@.subrange(i as int, elements@.len() as int) =~= Seq::<XmlElement>::empty());
    assert(texts.deep_view() + Seq::<Seq<char>>::empty() =~= texts.deep_view());
}

/// The texts of all `argument` elements of a login answer, in order (an
/// element without text gives the empty text).
pub open spec fn argument_texts(root: XmlElement) -> Seq<Seq<char>> {
    all_named(root.children@, "argument"@).map_values(|e: XmlElement| or_empty(opt_view(e.text)))
}

/// An argument's value: none when it is empty, `(null)` or `-1`; else its
/// percent-decoding, refused when that is not UTF-8.
pub open spec fn normalized_arg(v: Seq<char>) -> Result<Option<Seq<char>>, ()> {
    if v.len() == 0 || v == "(null)"@ || v == "-1"@ {
        Ok(None)
    } else {
        match url_decode(v) {
            Some(d) => Ok(Some(d)),
            None => Err(()),
        }
    }
}

pub fn normalize_arg_value(value: &str) -> (r: Result<Option<String>, String>)
    ensures
        match r {
            Ok(v) => normalized_arg(value@) == Ok::<Option<Seq<char>>, ()>(opt_view(v)),
            Err(_) => normalized_arg(value@) is Err,
        },
{
    if value.is_empty() || str_eq(value, "(null)") || str_eq(value, "-1") {
        return Ok(None);
    }
    match crate::auth::percent_decode(value) {
        Some(d) => Ok(Some(d)),
        None => Err("Failed to decode gateway login argument".to_string()),
    }
}

/// The value of argument `index`: none when there is no such argument.
pub open spec fn arg_value(args: Seq<Seq<char>>, index: int) -> Result<Option<Seq<char>>, ()> {
    if 0 <= index < args.len() {
        normalized_arg(args[index])
    } else {
        Ok(None)
    }
}

pub fn read_arg_value(args: &Vec<String>, index: usize) -> (r: Result<Option<String>, String>)
    ensures
        match r {
            Ok(v) => arg_value(args.deep_view(), index as int) == Ok::<Option<Seq<char>>, ()>(opt_view(v)),
            Err(_) => arg_value(args.deep_view(), index as int) is Err,
        },
{
    if index < args.len() {
        normalize_arg_value(args[index].as_str())
    } else {
        Ok(None)
    }
}

/// The arguments that make the gateway token: position, name, required.
pub open spec fn token_fields() -> Seq<(int, Seq<char>, bool)> {
    seq![
        (1, "authcookie"@, true),
        (2, "persistent-cookie"@, false),
        (3, "portal"@, false),
        (4, "user"@, true),
        (7, "domain"@, false),
        (15, "preferred-ip"@, false),
        (18, "preferred-ipv6"@, false),
    ]
}

/// The token's `key=value` pairs read so far, or `None` when an argument
/// could not be read (undecodable, or a required one missing).
pub open spec fn token_pairs(args: Seq<Seq<char>>, fields: Seq<(int, Seq<char>, bool)>) -> Option<Seq<(Seq<char>, Seq<char>)>>
    decreases fields.len(),
{
    if fields.len() == 0 {
        Some(Seq::empty())
    } else {
        match token_pairs(args, fields.drop_last()) {
            Some(ps) => {
                let (index, key, required) = fields.last();
                match arg_value(args, index) {
                    Ok(Some(v)) => Some(ps.push((key, v))),
                    Ok(None) => if required {
                        None
                    } else {
                        Some(ps)
                    },
                    Err(_) => None,
                }
            },
            None => None,
        }
    }
}

/// `k=v` pairs joined by `&`, the values percent-encoded.
pub open spec fn join_query(pairs: Seq<(Seq<char>, Seq<char>)>) -> Seq<char>
    decreases pairs.len(),
{
    if pairs.len() == 0 {
        Seq::empty()
    } else if pairs.len() == 1 {
        pairs[0].0 + "="@ + url_encode(pairs[0].1)
    } else {
        join_query(pairs.drop_last()) + "&"@ + pairs.last().0 + "="@ + url_encode(pairs.last().1)
    }
}

/// The gateway token of a login answer: the cookie fields of its
/// arguments, then the computer name, as a query string.
pub open spec fn gateway_token_of(root: XmlElement, computer: Seq<char>) -> Option<Seq<char>> {
    match token_pairs(argument_texts(root), token_fields()) {
        Some(ps) => Some(join_query(ps.push(("computer"@, computer)))),
        None => None,
    }
}

fn token_field(index: usize, key: &str, required: bool, args: &Vec<String>, pairs: &mut Vec<(String, String)>) -> (ok: bool)
    ensures
        ok <==> match arg_value(args.deep_view(), index as int) {
            Ok(Some(_)) => true,
            Ok(None) => !required,
            Err(_) => false,
        },
        ok ==> final(pairs).deep_view() == match arg_value(args.deep_view(), index as int) {
            Ok(Some(v)) => old(pairs).deep_view().push((key@, v)),
            _ => old(pairs).deep_view(),
        },
{
    match read_arg_value(args, index) {
        Ok(Some(v)) => {
            let ghost before = pairs.deep_view();
            pairs.push((key.to_string(), v));
            assert(pairs.deep_view() =~= before.push((key@, v@)));
            true
        },
        Ok(None) => !required,
        Err(_) => false,
    }
}

fn join_query_text(pairs: &Vec<(String, String)>) -> (r: String)
    ensures
        r@ == join_query(pairs.deep_view()),
{
    let mut out = String::new();
    let mut i: usize = 0;
    while i < pairs.len()
        invariant
            i <= pairs.len(),
            out@ == join_query(pairs.deep_view().take(i as int)),
        decreases pairs.len() - i,
    {
        let ghost before = out@;
        if i > 0 {
            out.append("&");
        }
        out.append(pairs[i].0.as_str());
        out.append("=");
        let enc = percent_encode(pairs[i].1.as_str());
        out.append(enc.as_str());
        proof {
            reveal_strlit("&");
            reveal_strlit("=");
            let t = pairs.deep_view().take(i + 1);
            assert(t.drop_last() =~= pairs.deep_view().take(i as int));
            if i == 0 {
                assert(before =~= Seq::<char>::empty());
            }
        }
        assert(out@ =~= join_query(pairs.deep_view().take(i + 1)));
        i += 1;
    }
    assert(pairs.deep_view().take(pairs.len() as int) =~= pairs.deep_view());
    out
}

/// The gateway token of a login answer; an error names the argument that
/// could not be read.
pub fn build_gateway_token(root: &XmlElement, computer: &str) -> (r: Result<String, String>)
    ensures
        match r {
            Ok(t) => gateway_token_of(*root, computer@) == Some(t@),
            Err(_) => gateway_token_of(*root, computer@) is None,
        },
{
    let mut args: Vec<String> = Vec::new();
    collect_named(&root.children, "argument", &mut args);
    assert(args.deep_view() =~= argument_texts(*root));
    let ghost a = args.deep_view();
    let ghost fields = token_fields();
    let mut pairs: Vec<(String, String)> = Vec::new();
    proof {
        reveal_strlit("authcookie");
        assert(fields.take(0) =~= Seq::<(int, Seq<char>, bool)>::empty());
    }
    assert(token_pairs(a, fields.take(0)) == Some(pairs.deep_view()));
    if !token_field(1, "authcookie", true, &args, &mut pairs) {
        assert(fields.take(1).drop_last() =~= fields.take(0));
        assert(token_pairs(a, fields.take(1)) is None);
        proof { lemma_token_pairs_refused(a, fields, 1); }
        return Err("Failed to read authcookie from args".to_string());
    }
    assert(fields.take(1).drop_last() =~= fields.take(0));
    if !token_field(2, "persistent-cookie", false, &args, &mut pairs) {
        assert(fields.take(2).drop_last() =~= fields.take(1));
        proof { lemma_token_pairs_refused(a, fields, 2); }
        return Err("Failed to decode gateway login argument 2".to_string());
    }
    assert(fields.take(2).drop_last() =~= fields.take(1));
    if !token_field(3, "portal", false, &args, &mut pairs) {
        assert(fields.take(3).drop_last() =~= fields.take(2));
        proof { lemma_token_pairs_refused(a, fields, 3); }
        return Err("Failed to decode gateway login argument 3".to_string());
    }
    assert(fields.take(3).drop_last() =~= fields.take(2));
    if !token_field(4, "user", true, &args, &mut pairs) {
        assert(fields.take(4).drop_last() =~= fields.take(3));
        proof { lemma_token_pairs_refused(a, fields, 4); }
        return Err("Failed to read user from args".to_string());
    }
    assert(fields.take(4).drop_last() =~= fields.take(3));
    if !token_field(7, "domain", false, &args, &mut pairs) {
        assert(fields.take(5).drop_last() =~= fields.take(4));
        proof { lemma_token_pairs_refused(a, fields, 5); }
        return Err("Failed to decode gateway login argument 7".to_string());
    }
    assert(fields.take(5).drop_last() =~= fields.take(4));
    if !token_field(15, "preferred-ip", false, &args, &mut pairs) {
        assert(fields.take(6).drop_last() =~= fields.take(5));
        proof { lemma_token_pairs_refused(a, fields, 6); }
        return Err("Failed to decode gateway login argument 15".to_string());
    }
    assert(fields.take(6).drop_last() =~= fields.take(5));
    if !token_field(18, "preferred-ipv6", false, &args, &mut pairs) {
        assert(fields.take(7).drop_last() =~= fields.take(6));
        proof { lemma_token_pairs_refused(a, fields, 7); }
        return Err("Failed to decode gateway login argument 18".to_string());
    }
    assert(fields.take(7).drop_last() =~= fields.take(6));
    assert(fields.take(7) =~= fields);
    let ghost before = pairs.deep_view();
    pairs.push(("computer".to_string(), computer.to_string()));
    assert(pairs.deep_view() =~= before.push(("computer"@, computer@)));
    Ok(join_query_text(&pairs))
}

/// Once a prefix of the fields is refused, so are all of them.
proof fn lemma_token_pairs_refused(args: Seq<Seq<char>>, fields: Seq<(int, Seq<char>, bool)>, n: int)
    requires
        0 <= n <= fields.len(),
        token_pairs(args, fields.take(n)) is None,
    ensures
        token_pairs(args, fields) is None,
    decreases fields.len() - n,
{
    if n == fields.len() {
        assert(fields.take(n) =~= fields);
    } else {
        assert(fields.take(n + 1).drop_last() =~= fields.take(n));
        lemma_token_pairs_refused(args, fields, n + 1);
    }
}

/// What the gateway's answer to a login means.
pub open spec fn login_outcome(res: Seq<char>, computer: Seq<char>) -> Result<(bool, Seq<char>, Seq<char>), ()> {
    if is_blank(res) {
        Err(())
    } else if contains(res, "Challenge"@) {
        match mfa_of(res) {
            Some((m, i)) => Ok((false, m, i)),
            None => Err(()),
        }
    } else {
        match xml_document(res) {
            Ok(root) => match gateway_token_of(root, computer) {
                Some(t) => Ok((true, t, Seq::empty())),
                None => Err(()),
            },
            Err(_) => Err(()),
        }
    }
}

/// The error text of a refused answer, where it does not come from reading
/// the session token's arguments: an empty answer, a challenge that cannot
/// be read (with the answer), or the XML parser's error.
pub open spec fn login_error(res: Seq<char>) -> Option<Seq<char>> {
    if is_blank(res) {
        Some("Got empty gateway login response"@)
    } else if contains(res, "Challenge"@) {
        match mfa_of(res) {
            Some(_) => None,
            None => Some("Failed to parse MFA challenge: "@ + res),
        }
    } else {
        match xml_document(res) {
            Ok(_) => None,
            Err(e) => Some(e),
        }
    }
}

/// The meaning of a gateway's answer to a login: a challenge when it
/// mentions one, else the session cookie built from its arguments and the
/// computer name.
pub fn parse_gateway_login_response(res: &str, computer: &str) -> (r: Result<GatewayLogin, String>)
    ensures
        match r {
            Ok(GatewayLogin::Cookie(t)) => login_outcome(res@, computer@) == Ok::<(bool, Seq<char>, Seq<char>), ()>((true, t@, Seq::empty())),
            Ok(GatewayLogin::Mfa(m, i)) => login_outcome(res@, computer@) == Ok::<(bool, Seq<char>, Seq<char>), ()>((false, m@, i@)),
            Err(e) => login_outcome(res@, computer@) is Err && (login_error(res@) matches Some(m) ==> e@ == m),
        },
{
    if is_blank_str(res) {
        return Err("Got empty gateway login response".to_string());
    }
    if contains_str(res, "Challenge") {
        return match parse_mfa(res) {
            Some((m, i)) => Ok(GatewayLogin::Mfa(m, i)),
            None => {
                let mut msg = "Failed to parse MFA challenge: ".to_string();
                msg.append(res);
                Err(msg)
            },
        };
    }
    match parse_xml_document(res) {
        Ok(root) => match build_gateway_token(&root, computer) {
            Ok(t) => Ok(GatewayLogin::Cookie(t)),
            Err(e) => Err(e),
        },
        Err(e) => Err(e),
    }
}

// ─── The login's parameters, one value per key ─────────────────────────────

/// The map of a credential's login fields.
pub open spec fn credential_map(c: Credential, gp: GpParamsView) -> Map<Seq<char>, Seq<char>> {
    let p = credential_params(c, gp.os_profile.client_os);
    Map::empty().insert(p[0].0, p[0].1).insert(p[1].0, p[1].1).insert(p[2].0, p[2].1).insert(p[3].0, p[3].1).insert(
        p[4].0,
        p[4].1,
    ).insert(p[5].0, p[5].1)
}

/// The client's login fields added to a map; a one-time password replaces
/// the password.
pub open spec fn client_login_map(m: Map<Seq<char>, Seq<char>>, gp: GpParamsView) -> Map<Seq<char>, Seq<char>> {
    let p = gp.os_profile;
    let a = m.insert("prot"@, "https:"@).insert("jnlpReady"@, "jnlpReady"@).insert("ok"@, "Login"@).insert(
        "direct"@,
        "yes"@,
    ).insert("ipv6-support"@, "yes"@).insert("inputStr"@, or_empty(gp.input_str)).insert("clientVer"@, "4100"@).insert(
        "clientos"@,
        client_os_name(p.client_os),
    ).insert("computer"@, p.identity.computer);
    let b = match gp.otp {
        Some(o) => a.insert("passwd"@, o),
        None => a,
    };
    b.insert("os-version"@, p.os_version).insert("clientgpversion"@, p.client_version)
}

/// The fields that name the gateway: `gw` and `gateway-name` carry the
/// gateway's name; the context's client version wins over the client's.
pub open spec fn context_login_map(
    m: Map<Seq<char>, Seq<char>>,
    gp: GpParamsView,
    x: GatewayLoginContextView,
    client_ip: Option<Seq<char>>,
) -> Map<Seq<char>, Seq<char>> {
    let a = m.insert("host"@, x.host).insert("gw"@, x.name).insert("gateway-name"@, x.name).insert(
        "internal"@,
        kind_param(x.kind),
    ).insert("selection-type"@, selection_param(x.selection)).insert("client-ipv6"@, Seq::empty());
    let b = match x.connect_method {
        Some(c) => a.insert("connect-method"@, c),
        None => a,
    };
    let c = b.insert(
        "clientgpversion"@,
        match x.client_version {
            Some(v) => v,
            None => gp.os_profile.client_version,
        },
    );
    match client_ip {
        Some(ip) => c.insert("client-ip"@, ip),
        None => c,
    }
}

/// The login's fields, one value per key.
pub open spec fn login_param_map(
    gateway: Seq<char>,
    c: Credential,
    gp: GpParamsView,
    context: Option<GatewayLoginContextView>,
    client_ip: Option<Seq<char>>,
    extend_lifetime: bool,
) -> Map<Seq<char>, Seq<char>> {
    let a = client_login_map(credential_map(c, gp), gp).insert("server"@, gateway);
    let b = match context {
        Some(x) => context_login_map(a, gp, x, client_ip),
        None => a,
    };
    if extend_lifetime {
        b.insert("extend-lifetime"@, "true"@)
    } else {
        b
    }
}

/// The fields of a gateway login as a map with one value per key: the
/// credential's, the client's, the gateway, and, with a context, the fields
/// that name the gateway by its name and how it was chosen.
pub fn build_gateway_login_params(
    gateway: &str,
    cred: &Credential,
    gp_params: &GpParams,
    context: Option<&GatewayLoginContext>,
    client_ip: Option<&str>,
    extend_lifetime: bool,
) -> (r: ParamMap)
    ensures
        r@ == login_param_map(gateway@, *cred, gp_params@, opt_context_view(context), opt_str_view(client_ip), extend_lifetime),
{
    let mut params = ParamMap::new();
    let cred_fields = crate::params::credential::build(cred, gp_params);
    assert(cred_fields.deep_view().len() == 6);
    params.insert(cred_fields[0].0.as_str(), cred_fields[0].1.as_str());
    params.insert(cred_fields[1].0.as_str(), cred_fields[1].1.as_str());
    params.insert(cred_fields[2].0.as_str(), cred_fields[2].1.as_str());
    params.insert(cred_fields[3].0.as_str(), cred_fields[3].1.as_str());
    params.insert(cred_fields[4].0.as_str(), cred_fields[4].1.as_str());
    params.insert(cred_fields[5].0.as_str(), cred_fields[5].1.as_str());
    let profile = gp_params.os_profile();
    params.insert("prot", "https:");
    params.insert("jnlpReady", "jnlpReady");
    params.insert("ok", "Login");
    params.insert("direct", "yes");
    params.insert("ipv6-support", "yes");
    proof {
        reveal_strlit("");
    }
    let input_str = match gp_params.input_str() {
        Some(s) => s,
        None => "",
    };
    params.insert("inputStr", input_str);
    params.insert("clientVer", "4100");
    params.insert("clientos", profile.client_os().as_str());
    params.insert("computer", profile.computer());
    match gp_params.otp() {
        Some(otp) => params.insert("passwd", otp),
        None => {},
    }
    params.insert("os-version", profile.os_version());
    params.insert("clientgpversion", profile.client_version());
    params.insert("server", gateway);
    match context {
        Some(context) => {
            params.insert("host", context.host());
            params.insert("gw", context.name());
            params.insert("gateway-name", context.name());
            params.insert("internal", context.kind().as_login_param());
            params.insert("selection-type", context.selection().as_login_param());
            params.insert("client-ipv6", "");
            match context.connect_method() {
                Some(m) => params.insert("connect-method", m),
                None => {},
            }
            let client_version = match context.client_version() {
                Some(v) => v,
                None => profile.client_version(),
            };
            params.insert("clientgpversion", client_version);
            match client_ip {
                Some(ip) => params.insert("client-ip", ip),
                None => {},
            }
        },
        None => {},
    }
    if extend_lifetime {
        params.insert("extend-lifetime", "true");
    }
    assert(""@ =~= Seq::<char>::empty());
    params
}

} // verus!
