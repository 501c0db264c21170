//! Host information profile (HIP) reports: the parameters of the three
//! requests that check and submit a report, the token that identifies the
//! session to the report script, and what the gateway's answers say.
use vstd::prelude::*;

use crate::auth::{decode_form, form_pairs};
use crate::gp_params::GpParams;
use crate::os_profile::client_os_name;
use crate::params::{Pairs, ParamMap};
use crate::portal::csc::{hex_char, hex_digit_char, md5_bytes, md5_digest};
use crate::text::{opt_view, str_eq};

verus! {

broadcast use vstd::string::group_string_axioms;

/// The map after setting each of `pairs` in order: a later pair for a key
/// replaces an earlier value.
pub open spec fn insert_all(m: Map<Seq<char>, Seq<char>>, pairs: Pairs) -> Map<Seq<char>, Seq<char>>
    decreases pairs.len(),
{
    if pairs.len() == 0 {
        m
    } else {
        insert_all(m, pairs.drop_last()).insert(pairs.last().0, pairs.last().1)
    }
}

/// The request parameters with the session cookie's own parameters set over
/// them; `None` when the cookie is no form.
pub open spec fn merged_params(cookie: Seq<char>, params: Map<Seq<char>, Seq<char>>) -> Option<
    Map<Seq<char>, Seq<char>>,
> {
    match form_pairs(cookie) {
        Some(p) => Some(insert_all(params, p)),
        None => None,
    }
}

/// Sets the session cookie's own parameters over the request parameters.
pub fn merge_cookie_params(cookie: &str, params: ParamMap) -> (r: Result<ParamMap, String>)
    ensures
        match r {
            Ok(m) => merged_params(cookie@, params@) == Some(m@),
            Err(_) => merged_params(cookie@, params@) is None,
        },
{
    let pairs = match decode_form(cookie) {
        Some(p) => p,
        None => {
            return Err("Malformed gateway cookie".to_string());
        },
    };
    let mut m = params;
    let ghost start = m@;
    let mut i: usize = 0;
    while i < pairs.len()
        invariant
            i <= pairs.len(),
            m@ == insert_all(start, pairs.deep_view().take(i as int)),
        decreases pairs.len() - i,
    {
        assert(pairs.deep_view().take(i + 1).drop_last() =~= pairs.deep_view().take(i as int));
        m.insert(pairs[i].0.as_str(), pairs[i].1.as_str());
        i += 1;
    }
    assert(pairs.deep_view().take(pairs.len() as int) =~= pairs.deep_view());
    Ok(m)
}

/// The cookie's pairs without `authcookie`, `preferred-ip` and
/// `preferred-ipv6`, in order.
pub open spec fn token_pairs(pairs: Pairs) -> Pairs
    decreases pairs.len(),
{
    if pairs.len() == 0 {
        pairs
    } else {
        let rest = token_pairs(pairs.drop_last());
        let k = pairs.last().0;
        if k == "authcookie"@ || k == "preferred-ip"@ || k == "preferred-ipv6"@ {
            rest
        } else {
            rest.push(pairs.last())
        }
    }
}

/// A cookie key that the HIP token leaves out: the authentication cookie
/// and the preferred addresses.
pub open spec fn is_token_excluded_key(k: Seq<char>) -> bool {
    k == "authcookie"@ || k == "preferred-ip"@ || k == "preferred-ipv6"@
}

/// The cookie's pairs without those whose key the token leaves out, in
/// order.
pub open spec fn kept_token_pairs(pairs: Pairs) -> Pairs {
    pairs.filter(|p: (Seq<char>, Seq<char>)| !is_token_excluded_key(p.0))
}

/// The HIP token's pairs are the cookie's pairs, in order, with exactly the
/// pairs keyed `authcookie`, `preferred-ip` and `preferred-ipv6` taken out;
/// every other pair (`computer` among them) stays.
pub proof fn lemma_token_pairs_drop_exactly(pairs: Pairs)
    ensures
        token_pairs(pairs) == kept_token_pairs(pairs),
        forall|p: (Seq<char>, Seq<char>)|
            #[trigger] token_pairs(pairs).contains(p) <==> pairs.contains(p) && !is_token_excluded_key(p.0),
    decreases pairs.len(),
{
    reveal(Seq::filter);
    let pred = |p: (Seq<char>, Seq<char>)| !is_token_excluded_key(p.0);
    if pairs.len() > 0 {
        lemma_token_pairs_drop_exactly(pairs.drop_last());
    }
    assert(token_pairs(pairs) == pairs.filter(pred));
    assert forall|p: (Seq<char>, Seq<char>)|
        #[trigger] token_pairs(pairs).contains(p) <==> pairs.contains(p) && !is_token_excluded_key(p.0) by {
        if token_pairs(pairs).contains(p) {
            pairs.lemma_filter_contains_rev(pred, p);
            let i = choose|i: int| 0 <= i < pairs.filter(pred).len() && pairs.filter(pred)[i] == p;
            pairs.lemma_filter_pred(pred, i);
        }
        if pairs.contains(p) && !is_token_excluded_key(p.0) {
            let i = choose|i: int| 0 <= i < pairs.len() && pairs[i] == p;
            pairs.lemma_filter_contains(pred, i);
        }
    }
}

/// Pairs as `serde_urlencoded::to_string` writes them; `None` where it
/// refuses them.
pub uninterp spec fn form_encoded(pairs: Seq<(Seq<char>, Seq<char>)>) -> Option<Seq<char>>;

/// Writes pairs as an `application/x-www-form-urlencoded` string with
/// `serde_urlencoded::to_string`; the contract only names the result.
#[verifier::external_body]
fn encode_form(pairs: Vec<(String, String)>) -> (r: Option<String>)
    ensures
        opt_view(r) == form_encoded(pairs.deep_view()),
{
    serde_urlencoded::to_string(pairs).ok()
}

/// A byte as two lower-case hex digits.
pub open spec fn byte_hex_padded(b: u8) -> Seq<char> {
    seq![hex_digit_char((b / 16) as nat), hex_digit_char((b % 16) as nat)]
}

/// Bytes as lower-case hex, two digits each (`{:x}` of an MD5 digest).
pub open spec fn bytes_hex_padded(bytes: Seq<u8>) -> Seq<char>
    decreases bytes.len(),
{
    if bytes.len() == 0 {
        Seq::empty()
    } else {
        bytes_hex_padded(bytes.drop_last()) + byte_hex_padded(bytes.last())
    }
}

/// The MD5 digest of `value` in lower-case hex, two digits a byte.
pub fn md5_hex(value: &[u8]) -> (r: String)
    ensures
        r@ == bytes_hex_padded(md5_digest(value@)),
{
    let digest = md5_bytes(value);
    let mut out: Vec<char> = Vec::new();
    let mut i: usize = 0;
    while i < digest.len()
        invariant
            i <= digest.len(),
            out@ == bytes_hex_padded(digest@.take(i as int)),
        decreases digest.len() - i,
    {
        let b = digest[i];
        let ghost before = out@;
        out.push(hex_char(b / 16));
        out.push(hex_char(b % 16));
        assert(digest@.take(i + 1).drop_last() =~= digest@.take(i as int));
        assert(out@ =~= before + byte_hex_padded(b));
        i += 1;
    }
    assert(digest@.take(digest.len() as int) =~= digest@);
    let n = out.len();
    crate::text::string_of(&out, 0, n)
}

/// The token that identifies a session to the HIP report script: the MD5
/// hex digest of the cookie's parameters, re-encoded, without the
/// authentication cookie and the preferred addresses.
pub open spec fn csd_token_of(cookie: Seq<char>) -> Option<Seq<char>> {
    match form_pairs(cookie) {
        Some(p) => match form_encoded(token_pairs(p)) {
            Some(t) => Some(bytes_hex_padded(md5_digest(vstd::utf8::encode_utf8(t)))),
            None => None,
        },
        None => None,
    }
}

/// `t` is the MD5 hex digest of `text`, the form encoding of the cookie's
/// pairs `p` without the pairs the token leaves out.
pub open spec fn token_built_from(cookie: Seq<char>, p: Pairs, text: Seq<char>, t: Seq<char>) -> bool {
    &&& form_pairs(cookie) == Some(p)
    &&& form_encoded(kept_token_pairs(p)) == Some(text)
    &&& t == bytes_hex_padded(md5_digest(vstd::utf8::encode_utf8(text)))
}

/// The HIP token of a gateway cookie.
pub fn build_csd_token(cookie: &str) -> (r: Result<String, String>)
    ensures
        match r {
            Ok(t) => csd_token_of(cookie@) == Some(t@),
            Err(_) => csd_token_of(cookie@) is None,
        },
        r matches Ok(t) ==> exists|p: Pairs, text: Seq<char>| #[trigger] token_built_from(cookie@, p, text, t@),
{
    let pairs = match decode_form(cookie) {
        Some(p) => p,
        None => {
            return Err("Malformed gateway cookie".to_string());
        },
    };
    let mut kept: Vec<(String, String)> = Vec::new();
    let mut i: usize = 0;
    while i < pairs.len()
        invariant
            i <= pairs.len(),
            kept.deep_view() == token_pairs(pairs.deep_view().take(i as int)),
        decreases pairs.len() - i,
    {
        assert(pairs.deep_view().take(i + 1).drop_last() =~= pairs.deep_view().take(i as int));
        let k = pairs[i].0.as_str();
        if !(str_eq(k, "authcookie") || str_eq(k, "preferred-ip") || str_eq(k, "preferred-ipv6")) {
            let pair = (pairs[i].0.clone(), pairs[i].1.clone());
            kept.push(pair);
            assert(kept.deep_view() =~= token_pairs(pairs.deep_view().take(i + 1)));
        }
        i += 1;
    }
    assert(pairs.deep_view().take(pairs.len() as int) =~= pairs.deep_view());
    proof {
        lemma_token_pairs_drop_exactly(pairs.deep_view());
    }
    match encode_form(kept) {
        Some(token) => {
            let t = md5_hex(token.as_str().as_bytes());
            assert(token_built_from(cookie@, pairs.deep_view(), token@, t@));
            Ok(t)
        },
        None => Err("Failed to encode the HIP token".to_string()),
    }
}

/// The parameters of the configuration request that reports the client's
/// address.
pub open spec fn client_ip_param_map(
    client_os: Seq<char>,
    os_version: Seq<char>,
    client_version: Seq<char>,
) -> Map<Seq<char>, Seq<char>> {
    Map::empty().insert("client-type"@, "1"@).insert("protocol-version"@, "p1"@).insert(
        "internal"@,
        "no"@,
    ).insert("ipv6-support"@, "yes"@).insert("clientos"@, client_os).insert(
        "hmac-algo"@,
        "sha1,md5,sha256"@,
    ).insert("enc-algo"@, "aes-128-cbc,aes-256-cbc"@).insert("os-version"@, os_version).insert(
        "app-version"@,
        client_version,
    )
}

/// The parameters of the request for the client's address, the cookie's
/// parameters set over them.
pub fn client_ip_params(cookie: &str, gp_params: &GpParams) -> (r: Result<ParamMap, String>)
    ensures
        match r {
            Ok(m) => merged_params(
                cookie@,
                client_ip_param_map(
                    client_os_name(gp_params@.os_profile.client_os),
                    gp_params@.os_profile.os_version,
                    gp_params@.os_profile.client_version,
                ),
            ) == Some(m@),
            Err(_) => merged_params(
                cookie@,
                client_ip_param_map(
                    client_os_name(gp_params@.os_profile.client_os),
                    gp_params@.os_profile.os_version,
                    gp_params@.os_profile.client_version,
                ),
            ) is None,
        },
{
    let mut params = ParamMap::new();
    params.insert("client-type", "1");
    params.insert("protocol-version", "p1");
    params.insert("internal", "no");
    params.insert("ipv6-support", "yes");
    params.insert("clientos", gp_params.client_os());
    params.insert("hmac-algo", "sha1,md5,sha256");
    params.insert("enc-algo", "aes-128-cbc,aes-256-cbc");
    if let Some(os_version) = gp_params.os_version() {
        params.insert("os-version", os_version);
    }
    if let Some(client_version) = gp_params.client_version() {
        params.insert("app-version", client_version);
    }
    merge_cookie_params(cookie, params)
}

/// The parameters of the request that asks whether a report is needed.
pub open spec fn hip_check_param_map(client_ip: Seq<char>, md5: Seq<char>) -> Map<Seq<char>, Seq<char>> {
    Map::empty().insert("client-role"@, "global-protect-full"@).insert("client-ip"@, client_ip).insert(
        "md5"@,
        md5,
    )
}

/// The parameters of the request that asks whether a report is needed, the
/// cookie's parameters set over them.
pub fn hip_check_params(cookie: &str, client_ip: &str, md5: &str) -> (r: Result<ParamMap, String>)
    ensures
        match r {
            Ok(m) => merged_params(cookie@, hip_check_param_map(client_ip@, md5@)) == Some(m@),
            Err(_) => merged_params(cookie@, hip_check_param_map(client_ip@, md5@)) is None,
        },
{
    let mut params = ParamMap::new();
    params.insert("client-role", "global-protect-full");
    params.insert("client-ip", client_ip);
    params.insert("md5", md5);
    merge_cookie_params(cookie, params)
}

/// The parameters of the request that submits a report.
pub open spec fn hip_submit_param_map(client_ip: Seq<char>, report: Seq<char>) -> Map<
    Seq<char>,
    Seq<char>,
> {
    Map::empty().insert("client-role"@, "global-protect-full"@).insert("client-ip"@, client_ip).insert(
        "report"@,
        report,
    )
}

/// The parameters of the request that submits a report, the cookie's
/// parameters set over them.
pub fn hip_submit_params(cookie: &str, client_ip: &str, report: &str) -> (r: Result<ParamMap, String>)
    ensures
        match r {
            Ok(m) => merged_params(cookie@, hip_submit_param_map(client_ip@, report@)) == Some(m@),
            Err(_) => merged_params(cookie@, hip_submit_param_map(client_ip@, report@)) is None,
        },
{
    let mut params = ParamMap::new();
    params.insert("client-role", "global-protect-full");
    params.insert("client-ip", client_ip);
    params.insert("report", report);
    merge_cookie_params(cookie, params)
}

/// The nodes of an XML document in document order, as `roxmltree` walks
/// them from the document's root: whether each is an element, the local
/// part of its tag name, and its text; `None` when the text is not
/// well-formed XML.
pub uninterp spec fn roxml_nodes(text: Seq<char>) -> Option<Seq<(bool, Seq<char>, Option<Seq<char>>)>>;

pub open spec fn node_views(v: Seq<(bool, String, Option<String>)>) -> Seq<(bool, Seq<char>, Option<Seq<char>>)> {
    v.map_values(|n: (bool, String, Option<String>)| (n.0, n.1@, opt_view(n.2)))
}

/// `roxmltree::Document::parse` and the document's `descendants`, each node
/// as `is_element`, `tag_name().name()` and `text`. The contract names the
/// result.
#[verifier::external_body]
fn document_nodes(text: &str) -> (r: Option<Vec<(bool, String, Option<String>)>>)
    ensures
        match r {
            Some(v) => roxml_nodes(text@) == Some(node_views(v@)),
            None => roxml_nodes(text@) is None,
        },
{
    let doc = roxmltree::Document::parse(text).ok()?;
    Some(doc.descendants().map(|n| (n.is_element(), n.tag_name().name().to_string(), n.text().map(|t| t.to_string()))).collect())
}

/// The text of the first element named `tag` among `nodes`; `None` when
/// there is no such element or it has no text.
pub open spec fn first_element_text(nodes: Seq<(bool, Seq<char>, Option<Seq<char>>)>, tag: Seq<char>) -> Option<Seq<char>>
    decreases nodes.len(),
{
    if nodes.len() == 0 {
        None
    } else if nodes[0].0 && nodes[0].1 == tag {
        nodes[0].2
    } else {
        first_element_text(nodes.drop_first(), tag)
    }
}

/// The text of the first element named `tag` in a document, the root
/// included, in document order.
pub open spec fn document_text(text: Seq<char>, tag: Seq<char>) -> Option<Seq<char>> {
    match roxml_nodes(text) {
        Some(nodes) => first_element_text(nodes, tag),
        None => None,
    }
}

/// The text of the first element named `tag` among a document's nodes.
pub fn first_tag_text(nodes: &Vec<(bool, String, Option<String>)>, tag: &str) -> (r: Option<String>)
    ensures
        opt_view(r) == first_element_text(node_views(nodes@), tag@),
{
    let ghost all = node_views(nodes@);
    assert(all.skip(0) =~= all);
    let mut i: usize = 0;
    while i < nodes.len()
        invariant
            i <= nodes.len(),
            all == node_views(nodes@),
            first_element_text(all, tag@) == first_element_text(all.skip(i as int), tag@),
        decreases nodes.len() - i,
    {
        assert(all.skip(i as int).drop_first() =~= all.skip(i + 1));
        let n = &nodes[i];
        if n.0 && str_eq(n.1.as_str(), tag) {
            return match &n.2 {
                Some(t) => Some(t.clone()),
                None => None,
            };
        }
        i += 1;
    }
    None
}

/// The text of the first element named `tag` of an XML answer.
pub fn document_tag_text(text: &str, tag: &str) -> (r: Option<String>)
    ensures
        opt_view(r) == document_text(text@, tag@),
{
    match document_nodes(text) {
        Some(nodes) => first_tag_text(&nodes, tag),
        None => None,
    }
}

/// The client's address in the answer to the configuration request.
pub fn client_ip_from_response(res_xml: &str) -> (r: Result<String, String>)
    ensures
        match r {
            Ok(ip) => document_text(res_xml@, "ip-address"@) == Some(ip@),
            Err(_) => document_text(res_xml@, "ip-address"@) is None,
        },
{
    match document_tag_text(res_xml, "ip-address") {
        Some(ip) => Ok(ip),
        None => Err("ip-address not found".to_string()),
    }
}

/// Whether the gateway asks for a report: its `hip-report-needed` says
/// `yes`.
pub fn is_hip_needed(res_xml: &str) -> (r: Result<bool, String>)
    ensures
        match r {
            Ok(b) => document_text(res_xml@, "hip-report-needed"@) matches Some(t) && b == (t
                == "yes"@),
            Err(_) => document_text(res_xml@, "hip-report-needed"@) is None,
        },
{
    match document_tag_text(res_xml, "hip-report-needed") {
        Some(t) => Ok(str_eq(t.as_str(), "yes")),
        None => Err("hip-report-needed not found".to_string()),
    }
}

} // verus!
