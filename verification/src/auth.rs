//! SAML authentication data: what a portal or gateway hands back after a
//! successful single sign-on, read from an HTML page or from a
//! `globalprotectcallback:` URL.
use vstd::prelude::*;

use crate::error::AuthDataParseError;
use crate::text::{occurs_at, 
    as_opt_str, byte_len, clone_opt, opt_str_view, is_blank, is_blank_str, opt_view, starts_with, starts_with_str, str_eq,
    strip_leading, strip_leading_str, utf8_len,
};
use base64::Engine;

verus! {

broadcast use vstd::string::group_string_axioms;

/// The credentials that a SAML login produced.
#[derive(Debug)]
pub struct SamlAuthData {
    pub(crate) username: String,
    pub(crate) prelogin_cookie: Option<String>,
    pub(crate) portal_userauthcookie: Option<String>,
    pub(crate) token: Option<String>,
    pub(crate) host_id: Option<String>,
}

pub struct SamlAuthDataView {
    pub username: Seq<char>,
    pub prelogin_cookie: Option<Seq<char>>,
    pub portal_userauthcookie: Option<Seq<char>>,
    pub token: Option<Seq<char>>,
    pub host_id: Option<Seq<char>>,
}

impl View for SamlAuthData {
    type V = SamlAuthDataView;

    closed spec fn view(&self) -> SamlAuthDataView {
        SamlAuthDataView {
            username: self.username@,
            prelogin_cookie: opt_view(self.prelogin_cookie),
            portal_userauthcookie: opt_view(self.portal_userauthcookie),
            token: opt_view(self.token),
            host_id: opt_view(self.host_id),
        }
    }
}

impl Clone for SamlAuthData {
    fn clone(&self) -> (r: Self)
        ensures
            r@ == self@,
    {
        SamlAuthData {
            username: self.username.clone(),
            prelogin_cookie: clone_opt(&self.prelogin_cookie),
            portal_userauthcookie: clone_opt(&self.portal_userauthcookie),
            token: clone_opt(&self.token),
            host_id: clone_opt(&self.host_id),
        }
    }
}

/// The outcome of a SAML login.
#[derive(Debug)]
pub enum SamlAuthResult {
    Success(SamlAuthData),
    Failure(String),
}

impl SamlAuthResult {
    pub fn is_success(&self) -> (r: bool)
        ensures
            r == (self is Success),
    {
        match self {
            SamlAuthResult::Success(_) => true,
            SamlAuthResult::Failure(_) => false,
        }
    }

    pub fn host_id(&self) -> (r: Option<&str>)
        ensures
            opt_str_view(r) == match self {
                SamlAuthResult::Success(d) => d@.host_id,
                SamlAuthResult::Failure(_) => None,
            },
    {
        match self {
            SamlAuthResult::Success(auth_data) => auth_data.host_id(),
            SamlAuthResult::Failure(_) => None,
        }
    }
}

/// The value of the last pair with key `key`; `None` when no pair has it.
pub open spec fn key_value(pairs: Seq<(Seq<char>, Seq<char>)>, key: Seq<char>) -> Option<Seq<char>>
    decreases pairs.len(),
{
    if pairs.len() == 0 {
        None
    } else if pairs.last().0 == key {
        Some(pairs.last().1)
    } else {
        key_value(pairs.drop_last(), key)
    }
}

/// Each field that a form sets is the value given under that field's own
/// key: `preloginCookie` only sets the prelogin cookie,
/// `portalUserauthcookie` only the portal cookie, `token` the token,
/// `hostId` the host ID, and `username` or `un` the user name. A field
/// that no pair names is not set.
pub proof fn lemma_form_fields_by_key(pairs: Seq<(Seq<char>, Seq<char>)>)
    ensures
        fold_form(pairs) matches Some(f) ==> {
            &&& f.prelogin_cookie == key_value(pairs, "preloginCookie"@)
            &&& f.portal_userauthcookie == key_value(pairs, "portalUserauthcookie"@)
            &&& f.token == key_value(pairs, "token"@)
            &&& f.host_id == key_value(pairs, "hostId"@)
            &&& f.username == match key_value(pairs, "username"@) {
                Some(u) => Some(u),
                None => key_value(pairs, "un"@),
            }
            &&& (f.username is None ==> key_value(pairs, "username"@) is None && key_value(pairs, "un"@) is None)
        },
    decreases pairs.len(),
{
    reveal_strlit("username");
    reveal_strlit("un");
    reveal_strlit("preloginCookie");
    reveal_strlit("portalUserauthcookie");
    reveal_strlit("token");
    reveal_strlit("hostId");
    assert("username"@.len() == 8 && "un"@.len() == 2 && "preloginCookie"@.len() == 14);
    assert("portalUserauthcookie"@.len() == 20 && "token"@.len() == 5 && "hostId"@.len() == 6);
    if pairs.len() > 0 {
        let rest = pairs.drop_last();
        lemma_form_fields_by_key(rest);
        let k = pairs.last().0;
        if fold_form(pairs) is Some {
            assert(fold_form(rest) is Some);
        }
    }
}

/// The SAML data of a form: the user name under `username` or `un`, the
/// prelogin cookie under `preloginCookie`, the portal cookie under
/// `portalUserauthcookie`, the token under `token` and the host ID under
/// `hostId`.
pub proof fn lemma_form_data_by_key(pairs: Seq<(Seq<char>, Seq<char>)>)
    ensures
        saml_auth_data_of_form(pairs) matches Some(d) ==> {
            &&& d.prelogin_cookie == key_value(pairs, "preloginCookie"@)
            &&& d.portal_userauthcookie == key_value(pairs, "portalUserauthcookie"@)
            &&& d.token == key_value(pairs, "token"@)
            &&& d.host_id == key_value(pairs, "hostId"@)
            &&& Some(d.username) == match key_value(pairs, "username"@) {
                Some(u) => Some(u),
                None => key_value(pairs, "un"@),
            }
        },
{
    lemma_form_fields_by_key(pairs);
}

/// What `SamlAuthData::new` decides: `None` when the values are refused.
pub open spec fn saml_auth_data_of(
    username: Option<Seq<char>>,
    prelogin_cookie: Option<Seq<char>>,
    portal_userauthcookie: Option<Seq<char>>,
) -> Option<SamlAuthDataView> {
    let username = username.unwrap_or(Seq::empty());
    let prelogin_cookie = prelogin_cookie.unwrap_or(Seq::empty());
    let portal_userauthcookie = portal_userauthcookie.unwrap_or(Seq::empty());
    if username.len() == 0 {
        None
    } else if utf8_len(prelogin_cookie) <= 5 && utf8_len(portal_userauthcookie) <= 5 {
        None
    } else {
        Some(
            SamlAuthDataView {
                username,
                prelogin_cookie: Some(prelogin_cookie),
                portal_userauthcookie: Some(portal_userauthcookie),
                token: None,
                host_id: None,
            },
        )
    }
}

/// What was read from a page or a callback.
pub enum ReadOutcome {
    Found(SamlAuthDataView),
    NotFound,
    Invalid,
}

pub open spec fn outcome_of(r: Result<SamlAuthData, AuthDataParseError>) -> ReadOutcome {
    match r {
        Ok(d) => ReadOutcome::Found(d@),
        Err(AuthDataParseError::NotFound) => ReadOutcome::NotFound,
        Err(AuthDataParseError::Invalid(_)) => ReadOutcome::Invalid,
    }
}

/// `<tag>` at `i` and `</tag>` at `j` of `html`, with no line break
/// between them: a match of `<tag>(.*)</tag>`, whose `.` is any character
/// but `\n`.
pub open spec fn tag_span(html: Seq<char>, tag: Seq<char>, i: int, j: int) -> bool {
    let open = "<"@ + tag + ">"@;
    &&& occurs_at(html, open, i)
    &&& i + open.len() <= j
    &&& occurs_at(html, "</"@ + tag + ">"@, j)
    &&& forall|k: int| i + open.len() <= k < j ==> html[k] != '\n'
}

/// A match of `<tag>(.*)</tag>` starts at `i`.
pub open spec fn tag_span_starts(html: Seq<char>, tag: Seq<char>, i: int) -> bool {
    exists|j: int| tag_span(html, tag, i, j)
}

/// What the regular expression `<tag>(.*)</tag>` captures in `html`: the
/// leftmost match, and, `.*` being greedy, from it the last `</tag>` before
/// the line ends.
#[verifier::opaque]
pub open spec fn xml_tag_capture(tag: Seq<char>, html: Seq<char>) -> Option<Seq<char>> {
    if exists|i: int| tag_span_starts(html, tag, i) {
        let i = choose|i: int|
            tag_span_starts(html, tag, i) && forall|i2: int| i2 < i ==> !tag_span_starts(html, tag, i2);
        let j = choose|j: int| tag_span(html, tag, i, j) && forall|j2: int| tag_span(html, tag, i, j2) ==> j2 <= j;
        Some(html.subrange(i + tag.len() + 2, j))
    } else {
        None
    }
}

/// A tag name that needs no escaping inside a regular expression, short
/// enough that its pattern stays far below the regular expression size
/// limit.
pub open spec fn is_plain_tag(tag: Seq<char>) -> bool {
    0 < tag.len() <= 64 && forall|i: int| 0 <= i < tag.len() ==> ('a' <= #[trigger] tag[i] <= 'z' || tag[i] == '-')
}

/// Reads `<tag>(.*)</tag>` from `html` with the `regex` crate: `Regex::new`
/// on that pattern, then `captures` and its first group, as
/// `xml_tag_capture` states it; the pattern of a plain tag of at most 64 characters
/// compiles, so `unwrap` does not panic.
#[verifier::external_body]
fn capture_xml_tag(tag: &str, html: &str) -> (r: Option<String>)
    requires
        is_plain_tag(tag@),
    ensures
        opt_view(r) == xml_tag_capture(tag@, html@),
{
    let re = regex::Regex::new(&format!("<{}>(.*)</{}>", tag, tag)).unwrap();
    re.captures(html).and_then(|captures| captures.get(1)).map(|m| m.as_str().to_string())
}

/// The SAML data in an HTML page, as `from_html` reads it.
pub open spec fn read_html(html: Seq<char>) -> ReadOutcome {
    match xml_tag_capture("saml-auth-status"@, html) {
        Some(status) => if status == "1"@ {
            match saml_auth_data_of(
                xml_tag_capture("saml-username"@, html),
                xml_tag_capture("prelogin-cookie"@, html),
                xml_tag_capture("portal-userauthcookie"@, html),
            ) {
                Some(v) => ReadOutcome::Found(v),
                None => ReadOutcome::Invalid,
            }
        } else {
            ReadOutcome::Invalid
        },
        None => ReadOutcome::NotFound,
    }
}

/// The fields of `SamlAuthData` that a form-encoded callback can set.
pub struct FormFields {
    pub username: Option<Seq<char>>,
    pub prelogin_cookie: Option<Seq<char>>,
    pub portal_userauthcookie: Option<Seq<char>>,
    pub token: Option<Seq<char>>,
    pub host_id: Option<Seq<char>>,
}

pub open spec fn no_form_fields() -> FormFields {
    FormFields {
        username: None,
        prelogin_cookie: None,
        portal_userauthcookie: None,
        token: None,
        host_id: None,
    }
}

/// Set `slot` from a value, refusing a field that was already set.
pub open spec fn set_once(slot: Option<Seq<char>>, v: Seq<char>) -> Option<Option<Seq<char>>> {
    if slot is Some {
        None
    } else {
        Some(Some(v))
    }
}

/// One `key=value` pair applied to the fields read so far: the camel-case
/// field names, `un` as another name of `username`, unknown keys ignored,
/// and a field given twice refused.
pub open spec fn apply_form_pair(f: FormFields, kv: (Seq<char>, Seq<char>)) -> Option<FormFields> {
    let (k, v) = kv;
    if k == "username"@ || k == "un"@ {
        match set_once(f.username, v) {
            Some(x) => Some(FormFields { username: x, ..f }),
            None => None,
        }
    } else if k == "preloginCookie"@ {
        match set_once(f.prelogin_cookie, v) {
            Some(x) => Some(FormFields { prelogin_cookie: x, ..f }),
            None => None,
        }
    } else if k == "portalUserauthcookie"@ {
        match set_once(f.portal_userauthcookie, v) {
            Some(x) => Some(FormFields { portal_userauthcookie: x, ..f }),
            None => None,
        }
    } else if k == "token"@ {
        match set_once(f.token, v) {
            Some(x) => Some(FormFields { token: x, ..f }),
            None => None,
        }
    } else if k == "hostId"@ {
        match set_once(f.host_id, v) {
            Some(x) => Some(FormFields { host_id: x, ..f }),
            None => None,
        }
    } else {
        Some(f)
    }
}

pub open spec fn fold_form(pairs: Seq<(Seq<char>, Seq<char>)>) -> Option<FormFields>
    decreases pairs.len(),
{
    if pairs.len() == 0 {
        Some(no_form_fields())
    } else {
        match fold_form(pairs.drop_last()) {
            Some(f) => apply_form_pair(f, pairs.last()),
            None => None,
        }
    }
}

/// Once a prefix of the pairs is refused, so is every longer list.
proof fn lemma_fold_form_refused(pairs: Seq<(Seq<char>, Seq<char>)>, j: int)
    requires
        0 <= j <= pairs.len(),
        fold_form(pairs.take(j)) is None,
    ensures
        fold_form(pairs) is None,
    decreases pairs.len() - j,
{
    if j == pairs.len() {
        assert(pairs.take(j) =~= pairs);
    } else {
        assert(pairs.take(j + 1).drop_last() =~= pairs.take(j));
        lemma_fold_form_refused(pairs, j + 1);
    }
}

/// The authentication data that a decoded form describes; the username is
/// required.
pub open spec fn saml_auth_data_of_form(pairs: Seq<(Seq<char>, Seq<char>)>) -> Option<
    SamlAuthDataView,
> {
    match fold_form(pairs) {
        Some(f) => match f.username {
            Some(u) => Some(
                SamlAuthDataView {
                    username: u,
                    prelogin_cookie: f.prelogin_cookie,
                    portal_userauthcookie: f.portal_userauthcookie,
                    token: f.token,
                    host_id: f.host_id,
                },
            ),
            None => None,
        },
        None => None,
    }
}

/// The value of an ASCII hex digit (`0-9`, `a-f`, `A-F`).
pub open spec fn hex_byte_value(b: u8) -> Option<nat> {
    if 48 <= b <= 57 {
        Some((b - 48) as nat)
    } else if 65 <= b <= 70 {
        Some((b - 55) as nat)
    } else if 97 <= b <= 102 {
        Some((b - 87) as nat)
    } else {
        None
    }
}

/// Percent-decoding of bytes: `%` followed by two hex digits is the byte
/// they give; every other byte, `%` included, stands for itself.
pub open spec fn percent_decoded_bytes(b: Seq<u8>) -> Seq<u8>
    decreases b.len(),
{
    if b.len() == 0 {
        Seq::empty()
    } else if b[0] == 37u8 && b.len() >= 3 && hex_byte_value(b[1]) is Some && hex_byte_value(b[2]) is Some {
        seq![(hex_byte_value(b[1])->0 * 16 + hex_byte_value(b[2])->0) as u8] + percent_decoded_bytes(
            b.subrange(3, b.len() as int),
        )
    } else {
        seq![b[0]] + percent_decoded_bytes(b.drop_first())
    }
}

/// Percent-decoding of a string's UTF-8 bytes (`+` stays as it is), `None`
/// when the decoded bytes are not UTF-8.
#[verifier::opaque]
pub open spec fn url_decode(s: Seq<char>) -> Option<Seq<char>> {
    let bytes = percent_decoded_bytes(vstd::utf8::encode_utf8(s));
    if vstd::utf8::valid_utf8(bytes) {
        Some(vstd::utf8::decode_utf8(bytes))
    } else {
        None
    }
}

/// The `key=value` pairs of an `application/x-www-form-urlencoded` string,
/// `None` when it cannot be decoded.
pub uninterp spec fn form_pairs(s: Seq<char>) -> Option<Seq<(Seq<char>, Seq<char>)>>;

/// Standard base64 decoding with padding, `None` on malformed input.
pub uninterp spec fn base64_decode(s: Seq<char>) -> Option<Seq<u8>>;

/// `urlencoding::decode`: percent-decoding of the UTF-8 bytes, refused when
/// the decoded bytes are not UTF-8, as `url_decode` states it.
#[verifier::external_body]
pub(crate) fn percent_decode(s: &str) -> (r: Option<String>)
    ensures
        opt_view(r) == url_decode(s@),
{
    urlencoding::decode(s).ok().map(|d| d.into_owned())
}

/// `serde_urlencoded::from_str` into a list of string pairs. The contract
/// only names the result.
#[verifier::external_body]
pub(crate) fn decode_form(s: &str) -> (r: Option<Vec<(String, String)>>)
    ensures
        match r {
            Some(v) => form_pairs(s@) == Some(v.deep_view()),
            None => form_pairs(s@) is None,
        },
{
    serde_urlencoded::from_str::<Vec<(String, String)>>(s).ok()
}

/// `base64::engine::general_purpose::STANDARD.decode`. The contract only
/// names the result.
#[verifier::external_body]
pub(crate) fn decode_base64(s: &str) -> (r: Option<Vec<u8>>)
    ensures
        match r {
            Some(v) => base64_decode(s@) == Some(v@),
            None => base64_decode(s@) is None,
        },
{
    base64::engine::general_purpose::STANDARD.decode(s).ok()
}

/// `String::from_utf8`: the text that the bytes encode, refused when they
/// are not valid UTF-8.
#[verifier::external_body]
pub(crate) fn utf8_string(bytes: Vec<u8>) -> (r: Option<String>)
    ensures
        match r {
            Some(s) => vstd::utf8::valid_utf8(bytes@) && s@ == vstd::utf8::decode_utf8(bytes@),
            None => !vstd::utf8::valid_utf8(bytes@),
        },
{
    String::from_utf8(bytes).ok()
}

/// The callback's payload: the text after every leading
/// `globalprotectcallback:` and every leading `/`.
pub open spec fn gpcallback_payload(data: Seq<char>) -> Seq<char> {
    strip_leading(strip_leading(data, "globalprotectcallback:"@), seq!['/'])
}

/// What `from_gpcallback` reads from a callback URL.
pub open spec fn read_gpcallback(data: Seq<char>) -> ReadOutcome {
    let payload = gpcallback_payload(data);
    if starts_with(payload, "cas-as"@) {
        let form = match url_decode(payload) {
            Some(d) => d,
            None => payload,
        };
        match form_pairs(form) {
            Some(pairs) => match saml_auth_data_of_form(pairs) {
                Some(v) => ReadOutcome::Found(v),
                None => ReadOutcome::Invalid,
            },
            None => ReadOutcome::Invalid,
        }
    } else {
        match base64_decode(payload) {
            Some(bytes) => if vstd::utf8::valid_utf8(bytes) {
                read_html(vstd::utf8::decode_utf8(bytes))
            } else {
                ReadOutcome::Invalid
            },
            None => ReadOutcome::Invalid,
        }
    }
}

impl SamlAuthData {
    /// The view holds the fields' own views.
    pub(crate) proof fn lemma_view(d: SamlAuthData)
        ensures
            d@.username == d.username@,
            d@.prelogin_cookie == opt_view(d.prelogin_cookie),
            d@.portal_userauthcookie == opt_view(d.portal_userauthcookie),
            d@.token == opt_view(d.token),
            d@.host_id == opt_view(d.host_id),
    {
    }

    /// Authentication data from a login page's values; refused when the
    /// username is missing or both cookies have at most five bytes.
    pub fn new(
        username: Option<String>,
        prelogin_cookie: Option<String>,
        portal_userauthcookie: Option<String>,
    ) -> (r: Result<Self, String>)
        ensures
            match r {
                Ok(d) => saml_auth_data_of(
                    opt_view(username),
                    opt_view(prelogin_cookie),
                    opt_view(portal_userauthcookie),
                ) == Some(d@),
                Err(_) => saml_auth_data_of(
                    opt_view(username),
                    opt_view(prelogin_cookie),
                    opt_view(portal_userauthcookie),
                ) is None,
            },
    {
        let username = match username {
            Some(u) => u,
            None => String::new(),
        };
        if username.as_str().is_empty() {
            return Err("Invalid username: <empty>".to_string());
        }
        let prelogin_cookie = match prelogin_cookie {
            Some(c) => c,
            None => String::new(),
        };
        let portal_userauthcookie = match portal_userauthcookie {
            Some(c) => c,
            None => String::new(),
        };
        if byte_len(prelogin_cookie.as_str()) <= 5 && byte_len(portal_userauthcookie.as_str()) <= 5 {
            let mut msg = "Invalid prelogin-cookie: ".to_string();
            msg.append(prelogin_cookie.as_str());
            msg.append(", portal-userauthcookie: ");
            msg.append(portal_userauthcookie.as_str());
            return Err(msg);
        }
        Ok(
            SamlAuthData {
                username,
                prelogin_cookie: Some(prelogin_cookie),
                portal_userauthcookie: Some(portal_userauthcookie),
                token: None,
                host_id: None,
            },
        )
    }

    /// The same data carrying a host ID; a blank one is dropped.
    pub fn with_host_id(self, host_id: String) -> (r: Self)
        ensures
            r@ == (SamlAuthDataView {
                host_id: if is_blank(host_id@) {
                    None
                } else {
                    Some(host_id@)
                },
                ..self@
            }),
    {
        let blank = is_blank_str(host_id.as_str());
        SamlAuthData { host_id: if blank { None } else { Some(host_id) }, ..self }
    }

    /// The authentication data that an HTML page reports in its
    /// `<saml-auth-status>`, `<saml-username>`, `<prelogin-cookie>` and
    /// `<portal-userauthcookie>` tags.
    pub fn from_html(html: &str) -> (r: Result<SamlAuthData, AuthDataParseError>)
        ensures
            outcome_of(r) == read_html(html@),
    {
        proof {
            reveal_strlit("saml-auth-status");
            reveal_strlit("saml-username");
            reveal_strlit("prelogin-cookie");
            reveal_strlit("portal-userauthcookie");
        }
        match capture_xml_tag("saml-auth-status", html) {
            Some(status) => {
                if str_eq(status.as_str(), "1") {
                    let username = capture_xml_tag("saml-username", html);
                    let prelogin_cookie = capture_xml_tag("prelogin-cookie", html);
                    let portal_userauthcookie = capture_xml_tag("portal-userauthcookie", html);
                    match SamlAuthData::new(username, prelogin_cookie, portal_userauthcookie) {
                        Ok(d) => Ok(d),
                        Err(msg) => Err(AuthDataParseError::Invalid(msg)),
                    }
                } else {
                    let mut msg = "SAML auth status: ".to_string();
                    msg.append(status.as_str());
                    Err(AuthDataParseError::Invalid(msg))
                }
            },
            None => Err(AuthDataParseError::NotFound),
        }
    }

    /// The fields of a decoded form, as the field names of this type read
    /// them.
    pub fn from_form_pairs(pairs: &Vec<(String, String)>) -> (r: Option<SamlAuthData>)
        ensures
            match r {
                Some(d) => saml_auth_data_of_form(pairs.deep_view()) == Some(d@),
                None => saml_auth_data_of_form(pairs.deep_view()) is None,
            },
            r matches Some(d) ==> d@.prelogin_cookie == key_value(pairs.deep_view(), "preloginCookie"@)
                && d@.portal_userauthcookie == key_value(pairs.deep_view(), "portalUserauthcookie"@),
    {
        proof {
            lemma_form_data_by_key(pairs.deep_view());
        }
        let mut username: Option<String> = None;
        let mut prelogin_cookie: Option<String> = None;
        let mut portal_userauthcookie: Option<String> = None;
        let mut token: Option<String> = None;
        let mut host_id: Option<String> = None;
        let mut i: usize = 0;
        while i < pairs.len()
            invariant
                i <= pairs.len(),
                fold_form(pairs.deep_view().take(i as int)) == Some(
                    FormFields {
                        username: opt_view(username),
                        prelogin_cookie: opt_view(prelogin_cookie),
                        portal_userauthcookie: opt_view(portal_userauthcookie),
                        token: opt_view(token),
                        host_id: opt_view(host_id),
                    },
                ),
            decreases pairs.len() - i,
        {
            let ghost before = pairs.deep_view().take(i as int);
            assert(pairs.deep_view().take(i + 1).drop_last() =~= before);
            assert(pairs.deep_view().take(i + 1).last() == pairs.deep_view()[i as int]);
            let k = pairs[i].0.as_str();
            let v = pairs[i].1.clone();
            if str_eq(k, "username") || str_eq(k, "un") {
                if username.is_some() {
                    proof {
                        lemma_fold_form_refused(pairs.deep_view(), i + 1);
                    }
                    return None;
                }
                username = Some(v);
            } else if str_eq(k, "preloginCookie") {
                if prelogin_cookie.is_some() {
                    proof {
                        lemma_fold_form_refused(pairs.deep_view(), i + 1);
                    }
                    return None;
                }
                prelogin_cookie = Some(v);
            } else if str_eq(k, "portalUserauthcookie") {
                if portal_userauthcookie.is_some() {
                    proof {
                        lemma_fold_form_refused(pairs.deep_view(), i + 1);
                    }
                    return None;
                }
                portal_userauthcookie = Some(v);
            } else if str_eq(k, "token") {
                if token.is_some() {
                    proof {
                        lemma_fold_form_refused(pairs.deep_view(), i + 1);
                    }
                    return None;
                }
                token = Some(v);
            } else if str_eq(k, "hostId") {
                if host_id.is_some() {
                    proof {
                        lemma_fold_form_refused(pairs.deep_view(), i + 1);
                    }
                    return None;
                }
                host_id = Some(v);
            }
            i += 1;
        }
        assert(pairs.deep_view().take(pairs.len() as int) =~= pairs.deep_view());
        match username {
            Some(username) => Some(
                SamlAuthData { username, prelogin_cookie, portal_userauthcookie, token, host_id },
            ),
            None => None,
        }
    }

    /// Authentication data from a `globalprotectcallback:` URL: either a
    /// form-encoded CAS callback (`cas-as=1&un=...&token=...`), or a base64
    /// encoded HTML page holding the SAML tags.
    pub fn from_gpcallback(data: &str) -> (r: Result<SamlAuthData, AuthDataParseError>)
        ensures
            outcome_of(r) == read_gpcallback(data@),
    {
        proof {
            reveal_strlit("globalprotectcallback:");
            reveal_strlit("/");
        }
        let payload = strip_leading_str(data, "globalprotectcallback:");
        let payload = strip_leading_str(payload.as_str(), "/");
        assert(seq!['/'] =~= "/"@);
        if starts_with_str(payload.as_str(), "cas-as") {
            let form = match percent_decode(payload.as_str()) {
                Some(d) => d,
                None => payload,
            };
            match decode_form(form.as_str()) {
                Some(pairs) => match SamlAuthData::from_form_pairs(&pairs) {
                    Some(d) => Ok(d),
                    None => Err(
                        AuthDataParseError::Invalid("Invalid CAS auth data".to_string()),
                    ),
                },
                None => Err(AuthDataParseError::Invalid("Malformed CAS auth data".to_string())),
            }
        } else {
            match decode_base64(payload.as_str()) {
                Some(bytes) => match utf8_string(bytes) {
                    Some(html) => SamlAuthData::from_html(html.as_str()),
                    None => Err(AuthDataParseError::Invalid("Auth data is not UTF-8".to_string())),
                },
                None => Err(AuthDataParseError::Invalid("Malformed SAML auth data".to_string())),
            }
        }
    }

    pub fn username(&self) -> (r: &str)
        ensures
            r@ == self@.username,
    {
        self.username.as_str()
    }

    pub fn prelogin_cookie(&self) -> (r: Option<&str>)
        ensures
            opt_str_view(r) == self@.prelogin_cookie,
    {
        as_opt_str(&self.prelogin_cookie)
    }

    pub fn portal_userauthcookie(&self) -> (r: Option<&str>)
        ensures
            opt_str_view(r) == self@.portal_userauthcookie,
    {
        as_opt_str(&self.portal_userauthcookie)
    }

    pub fn token(&self) -> (r: Option<&str>)
        ensures
            opt_str_view(r) == self@.token,
    {
        as_opt_str(&self.token)
    }

    pub fn host_id(&self) -> (r: Option<&str>)
        ensures
            opt_str_view(r) == self@.host_id,
    {
        as_opt_str(&self.host_id)
    }
}

} // verus!
