//! Client-side checks (CSC): what the portal asks the client to report of
//! the host, and the parameters that carry the report.
use vstd::prelude::*;

use crate::gp_params::GpParams;
use crate::os_profile::client_os_name;
use crate::params::ParamMap;
use crate::text::{decimal, decimal_text, replace_char, replace_char_str};
use crate::portal::csc_report::CscBuildSummary;
use crate::xml::XmlElement;

verus! {

broadcast use vstd::string::group_string_axioms;

/// The placeholder that stands for the digest while the report is hashed.
pub const DIGEST_PLACEHOLDER: &'static str = "__#_PAN_CSC_DATA_DIGEST_#__";

/// The client-side check report and what it is sent with.
#[derive(Debug)]
pub struct CscRequest {
    pub auth_cookie: String,
    pub config_digest: String,
    pub csc_digest: String,
    pub csc_data: String,
    pub host_id: String,
    pub serial_number: String,
    pub summary: CscBuildSummary,
}

/// The milliseconds since the Unix epoch, `0` before it. Nothing is stated
/// of the result: it is the clock's.
#[verifier::external_body]
fn unix_time_millis() -> (r: u128) {
    std::time::SystemTime::now().duration_since(std::time::UNIX_EPOCH).map(|d| d.as_millis()).unwrap_or_default()
}

/// The SWG nonce for a time in milliseconds: its remainder by 2^31 - 1, in
/// decimal.
pub open spec fn nonce_of_millis(millis: u128) -> Seq<char> {
    decimal((millis % 2147483647) as nat)
}

pub fn nonce_from_millis(millis: u128) -> (r: String)
    ensures
        r@ == nonce_of_millis(millis),
{
    let n = (millis % 2147483647) as u64;
    decimal_text(n)
}

/// The SWG nonce for the current time.
pub fn swg_nonce() -> (r: String)
    ensures
        exists|millis: u128| r@ == nonce_of_millis(millis),
{
    let millis = unix_time_millis();
    let r = nonce_from_millis(millis);
    assert(r@ == nonce_of_millis(millis));
    r
}

/// The portal answered with the criteria of client-side checks.
pub fn is_config_criteria(root: &XmlElement) -> (r: bool)
    ensures
        r == (root.name@ == "config-criteria"@),
{
    crate::text::str_eq(root.name.as_str(), "config-criteria")
}

pub open spec fn yes_no_of(b: bool) -> Seq<char> {
    if b {
        "yes"@
    } else {
        "no"@
    }
}

pub fn yes_no(value: bool) -> (r: &'static str)
    ensures
        r@ == yes_no_of(value),
{
    if value {
        "yes"
    } else {
        "no"
    }
}

/// The `client-os` of a report: the operating-system text with `+` for
/// spaces.
pub fn client_os_report_value(gp_params: &GpParams) -> (r: String)
    ensures
        r@ == replace_char(gp_params@.os_profile.os_version, ' ', '+'),
{
    let v = match gp_params.os_version() {
        Some(v) => v,
        None => gp_params.client_os(),
    };
    replace_char_str(v, ' ', '+')
}

/// The parameters that carry a client-side check report.
pub open spec fn csc_param_map(
    req_host_id: Seq<char>,
    req_serial: Seq<char>,
    req_cookie: Seq<char>,
    req_config_digest: Seq<char>,
    req_csc_digest: Seq<char>,
    req_data: Seq<char>,
    username: Seq<char>,
    client_os: Seq<char>,
    os_version: Seq<char>,
    nonce: Seq<char>,
) -> Map<Seq<char>, Seq<char>> {
    Map::empty().insert("user"@, username).insert("clientVer"@, "4100"@).insert("clientos"@, client_os).insert(
        "os-version"@,
        os_version,
    ).insert("hostid"@, req_host_id).insert("serialno"@, req_serial).insert("portal-cc-auth-cookie"@, req_cookie).insert(
        "config-digest"@,
        req_config_digest,
    ).insert("csc-digest"@, req_csc_digest).insert("csc-data"@, req_data).insert("swg-auth-token"@, "0"@).insert(
        "swg-nonce"@,
        nonce,
    )
}

/// The parameters of a configuration request that carries a client-side
/// check report.
pub fn csc_params(req: &CscRequest, username: &str, gp_params: &GpParams, swg_nonce: &str) -> (r: ParamMap)
    ensures
        r@ == csc_param_map(
            req.host_id@,
            req.serial_number@,
            req.auth_cookie@,
            req.config_digest@,
            req.csc_digest@,
            req.csc_data@,
            username@,
            client_os_name(gp_params@.os_profile.client_os),
            gp_params@.os_profile.os_version,
            swg_nonce@,
        ),
{
    let mut params = ParamMap::new();
    params.insert("user", username);
    params.insert("clientVer", "4100");
    params.insert("clientos", gp_params.client_os());
    let os_version = match gp_params.os_version() {
        Some(v) => v,
        None => "",
    };
    params.insert("os-version", os_version);
    params.insert("hostid", req.host_id.as_str());
    params.insert("serialno", req.serial_number.as_str());
    params.insert("portal-cc-auth-cookie", req.auth_cookie.as_str());
    params.insert("config-digest", req.config_digest.as_str());
    params.insert("csc-digest", req.csc_digest.as_str());
    params.insert("csc-data", req.csc_data.as_str());
    params.insert("swg-auth-token", "0");
    params.insert("swg-nonce", swg_nonce);
    params
}

/// The MD5 digest of the bytes.
pub uninterp spec fn md5_digest(bytes: Seq<u8>) -> Seq<u8>;

/// `md5::compute`: the 16 bytes of the digest. The contract names the
/// result.
#[verifier::external_body]
pub(crate) fn md5_bytes(bytes: &[u8]) -> (r: Vec<u8>)
    ensures
        r@ == md5_digest(bytes@),
        r@.len() == 16,
{
    md5::compute(bytes).0.to_vec()
}

pub open spec fn hex_digit_char(d: nat) -> char {
    if d < 10 {
        (48 + d) as char
    } else {
        (87 + d) as char
    }
}

/// A byte in lower-case hex without padding (`{:x}`): one digit below 16.
pub open spec fn byte_hex(b: u8) -> Seq<char> {
    if b < 16 {
        seq![hex_digit_char(b as nat)]
    } else {
        seq![hex_digit_char((b / 16) as nat), hex_digit_char((b % 16) as nat)]
    }
}

pub open spec fn bytes_hex(bytes: Seq<u8>) -> Seq<char>
    decreases bytes.len(),
{
    if bytes.len() == 0 {
        Seq::empty()
    } else {
        bytes_hex(bytes.drop_last()) + byte_hex(bytes.last())
    }
}

pub(crate) fn hex_char(d: u8) -> (r: char)
    requires
        d < 16,
    ensures
        r == hex_digit_char(d as nat),
{
    if d < 10 {
        (48u8 + d) as char
    } else {
        (87u8 + d) as char
    }
}

/// The digest as the portal writes it: each byte in lower-case hex without
/// padding.
pub fn pan_md5_hex(value: &[u8]) -> (r: String)
    ensures
        r@ == bytes_hex(md5_digest(value@)),
{
    let digest = md5_bytes(value);
    let mut out: Vec<char> = Vec::new();
    let mut i: usize = 0;
    while i < digest.len()
        invariant
            i <= digest.len(),
            out@ == bytes_hex(digest@.take(i as int)),
        decreases digest.len() - i,
    {
        let b = digest[i];
        let ghost before = out@;
        if b < 16 {
            out.push(hex_char(b));
        } else {
            out.push(hex_char(b / 16));
            out.push(hex_char(b % 16));
        }
        assert(digest@.take(i + 1).drop_last() =~= digest@.take(i as int));
        assert(out@ =~= before + byte_hex(b));
        i += 1;
    }
    assert(digest@.take(digest.len() as int) =~= digest@);
    let n = out.len();
    assert(out@.subrange(0, n as int) =~= out@);
    crate::text::string_of(&out, 0, n)
}

} // verus!
