//! The identity of the machine the client runs on: its name, a stable host
//! ID, a serial number and a MAC address.
use vstd::prelude::*;

use super::serial_number::{is_uuid_form, join_pairs, lemma_uuid_has_vmware_serial, vmware_from_uuid, vmware_from_uuid_spec};
use super::ClientOs;
use crate::text::{lemma_trim_fixed, ascii_lower, is_blank, is_blank_str, is_hex_char, is_hex_digit, is_ascii_upper, lower_char, opt_str_view, opt_view, replace_char, string_of, to_chars, trim, trim_bounds};

verus! {

broadcast use vstd::string::group_string_axioms;

/// A UUID in its hyphenated, lower-case text form.
pub open spec fn is_hyphenated_uuid(u: Seq<char>) -> bool {
    is_uuid_form(u) && forall|i: int| 0 <= i < u.len() ==> !is_ascii_upper(#[trigger] u[i])
}

/// The name-based (SHA-1, version 5) UUID of `name` in the DNS namespace,
/// as hyphenated lower-case text.
pub uninterp spec fn uuid_v5_dns(name: Seq<char>) -> Seq<char>;

/// `Uuid::new_v5(&Uuid::NAMESPACE_DNS, name.as_bytes()).hyphenated().to_string()`.
/// The contract names the result; that it is a hyphenated lower-case UUID is
/// what the `uuid` crate's `Hyphenated` formatter writes.
#[verifier::external_body]
fn uuid_v5_dns_text(name: &str) -> (r: String)
    ensures
        r@ == uuid_v5_dns(name@),
        is_hyphenated_uuid(r@),
{
    uuid::Uuid::new_v5(&uuid::Uuid::NAMESPACE_DNS, name.as_bytes()).hyphenated().to_string()
}

/// The UUID derived from a seed and a purpose: the name is `seed-purpose`.
pub open spec fn derived_uuid(seed: Seq<char>, purpose: Seq<char>) -> Seq<char> {
    uuid_v5_dns(seed + "-"@ + purpose)
}

/// The UUID derived from `seed` for `purpose` (the purpose's words already
/// joined by hyphens; empty for none).
pub fn derive_uuid_from_seed(seed: &str, purpose: &str) -> (r: String)
    ensures
        r@ == derived_uuid(seed@, purpose@),
        is_hyphenated_uuid(r@),
{
    let mut name = seed.to_string();
    name.append("-");
    name.append(purpose);
    proof {
        reveal_strlit("-");
    }
    uuid_v5_dns_text(name.as_str())
}

/// The first six bytes of a UUID (its hex digits without hyphens, two by
/// two), lower-cased and joined by `sep`.
pub open spec fn mac_from_uuid(u: Seq<char>, sep: char) -> Seq<char> {
    join_pairs(ascii_lower(u.subrange(0, 8) + u.subrange(9, 13)), sep)
}

/// The MAC-address form of the first six bytes of a UUID.
pub fn mac_from_uuid_text(uuid: &str, sep: char) -> (r: String)
    requires
        is_uuid_form(uuid@),
    ensures
        r@ == mac_from_uuid(uuid@, sep),
{
    let v = to_chars(uuid);
    let mut h: Vec<char> = Vec::new();
    let mut i: usize = 0;
    while i < 13
        invariant
            i <= 13,
            v@ == uuid@,
            v.len() == 36,
            i <= 8 ==> h@ == ascii_lower(v@.subrange(0, i as int)),
            i > 8 ==> h@ == ascii_lower(v@.subrange(0, 8) + v@.subrange(9, i as int)),
        decreases 13 - i,
    {
        if i == 8 {
            assert(v@.subrange(9, 9) =~= Seq::<char>::empty());
            assert(v@.subrange(0, 8) + v@.subrange(9, 9) =~= v@.subrange(0, 8));
            i = 9;
        } else {
            let c = lower_char(v[i]);
            h.push(c);
            if i < 8 {
                assert(ascii_lower(v@.subrange(0, i + 1)) =~= ascii_lower(
                    v@.subrange(0, i as int),
                ).push(c));
            } else {
                assert(ascii_lower(v@.subrange(0, 8) + v@.subrange(9, i + 1)) =~= ascii_lower(
                    v@.subrange(0, 8) + v@.subrange(9, i as int),
                ).push(c));
            }
            i += 1;
        }
    }
    let mut out: Vec<char> = Vec::new();
    let mut k: usize = 0;
    assert(h@.len() == 12);
    assert(h@.subrange(0, 12) =~= h@);
    assert(out@ + join_pairs(h@.subrange(0, 12), sep) =~= join_pairs(h@, sep));
    while 12 - k > 2
        invariant
            k <= 10,
            k % 2 == 0,
            h.len() == 12,
            out@ + join_pairs(h@.subrange(k as int, 12), sep) == join_pairs(h@, sep),
        decreases 12 - k,
    {
        let ghost rest = h@.subrange(k as int, 12);
        assert(rest.subrange(0, 2) =~= seq![h@[k as int], h@[k + 1]]);
        assert(rest.subrange(2, rest.len() as int) =~= h@.subrange(k + 2, 12));
        let ghost before = out@;
        out.push(h[k]);
        out.push(h[k + 1]);
        out.push(sep);
        assert(before + join_pairs(rest, sep) =~= out@ + join_pairs(h@.subrange(k + 2, 12), sep));
        k += 2;
    }
    let ghost before = out@;
    out.push(h[10]);
    out.push(h[11]);
    assert(out@ =~= before + h@.subrange(10, 12));
    assert(h@.subrange(0, 12) =~= h@);
    let n = out.len();
    assert(out@.subrange(0, n as int) =~= out@);
    string_of(&out, 0, n)
}

/// A MAC address in the colon form: six pairs of hex digits separated by
/// `:`.
pub open spec fn is_mac_colon_form(t: Seq<char>) -> bool {
    &&& t.len() == 17
    &&& forall|i: int|
        0 <= i < 17 ==> if i % 3 == 2 {
            #[trigger] t[i] == ':'
        } else {
            is_hex_digit(t[i])
        }
}

/// What `normalize_mac_colon` gives: the trimmed text with `-` read as `:`,
/// lower-cased, when it then has the colon form.
pub open spec fn normalized_mac(value: Seq<char>) -> Option<Seq<char>> {
    let t = replace_char(trim(value), '-', ':');
    if is_mac_colon_form(t) {
        Some(ascii_lower(t))
    } else {
        None
    }
}

/// Six hex pairs joined by `:` with no upper-case letter.
pub open spec fn is_lower_mac(t: Seq<char>) -> bool {
    is_mac_colon_form(t) && forall|i: int| 0 <= i < t.len() ==> !is_ascii_upper(#[trigger] t[i])
}

/// Lower-casing keeps the colon form and leaves no upper-case letter.
proof fn lemma_lower_colon_form(t: Seq<char>)
    requires
        is_mac_colon_form(t),
    ensures
        is_lower_mac(ascii_lower(t)),
{
    let l = ascii_lower(t);
    assert forall|i: int| 0 <= i < 17 implies (if i % 3 == 2 {
        #[trigger] l[i] == ':'
    } else {
        is_hex_digit(l[i])
    }) by {
        if i % 3 == 2 {
            assert(t[i] == ':');
        } else {
            assert(is_hex_digit(t[i]));
        }
    }
}

/// A MAC address in the lower-case colon form is its own normal form:
/// normalizing twice normalizes once.
pub proof fn lemma_normalized_mac_idempotent(v: Seq<char>)
    ensures
        normalized_mac(v) matches Some(m) ==> is_lower_mac(m) && normalized_mac(m) == Some(m),
{
    if let Some(m) = normalized_mac(v) {
        let t = replace_char(trim(v), '-', ':');
        lemma_lower_colon_form(t);
        assert(is_hex_digit(m[0]));
        assert(is_hex_digit(m[16]));
        lemma_trim_fixed(m);
        assert(replace_char(m, '-', ':') =~= m) by {
            assert forall|i: int| 0 <= i < m.len() implies #[trigger] m[i] != '-' by {
                if i % 3 == 2 {
                    assert(m[i] == ':');
                } else {
                    assert(is_hex_digit(m[i]));
                }
            }
        }
        assert(ascii_lower(m) =~= m);
    }
}

/// The MAC address taken from a UUID is in the lower-case colon form.
proof fn lemma_mac_from_uuid_form(u: Seq<char>)
    requires
        is_uuid_form(u),
    ensures
        is_lower_mac(mac_from_uuid(u, ':')),
{
    let h = u.subrange(0, 8) + u.subrange(9, 13);
    assert forall|i: int| 0 <= i < 12 implies is_hex_digit(#[trigger] h[i]) by {
        if i < 8 {
            assert(h[i] == u[i]);
        } else {
            assert(h[i] == u[i + 1]);
        }
    }
    let l = ascii_lower(h);
    assert forall|i: int| 0 <= i < 12 implies is_hex_digit(#[trigger] l[i]) && !is_ascii_upper(l[i]) by {
        assert(is_hex_digit(h[i]));
    }
    reveal_with_fuel(join_pairs, 7);
    let j = join_pairs(l, ':');
    assert(j =~= l.subrange(0, 2) + seq![':'] + l.subrange(2, 4) + seq![':'] + l.subrange(4, 6) + seq![':']
        + l.subrange(6, 8) + seq![':'] + l.subrange(8, 10) + seq![':'] + l.subrange(10, 12));
    assert forall|i: int| 0 <= i < 17 implies (if i % 3 == 2 {
        #[trigger] j[i] == ':'
    } else {
        is_hex_digit(j[i]) && !is_ascii_upper(j[i])
    }) by {
        if i % 3 != 2 {
            let k = (i / 3) * 2 + i % 3;
            assert(j[i] == l[k]);
        }
    }
}

/// A MAC address as six lower-case hex pairs joined by `:`, from a text
/// that separates the pairs by `:` or `-`; `None` for anything else.
pub fn normalize_mac_colon(value: &str) -> (r: Option<String>)
    ensures
        opt_view(r) == normalized_mac(value@),
{
    let v = to_chars(value);
    let (a, b) = trim_bounds(&v);
    if b - a != 17 {
        return None;
    }
    let ghost t = replace_char(trim(value@), '-', ':');
    let mut out: Vec<char> = Vec::new();
    let mut i: usize = 0;
    while i < 17
        invariant
            i <= 17,
            b - a == 17,
            a <= b <= v.len(),
            v@ == value@,
            v@.subrange(a as int, b as int) == trim(value@),
            t == replace_char(trim(value@), '-', ':'),
            out@ == ascii_lower(t.take(i as int)),
            forall|j: int|
                0 <= j < i ==> if j % 3 == 2 {
                    #[trigger] t[j] == ':'
                } else {
                    is_hex_digit(t[j])
                },
        decreases 17 - i,
    {
        let raw = v[a + i];
        let c = if raw == '-' {
            ':'
        } else {
            raw
        };
        assert(t[i as int] == c);
        let ok = if i % 3 == 2 {
            c == ':'
        } else {
            is_hex_char(c)
        };
        if !ok {
            return None;
        }
        let l = lower_char(c);
        out.push(l);
        assert(ascii_lower(t.take(i + 1)) =~= ascii_lower(t.take(i as int)).push(l));
        i += 1;
    }
    assert(t.take(17) =~= t);
    Some(string_of(&out, 0, 17))
}

/// The serial number derived from a host ID: the host ID's own VMware form
/// when it is a UUID, else that of the UUID derived from it.
pub open spec fn derived_serial(host_id: Seq<char>) -> Seq<char> {
    match vmware_from_uuid_spec(host_id) {
        Some(s) => s,
        None => vmware_from_uuid_spec(derived_uuid(host_id, "runtime-serialno"@))->Some_0,
    }
}

/// A VMware serial number is never empty.
proof fn lemma_vmware_serial_nonempty(u: Seq<char>)
    ensures
        vmware_from_uuid_spec(u) matches Some(s) ==> s.len() > 0,
{
    reveal_strlit("VMware-");
}

pub fn derive_serial_number(host_id: &str) -> (r: String)
    ensures
        r@ == derived_serial(host_id@),
        r@.len() > 0,
{
    proof {
        lemma_vmware_serial_nonempty(host_id@);
    }
    match vmware_from_uuid(host_id) {
        Some(s) => s,
        None => {
            proof {
                reveal_strlit("runtime-serialno");
            }
            let uuid = derive_uuid_from_seed(host_id, "runtime-serialno");
            proof {
                lemma_uuid_has_vmware_serial(uuid@);
                lemma_vmware_serial_nonempty(uuid@);
            }
            match vmware_from_uuid(uuid.as_str()) {
                Some(s) => s,
                None => {
                    assert(false);
                    String::new()
                },
            }
        },
    }
}

/// The MAC address derived from a host ID, in the colon form.
pub open spec fn derived_mac(host_id: Seq<char>) -> Seq<char> {
    mac_from_uuid(derived_uuid(host_id, "runtime-mac"@), ':')
}

pub fn derive_mac_address(host_id: &str) -> (r: String)
    ensures
        r@ == derived_mac(host_id@),
        is_lower_mac(r@),
{
    proof {
        reveal_strlit("runtime-mac");
    }
    let uuid = derive_uuid_from_seed(host_id, "runtime-mac");
    proof {
        lemma_mac_from_uuid_form(uuid@);
    }
    mac_from_uuid_text(uuid.as_str(), ':')
}

/// A UUID is not blank.
proof fn lemma_uuid_not_blank(u: Seq<char>)
    requires
        is_uuid_form(u),
    ensures
        !is_blank(u),
{
    assert(is_hex_digit(u[0]));
    assert(is_hex_digit(u[35]));
    lemma_trim_fixed(u);
}

/// A text that is not blank is not empty.
proof fn lemma_not_blank_nonempty(s: Seq<char>)
    requires
        !is_blank(s),
    ensures
        s.len() > 0,
{
    crate::text::lemma_trim_start(s);
    crate::text::lemma_trim_end(crate::text::trim_start(s));
}

/// The host ID used when none is known: derived from the host name.
pub open spec fn fallback_host_id(hostname: Seq<char>) -> Seq<char> {
    derived_uuid(hostname, "runtime-host-id"@)
}

/// `whoami::hostname`, `None` when the system does not report one. Nothing
/// is stated of the result: it is the machine's.
#[verifier::external_body]
fn system_hostname() -> (r: Option<String>) {
    whoami::hostname().ok()
}

/// A reported host name, or `localhost` when there is none.
pub open spec fn hostname_or_localhost(reported: Option<Seq<char>>) -> Seq<char> {
    match reported {
        Some(h) => h,
        None => "localhost"@,
    }
}

/// The machine's host name, `localhost` when it cannot be read.
pub fn fallback_hostname() -> (r: String)
    ensures
        exists|reported: Option<Seq<char>>| #[trigger] hostname_or_localhost(reported) == r@,
{
    let reported = system_hostname();
    let r = match &reported {
        Some(h) => h.clone(),
        None => "localhost".to_string(),
    };
    assert(hostname_or_localhost(opt_view(reported)) == r@);
    r
}

/// The machine identity that the client reports.
#[derive(Debug, PartialEq, Eq)]
pub struct HostIdentity {
    computer: String,
    host_id: String,
    serial_number: String,
    mac_address: String,
}

pub struct HostIdentityView {
    pub computer: Seq<char>,
    pub host_id: Seq<char>,
    pub serial_number: Seq<char>,
    pub mac_address: Seq<char>,
}

impl View for HostIdentity {
    type V = HostIdentityView;

    closed spec fn view(&self) -> HostIdentityView {
        HostIdentityView {
            computer: self.computer@,
            host_id: self.host_id@,
            serial_number: self.serial_number@,
            mac_address: self.mac_address@,
        }
    }
}

impl Clone for HostIdentity {
    fn clone(&self) -> (r: Self)
        ensures
            r@ == self@,
    {
        HostIdentity {
            computer: self.computer.clone(),
            host_id: self.host_id.clone(),
            serial_number: self.serial_number.clone(),
            mac_address: self.mac_address.clone(),
        }
    }
}

/// An identity whose parts are all filled in: a host ID that is not blank,
/// a serial number that is not empty, and a MAC address of six lower-case
/// hex pairs joined by `:`.
pub open spec fn identity_well_formed(v: HostIdentityView) -> bool {
    &&& !is_blank(v.host_id)
    &&& v.serial_number.len() > 0
    &&& is_lower_mac(v.mac_address)
}

/// `value`, or `fallback` when `value` is blank.
pub open spec fn non_empty(value: Seq<char>, fallback: Seq<char>) -> Seq<char> {
    if is_blank(value) {
        fallback
    } else {
        value
    }
}

/// The identity made of the given parts: a blank host ID or computer name
/// falls back to the host name, a blank serial number to the one derived
/// from the host ID, and a MAC address that does not read as one to the
/// one derived from the host ID.
pub open spec fn identity_from_parts(
    computer: Seq<char>,
    host_id: Seq<char>,
    serialno: Seq<char>,
    mac_addr: Seq<char>,
    hostname: Seq<char>,
) -> HostIdentityView {
    let host_id = non_empty(host_id, fallback_host_id(hostname));
    HostIdentityView {
        computer: non_empty(computer, hostname),
        host_id,
        serial_number: non_empty(serialno, derived_serial(host_id)),
        mac_address: match normalized_mac(mac_addr) {
            Some(m) => m,
            None => derived_mac(host_id),
        },
    }
}

impl HostIdentity {
    /// The identity of this machine, with the host ID it reports.
    pub fn collect() -> (r: Self)
        ensures
            identity_well_formed(r@),
            exists|h1: Seq<char>, mac: Option<Seq<char>>, h2: Seq<char>|
                #[trigger] collected_identity(None, h1, mac, h2) == r@,
    {
        HostIdentity::collect_with_host_id(None)
    }

    /// The identity of this machine; a non-blank `host_id` is used as its
    /// host ID.
    pub fn collect_with_host_id(host_id: Option<&str>) -> (r: Self)
        ensures
            identity_well_formed(r@),
            match host_id {
                Some(h) => !is_blank(h@) ==> r@.host_id == h@,
                None => true,
            },
            exists|h1: Seq<char>, mac: Option<Seq<char>>, h2: Seq<char>|
                #[trigger] collected_identity(opt_str_view(host_id), h1, mac, h2) == r@,
    {
        let snapshot = RuntimeNativeHostIdentity::collect(host_id);
        let ghost parts = snapshot_parts(snapshot);
        let ghost (h1, mac) = choose|h1: Seq<char>, mac: Option<Seq<char>>|
            #[trigger] native_snapshot(opt_str_view(host_id), None, None, None, None, h1, mac_colon_of(mac))
                == parts;
        let r = snapshot.into_host_identity();
        let ghost h2 = choose|h2: Seq<char>| r@ == snapshot_identity(parts.0, parts.1, parts.2, parts.3, h2);
        assert(collected_identity(opt_str_view(host_id), h1, mac, h2) == r@);
        r
    }

    /// An identity of the given parts; what is blank or unreadable is filled
    /// in from the host name, whatever it is.
    pub fn new(computer: String, host_id: String, serialno: String, mac_addr: String) -> (r: Self)
        ensures
            identity_well_formed(r@),
            exists|hostname: Seq<char>|
                r@ == identity_from_parts(computer@, host_id@, serialno@, mac_addr@, hostname),
    {
        let hostname = fallback_hostname();
        let r = HostIdentity::from_parts_with_hostname(computer, host_id, serialno, mac_addr, hostname);
        assert(r@ == identity_from_parts(computer@, host_id@, serialno@, mac_addr@, hostname@));
        r
    }

    /// An identity of the given parts, filled in from the given host name.
    pub fn from_parts_with_hostname(
        computer: String,
        host_id: String,
        serialno: String,
        mac_addr: String,
        hostname: String,
    ) -> (r: Self)
        ensures
            r@ == identity_from_parts(computer@, host_id@, serialno@, mac_addr@, hostname@),
            identity_well_formed(r@),
            !is_blank(hostname@) ==> !is_blank(r@.computer),
    {
        let host_id = if is_blank_str(host_id.as_str()) {
            proof {
                reveal_strlit("runtime-host-id");
            }
            let u = derive_uuid_from_seed(hostname.as_str(), "runtime-host-id");
            proof {
                lemma_uuid_not_blank(u@);
            }
            u
        } else {
            host_id
        };
        let serial_number = if is_blank_str(serialno.as_str()) {
            derive_serial_number(host_id.as_str())
        } else {
            proof {
                lemma_not_blank_nonempty(serialno@);
            }
            serialno
        };
        let mac_address = match normalize_mac_colon(mac_addr.as_str()) {
            Some(m) => {
                proof {
                    lemma_normalized_mac_idempotent(mac_addr@);
                }
                m
            },
            None => derive_mac_address(host_id.as_str()),
        };
        let computer = if is_blank_str(computer.as_str()) {
            hostname
        } else {
            computer
        };
        HostIdentity { computer, host_id, serial_number, mac_address }
    }

    pub fn computer(&self) -> (r: &str)
        ensures
            r@ == self@.computer,
    {
        self.computer.as_str()
    }

    pub fn host_id(&self) -> (r: &str)
        ensures
            r@ == self@.host_id,
    {
        self.host_id.as_str()
    }

    pub fn serialno(&self) -> (r: &str)
        ensures
            r@ == self@.serial_number,
    {
        self.serial_number.as_str()
    }

    pub fn mac_addr(&self) -> (r: &str)
        ensures
            r@ == self@.mac_address,
    {
        self.mac_address.as_str()
    }

    /// The same identity under another computer name; a blank one is
    /// ignored.
    pub fn with_computer(self, computer: String) -> (r: Self)
        ensures
            r@ == (HostIdentityView { computer: non_empty(computer@, self@.computer), ..self@ }),
    {
        if is_blank_str(computer.as_str()) {
            self
        } else {
            HostIdentity { computer, ..self }
        }
    }

    /// The operating system this process runs on.
    pub fn runtime_os() -> (r: ClientOs) {
        super::runtime_client_os()
    }

    /// Two identities are the same when all their parts are.
    pub fn same_as(&self, other: &HostIdentity) -> (r: bool)
        ensures
            r == (self@ == other@),
    {
        self.computer == other.computer && self.host_id == other.host_id && self.serial_number
            == other.serial_number && self.mac_address == other.mac_address
    }
}

/// What was read of the machine's identity before it is completed.
#[derive(Debug)]
pub struct NativeHostIdentitySnapshot {
    pub host_id: String,
    pub computer: String,
    pub serial_number: Option<String>,
    pub mac_address: Option<String>,
}

/// The identity a snapshot completes to, given the host name.
pub open spec fn snapshot_identity(
    host_id: Seq<char>,
    computer: Seq<char>,
    serial_number: Option<Seq<char>>,
    mac_address: Option<Seq<char>>,
    hostname: Seq<char>,
) -> HostIdentityView {
    let host_id = non_empty(host_id, fallback_host_id(hostname));
    identity_from_parts(
        computer,
        host_id,
        match serial_number {
            Some(s) => s,
            None => derived_serial(host_id),
        },
        match mac_address {
            Some(m) => m,
            None => derived_mac(host_id),
        },
        hostname,
    )
}

impl NativeHostIdentitySnapshot {
    /// The identity this snapshot describes, its gaps filled in from the
    /// machine's host name.
    pub fn into_host_identity(self) -> (r: HostIdentity)
        ensures
            identity_well_formed(r@),
            !is_blank(self.host_id@) ==> r@.host_id == self.host_id@,
            exists|hostname: Seq<char>|
                r@ == snapshot_identity(
                    self.host_id@,
                    self.computer@,
                    opt_view(self.serial_number),
                    opt_view(self.mac_address),
                    hostname,
                ),
    {
        let hostname = fallback_hostname();
        let ghost snapshot = (self.host_id@, self.computer@, opt_view(self.serial_number), opt_view(self.mac_address));
        let r = self.into_host_identity_with_hostname(hostname);
        assert(r@ == snapshot_identity(snapshot.0, snapshot.1, snapshot.2, snapshot.3, hostname@));
        r
    }

    /// The identity this snapshot describes, its gaps filled in from the
    /// given host name.
    pub fn into_host_identity_with_hostname(self, hostname: String) -> (r: HostIdentity)
        ensures
            identity_well_formed(r@),
            r@ == snapshot_identity(
                self.host_id@,
                self.computer@,
                opt_view(self.serial_number),
                opt_view(self.mac_address),
                hostname@,
            ),
    {
        let host_id = if is_blank_str(self.host_id.as_str()) {
            proof {
                reveal_strlit("runtime-host-id");
            }
            derive_uuid_from_seed(hostname.as_str(), "runtime-host-id")
        } else {
            self.host_id
        };
        let serial_number = match self.serial_number {
            Some(s) => s,
            None => derive_serial_number(host_id.as_str()),
        };
        let mac_address = match self.mac_address {
            Some(m) => m,
            None => derive_mac_address(host_id.as_str()),
        };
        HostIdentity::from_parts_with_hostname(self.computer, host_id, serial_number, mac_address, hostname)
    }
}

/// The host ID to use: a non-blank override, else what `collect` finds.
pub fn resolve_host_id<F: FnOnce() -> String>(host_id_override: Option<&str>, collect: F) -> (r: String)
    requires
        match host_id_override {
            Some(h) => is_blank(h@) ==> call_requires(collect, ()),
            None => call_requires(collect, ()),
        },
    ensures
        match host_id_override {
            Some(h) => if is_blank(h@) {
                call_ensures(collect, (), r)
            } else {
                r@ == h@
            },
            None => call_ensures(collect, (), r),
        },
{
    match host_id_override {
        Some(h) => {
            if is_blank_str(h) {
                collect()
            } else {
                h.to_string()
            }
        },
        None => collect(),
    }
}

/// The contents of the Linux files that identify a machine, as read (`None`
/// for a file that could not be read).
#[derive(Debug)]
pub struct LinuxIdentityFiles {
    /// `/sys/class/dmi/id/product_uuid`
    pub product_uuid: Option<String>,
    /// `/sys/class/dmi/id/product_serial`
    pub product_serial: Option<String>,
    /// `/etc/machine-id`
    pub machine_id: Option<String>,
    /// `/var/lib/dbus/machine-id`
    pub dbus_machine_id: Option<String>,
}

/// A value read from an identity file that identifies something: not empty
/// and not a firmware placeholder.
pub open spec fn is_usable_identity_value(v: Seq<char>) -> bool {
    v.len() > 0 && v != "None"@ && v != "To Be Filled By O.E.M."@
}

/// The usable, trimmed contents of an identity file.
pub open spec fn identity_file_value(contents: Option<Seq<char>>) -> Option<Seq<char>> {
    match contents {
        Some(c) => if is_usable_identity_value(trim(c)) {
            Some(trim(c))
        } else {
            None
        },
        None => None,
    }
}

pub fn read_identity_value(contents: &Option<String>) -> (r: Option<String>)
    ensures
        opt_view(r) == identity_file_value(opt_view(*contents)),
{
    match contents {
        Some(c) => {
            let t = crate::text::trim_str(c.as_str());
            if !t.as_str().is_empty() && !crate::text::str_eq(t.as_str(), "None")
                && !crate::text::str_eq(t.as_str(), "To Be Filled By O.E.M.") {
                Some(t)
            } else {
                None
            }
        },
        None => None,
    }
}

/// `Uuid::parse_str` followed by the hyphenated lower-case text form.
pub uninterp spec fn uuid_parsed(s: Seq<char>) -> Option<Seq<char>>;

/// `uuid::Uuid::parse_str(s).ok().map(|u| u.hyphenated().to_string())`: the
/// contract names the result, and a parsed UUID prints in the hyphenated
/// lower-case form.
#[verifier::external_body]
fn parse_uuid_text(s: &str) -> (r: Option<String>)
    ensures
        opt_view(r) == uuid_parsed(s@),
        match r {
            Some(u) => is_hyphenated_uuid(u@),
            None => true,
        },
{
    uuid::Uuid::parse_str(s).ok().map(|u| u.hyphenated().to_string())
}

/// A UUID as the identity files hold it, trimmed, in the hyphenated
/// lower-case form; `None` when it does not parse.
pub fn normalize_uuid(value: &str) -> (r: Option<String>)
    ensures
        opt_view(r) == uuid_parsed(trim(value@)),
        match r {
            Some(u) => is_hyphenated_uuid(u@),
            None => true,
        },
{
    let t = crate::text::trim_str(value);
    parse_uuid_text(t.as_str())
}

/// The MAC address of the default network interface, as `netdev` reports
/// it; nothing is stated of it: it is the machine's.
#[verifier::external_body]
fn default_interface_mac() -> (r: Option<String>) {
    netdev::get_default_interface().ok().and_then(|iface| iface.mac_addr.map(|mac| mac.address()))
}

/// A MAC address as an interface reports it, in the colon form; `None`
/// when there is none or it does not read as one.
pub open spec fn mac_colon_of(reported: Option<Seq<char>>) -> Option<Seq<char>> {
    match reported {
        Some(v) => normalized_mac(v),
        None => None,
    }
}

/// The default interface's MAC address in the colon form, when it has one:
/// what the interface reports, normalized.
pub fn primary_mac_colon() -> (r: Option<String>)
    ensures
        exists|reported: Option<Seq<char>>| #[trigger] mac_colon_of(reported) == opt_view(r),
{
    let reported = default_interface_mac();
    let r = match &reported {
        Some(mac) => normalize_mac_colon(mac.as_str()),
        None => None,
    };
    assert(mac_colon_of(opt_view(reported)) == opt_view(r));
    r
}

/// The host ID that the Linux files give: the product UUID when it parses,
/// else the UUID derived from the machine ID, the D-Bus machine ID or the
/// host name, in that order.
pub open spec fn linux_host_id(files: (Option<Seq<char>>, Option<Seq<char>>, Option<Seq<char>>), hostname: Seq<char>) -> Seq<char> {
    let (product_uuid, machine_id, dbus_machine_id) = files;
    let parsed = match identity_file_value(product_uuid) {
        Some(v) => uuid_parsed(trim(v)),
        None => None,
    };
    match parsed {
        Some(u) => u,
        None => match identity_file_value(machine_id) {
            Some(m) => derived_uuid(m, Seq::empty()),
            None => match identity_file_value(dbus_machine_id) {
                Some(d) => derived_uuid(d, Seq::empty()),
                None => derived_uuid(hostname, Seq::empty()),
            },
        },
    }
}

/// The Linux serial number: the product serial, else the product UUID.
pub open spec fn linux_serial(product_serial: Option<Seq<char>>, product_uuid: Option<Seq<char>>) -> Option<Seq<char>> {
    match identity_file_value(product_serial) {
        Some(s) => Some(s),
        None => identity_file_value(product_uuid),
    }
}

impl LinuxIdentityFiles {
    /// No file could be read.
    pub fn none() -> (r: Self)
        ensures
            r.product_uuid is None,
            r.product_serial is None,
            r.machine_id is None,
            r.dbus_machine_id is None,
    {
        LinuxIdentityFiles { product_uuid: None, product_serial: None, machine_id: None, dbus_machine_id: None }
    }

    /// The host ID these files give.
    pub fn host_id(&self, hostname: &str) -> (r: String)
        ensures
            r@ == linux_host_id(
                (opt_view(self.product_uuid), opt_view(self.machine_id), opt_view(self.dbus_machine_id)),
                hostname@,
            ),
    {
        let parsed = match read_identity_value(&self.product_uuid) {
            Some(v) => normalize_uuid(v.as_str()),
            None => None,
        };
        proof {
            reveal_strlit("");
            assert(""@ =~= Seq::<char>::empty());
        }
        match parsed {
            Some(u) => u,
            None => match read_identity_value(&self.machine_id) {
                Some(m) => derive_uuid_from_seed(m.as_str(), ""),
                None => match read_identity_value(&self.dbus_machine_id) {
                    Some(d) => derive_uuid_from_seed(d.as_str(), ""),
                    None => derive_uuid_from_seed(hostname, ""),
                },
            },
        }
    }

    /// The serial number these files give.
    pub fn serial_number(&self) -> (r: Option<String>)
        ensures
            opt_view(r) == linux_serial(opt_view(self.product_serial), opt_view(self.product_uuid)),
    {
        match read_identity_value(&self.product_serial) {
            Some(s) => Some(s),
            None => read_identity_value(&self.product_uuid),
        }
    }
}

/// A snapshot's parts by their views: host ID, computer name, serial number
/// and MAC address.
pub open spec fn snapshot_parts(s: NativeHostIdentitySnapshot) -> (Seq<char>, Seq<char>, Option<Seq<char>>, Option<Seq<char>>) {
    (s.host_id@, s.computer@, opt_view(s.serial_number), opt_view(s.mac_address))
}

/// The snapshot that the identity files, the host name and the interface's
/// MAC address give: a non-blank override is the host ID, else the files
/// decide it; the computer is the host name; the serial number is the
/// files'.
pub open spec fn native_snapshot(
    host_id_override: Option<Seq<char>>,
    product_uuid: Option<Seq<char>>,
    product_serial: Option<Seq<char>>,
    machine_id: Option<Seq<char>>,
    dbus_machine_id: Option<Seq<char>>,
    hostname: Seq<char>,
    mac_address: Option<Seq<char>>,
) -> (Seq<char>, Seq<char>, Option<Seq<char>>, Option<Seq<char>>) {
    let from_files = linux_host_id((product_uuid, machine_id, dbus_machine_id), hostname);
    let host_id = match host_id_override {
        Some(h) => if is_blank(h) {
            from_files
        } else {
            h
        },
        None => from_files,
    };
    (host_id, hostname, linux_serial(product_serial, product_uuid), mac_address)
}

/// The identity collected on this machine when no identity file could be
/// read: the snapshot from host name `h1` and the reported MAC `mac`,
/// completed with host name `h2`.
pub open spec fn collected_identity(
    host_id_override: Option<Seq<char>>,
    h1: Seq<char>,
    mac: Option<Seq<char>>,
    h2: Seq<char>,
) -> HostIdentityView {
    let s = native_snapshot(host_id_override, None, None, None, None, h1, mac_colon_of(mac));
    snapshot_identity(s.0, s.1, s.2, s.3, h2)
}

/// Collects what the running machine says of its identity.
#[derive(Debug)]
pub struct RuntimeNativeHostIdentity;

impl RuntimeNativeHostIdentity {
    pub fn runtime_os() -> (r: ClientOs) {
        super::runtime_client_os()
    }

    /// The machine's identity as far as the host name and the default
    /// interface tell it; a non-blank override is the host ID.
    pub fn collect(host_id_override: Option<&str>) -> (r: NativeHostIdentitySnapshot)
        ensures
            match host_id_override {
                Some(h) => !is_blank(h@) ==> r.host_id@ == h@,
                None => true,
            },
            exists|hostname: Seq<char>, mac: Option<Seq<char>>|
                #[trigger] native_snapshot(opt_str_view(host_id_override), None, None, None, None, hostname, mac_colon_of(mac))
                    == snapshot_parts(r),
    {
        let files = LinuxIdentityFiles::none();
        RuntimeNativeHostIdentity::collect_with_files(host_id_override, &files)
    }

    /// The machine's identity from the Linux identity files, the host name
    /// and the default interface; a non-blank override is the host ID.
    pub fn collect_with_files(host_id_override: Option<&str>, files: &LinuxIdentityFiles) -> (r: NativeHostIdentitySnapshot)
        ensures
            match host_id_override {
                Some(h) => !is_blank(h@) ==> r.host_id@ == h@,
                None => true,
            },
            exists|hostname: Seq<char>, mac: Option<Seq<char>>|
                #[trigger] native_snapshot(
                    opt_str_view(host_id_override),
                    opt_view(files.product_uuid),
                    opt_view(files.product_serial),
                    opt_view(files.machine_id),
                    opt_view(files.dbus_machine_id),
                    hostname,
                    mac_colon_of(mac),
                ) == snapshot_parts(r),
    {
        let hostname = fallback_hostname();
        let mac = primary_mac_colon();
        let ghost hv = hostname@;
        let ghost reported = choose|reported: Option<Seq<char>>| #[trigger] mac_colon_of(reported) == opt_view(mac);
        let r = RuntimeNativeHostIdentity::snapshot_from(host_id_override, files, hostname, mac);
        assert(native_snapshot(
            opt_str_view(host_id_override),
            opt_view(files.product_uuid),
            opt_view(files.product_serial),
            opt_view(files.machine_id),
            opt_view(files.dbus_machine_id),
            hv,
            mac_colon_of(reported),
        ) == snapshot_parts(r));
        r
    }

    /// The snapshot that the files, the host name and the interface's MAC
    /// address give.
    pub fn snapshot_from(
        host_id_override: Option<&str>,
        files: &LinuxIdentityFiles,
        hostname: String,
        mac_address: Option<String>,
    ) -> (r: NativeHostIdentitySnapshot)
        ensures
            r.host_id@ == match host_id_override {
                Some(h) => if is_blank(h@) {
                    linux_host_id(
                        (opt_view(files.product_uuid), opt_view(files.machine_id), opt_view(files.dbus_machine_id)),
                        hostname@,
                    )
                } else {
                    h@
                },
                None => linux_host_id(
                    (opt_view(files.product_uuid), opt_view(files.machine_id), opt_view(files.dbus_machine_id)),
                    hostname@,
                ),
            },
            r.computer@ == hostname@,
            opt_view(r.serial_number) == linux_serial(opt_view(files.product_serial), opt_view(files.product_uuid)),
            opt_view(r.mac_address) == opt_view(mac_address),
    {
        let host_id = match host_id_override {
            Some(h) => if is_blank_str(h) {
                files.host_id(hostname.as_str())
            } else {
                h.to_string()
            },
            None => files.host_id(hostname.as_str()),
        };
        NativeHostIdentitySnapshot {
            host_id,
            computer: hostname,
            serial_number: files.serial_number(),
            mac_address,
        }
    }
}

} // verus!
