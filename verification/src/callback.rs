//! The `globalprotectcallback:` URL handler: which callbacks are accepted,
//! when the handler is registered, and the local protocol that forwards a
//! callback to the waiting authentication.
use vstd::prelude::*;

use crate::text::{str_eq, to_chars, unit_result_view, utf8_len};

verus! {

broadcast use vstd::string::group_string_axioms;

/// The URL scheme of authentication callbacks.
pub const CALLBACK_SCHEME: &'static str = "globalprotectcallback";

/// The largest callback accepted, in bytes.
pub const MAX_CALLBACK_SIZE: usize = 1048576;

/// The protocol's version.
pub const PROTOCOL_VERSION: u8 = 1;

pub const STATUS_ACCEPTED: u8 = 0;

pub const STATUS_INVALID_CALLBACK: u8 = 1;

pub const STATUS_UNSUPPORTED_VERSION: u8 = 2;

/// A callback that is accepted: at most 1 MiB, of the form
/// `globalprotectcallback:<data>` with data after the first colon.
pub open spec fn valid_callback(callback: Seq<char>) -> bool {
    &&& utf8_len(callback) <= 1048576
    &&& exists|i: int| first_colon(callback, i) && callback.take(i) == "globalprotectcallback"@ && i + 1 < callback.len()
}

pub open spec fn first_colon(s: Seq<char>, i: int) -> bool {
    0 <= i < s.len() && s[i] == ':' && forall|j: int| 0 <= j < i ==> s[j] != ':'
}

/// Checks that a callback can be forwarded; the error says why not.
pub fn validate_callback(callback: &str) -> (r: Result<(), String>)
    ensures
        r is Ok <==> valid_callback(callback@),
{
    if crate::text::byte_len(callback) > MAX_CALLBACK_SIZE {
        return Err("Authentication callback exceeds the maximum supported size".to_string());
    }
    let v = to_chars(callback);
    let mut i: usize = 0;
    while i < v.len() && v[i] != ':'
        invariant
            i <= v.len(),
            v@ == callback@,
            forall|j: int| 0 <= j < i ==> v@[j] != ':',
        decreases v.len() - i,
    {
        i += 1;
    }
    if i == v.len() {
        assert(!exists|k: int| first_colon(callback@, k)) by {
            if exists|k: int| first_colon(callback@, k) {
                let k = choose|k: int| first_colon(callback@, k);
                assert(v@[k] != ':');
            }
        }
        return Err("Authentication callback URL is invalid".to_string());
    }
    assert(first_colon(callback@, i as int));
    let scheme = crate::text::string_of(&v, 0, i);
    assert(v@.subrange(0, i as int) =~= callback@.take(i as int));
    proof {
        assert forall|k: int| first_colon(callback@, k) implies k == i by {
            if k < i {
                assert(v@[k] != ':');
            } else if k > i {
                assert(callback@[i as int] == ':');
            }
        }
    }
    if !str_eq(scheme.as_str(), CALLBACK_SCHEME) || i + 1 == v.len() {
        return Err("Authentication callback URL is invalid".to_string());
    }
    Ok(())
}

/// The error when another program owns the callback scheme.
pub open spec fn owned_by_message(handler: Seq<char>) -> Seq<char> {
    "The globalprotectcallback URL scheme is owned by "@ + handler
}

/// Whether the `globalprotectcallback` handler needs registering: not when
/// `gpauth` already owns it; yes when nothing or `gpgui` owns it; another
/// owner is left alone and reported.
pub open spec fn register_decision(current: Seq<char>) -> Option<bool> {
    if current == "gpauth.desktop"@ {
        Some(false)
    } else if current.len() == 0 || current == "gpgui.desktop"@ {
        Some(true)
    } else {
        None
    }
}

pub fn should_register_handler(current_handler: &str) -> (r: Result<bool, String>)
    ensures
        match r {
            Ok(b) => register_decision(current_handler@) == Some(b),
            Err(e) => register_decision(current_handler@) is None && e@ == owned_by_message(current_handler@),
        },
{
    proof {
        reveal_strlit("gpauth.desktop");
    }
    if str_eq(current_handler, "gpauth.desktop") {
        Ok(false)
    } else if current_handler.is_empty() || str_eq(current_handler, "gpgui.desktop") {
        Ok(true)
    } else {
        let mut msg = "The globalprotectcallback URL scheme is owned by ".to_string();
        msg.append(current_handler);
        Err(msg)
    }
}

/// The outcome of registering `gpauth` as the handler: the registration
/// command must have succeeded, and the handler queried afterwards must be
/// `gpauth.desktop`.
pub fn confirm_handler_registration(succeeded: bool, handler_after: &str) -> (r: Result<(), String>)
    ensures
        r is Ok <==> (succeeded && handler_after@ == "gpauth.desktop"@),
        !succeeded ==> (r matches Err(e) && e@ == "Failed to register the globalprotectcallback URL handler"@),
        succeeded && handler_after@ != "gpauth.desktop"@ ==> (r matches Err(e) && e@
            == "The globalprotectcallback URL handler registration did not take effect"@),
{
    if !succeeded {
        return Err("Failed to register the globalprotectcallback URL handler".to_string());
    }
    if !str_eq(handler_after, "gpauth.desktop") {
        return Err(
            "The globalprotectcallback URL handler registration did not take effect".to_string(),
        );
    }
    Ok(())
}

/// What a run of the handler registration saw: the handler queried first,
/// the registration's outcome when one was made, and the handler queried
/// after a registration that succeeded.
pub open spec fn registration_run(
    current: Result<String, String>,
    registered: Option<Result<bool, String>>,
    after: Option<Result<String, String>>,
) -> bool {
    &&& (registered is Some <==> (current matches Ok(c) && register_decision(c@) == Some(true)))
    &&& (after is Some <==> registered == Some(Ok::<bool, String>(true)))
}

/// Whether such a run ends with `gpauth.desktop` owning the scheme.
pub open spec fn registration_ok(
    current: Result<String, String>,
    registered: Option<Result<bool, String>>,
    after: Option<Result<String, String>>,
) -> bool {
    match current {
        Err(_) => false,
        Ok(c) => match register_decision(c@) {
            None => false,
            Some(false) => true,
            Some(true) => registered == Some(Ok::<bool, String>(true)) && (after matches Some(Ok(h))
                && h@ == "gpauth.desktop"@),
        },
    }
}

/// How such a run ends: the first failure's message, or `Ok`. A failed
/// query or registration gives its own message; another owner of the
/// scheme is named; a registration that reports failure, or after which
/// another handler is queried, has its own message.
pub open spec fn registration_result(
    current: Result<String, String>,
    registered: Option<Result<bool, String>>,
    after: Option<Result<String, String>>,
) -> Result<(), Seq<char>> {
    match current {
        Err(e) => Err(e@),
        Ok(c) => match register_decision(c@) {
            None => Err(owned_by_message(c@)),
            Some(false) => Ok(()),
            Some(true) => match registered {
                Some(Err(e)) => Err(e@),
                Some(Ok(false)) | None => Err("Failed to register the globalprotectcallback URL handler"@),
                Some(Ok(true)) => match after {
                    Some(Ok(h)) => if h@ == "gpauth.desktop"@ {
                        Ok(())
                    } else {
                        Err("The globalprotectcallback URL handler registration did not take effect"@)
                    },
                    Some(Err(e)) => Err(e@),
                    None => Err("The globalprotectcallback URL handler registration did not take effect"@),
                },
            },
        },
    }
}

/// The results that `query` and `register` gave in one run.
pub open spec fn observed_run<Q: Fn() -> Result<String, String>, R: FnOnce() -> Result<bool, String>>(
    query: Q,
    register: R,
    current: Result<String, String>,
    registered: Option<Result<bool, String>>,
    after: Option<Result<String, String>>,
) -> bool {
    &&& query.ensures((), current)
    &&& (registered matches Some(x) ==> register.ensures((), x))
    &&& (after matches Some(x) ==> query.ensures((), x))
    &&& registration_run(current, registered, after)
}

/// Makes `gpauth.desktop` the handler of the callback scheme: `query` asks
/// the desktop for the current handler, and `register`, called only when
/// nothing or `gpgui` owns the scheme, makes the registration and says
/// whether it succeeded; the handler is then queried again.
pub fn ensure_auth_callback_handler<Q: Fn() -> Result<String, String>, R: FnOnce() -> Result<bool, String>>(
    query: Q,
    register: R,
) -> (r: Result<(), String>)
    requires
        query.requires(()),
        register.requires(()),
    ensures
        exists|current: Result<String, String>, registered: Option<Result<bool, String>>, after: Option<Result<String, String>>|
            #[trigger] observed_run(query, register, current, registered, after)
            && (r is Ok <==> registration_ok(current, registered, after))
            && unit_result_view(r) == registration_result(current, registered, after),
{
    let current = query();
    let c = match &current {
        Ok(c) => c,
        Err(e) => {
            let r = Err(e.clone());
            assert(observed_run(query, register, current, None, None));
            return r;
        },
    };
    let decision = should_register_handler(c.as_str());
    match decision {
        Err(e) => {
            assert(observed_run(query, register, current, None, None));
            return Err(e);
        },
        Ok(false) => {
            assert(observed_run(query, register, current, None, None));
            return Ok(());
        },
        Ok(true) => {},
    }
    let registered = register();
    match &registered {
        Ok(true) => {},
        _ => {
            let r = match &registered {
                Err(e) => Err(e.clone()),
                _ => confirm_handler_registration(false, ""),
            };
            assert(observed_run(query, register, current, Some(registered), None));
            return r;
        },
    }
    let after = query();
    let r = match &after {
        Ok(h) => confirm_handler_registration(true, h.as_str()),
        Err(e) => Err(e.clone()),
    };
    assert(observed_run(query, register, current, Some(registered), Some(after)));
    r
}

/// Why a forwarded callback was not read.
#[derive(Debug, Clone, Copy, PartialEq, Eq, Structural)]
pub enum CallbackReadError {
    UnsupportedVersion,
    Invalid,
    Io,
}

/// The request that forwards a callback: the magic `GPAC`, the version,
/// the length (big-endian, 32 bits) and the callback's bytes.
pub open spec fn callback_frame(callback_bytes: Seq<u8>) -> Seq<u8> {
    let n = callback_bytes.len();
    seq![71u8, 80u8, 65u8, 67u8, 1u8, ((n / 16777216) % 256) as u8, ((n / 65536) % 256) as u8, ((n / 256) % 256) as u8, (n % 256) as u8] + callback_bytes
}

/// The bytes that forward a callback.
pub fn encode_callback_request(callback: &str) -> (r: Vec<u8>)
    requires
        utf8_len(callback@) <= 1048576,
    ensures
        r@ == callback_frame(vstd::utf8::encode_utf8(callback@)),
{
    let bytes = callback.as_bytes();
    let n = bytes.len();
    let mut out: Vec<u8> = vec![71u8, 80u8, 65u8, 67u8, PROTOCOL_VERSION];
    out.push(((n / 16777216) % 256) as u8);
    out.push(((n / 65536) % 256) as u8);
    out.push(((n / 256) % 256) as u8);
    out.push((n % 256) as u8);
    let mut i: usize = 0;
    let ghost head = out@;
    while i < n
        invariant
            i <= n,
            n == bytes@.len(),
            out@ == head + bytes@.take(i as int),
        decreases n - i,
    {
        out.push(bytes[i]);
        assert(bytes@.take(i + 1) =~= bytes@.take(i as int).push(bytes@[i as int]));
        i += 1;
    }
    assert(bytes@.take(n as int) =~= bytes@);
    out
}

/// What a request header says: the payload's length to read, or why the
/// request is refused.
pub open spec fn header_outcome(magic: Seq<u8>, version: u8, length: u32) -> Result<nat, CallbackReadError> {
    if magic != seq![71u8, 80u8, 65u8, 67u8] {
        Err(CallbackReadError::Invalid)
    } else if version != 1 {
        Err(CallbackReadError::UnsupportedVersion)
    } else if length == 0 || length > 1048576 {
        Err(CallbackReadError::Invalid)
    } else {
        Ok(length as nat)
    }
}

pub fn check_request_header(magic: &[u8], version: u8, length: u32) -> (r: Result<usize, CallbackReadError>)
    ensures
        match r {
            Ok(n) => header_outcome(magic@, version, length) == Ok::<nat, CallbackReadError>(n as nat),
            Err(e) => header_outcome(magic@, version, length) == Err::<nat, CallbackReadError>(e),
        },
{
    if magic.len() != 4 || magic[0] != 71 || magic[1] != 80 || magic[2] != 65 || magic[3] != 67 {
        assert(magic@ != seq![71u8, 80u8, 65u8, 67u8]) by {
            if magic@ == seq![71u8, 80u8, 65u8, 67u8] {
                assert(magic@[0] == 71u8);
            }
        }
        return Err(CallbackReadError::Invalid);
    }
    assert(magic@ =~= seq![71u8, 80u8, 65u8, 67u8]);
    if version != PROTOCOL_VERSION {
        return Err(CallbackReadError::UnsupportedVersion);
    }
    if length == 0 || length > 1048576 {
        return Err(CallbackReadError::Invalid);
    }
    Ok(length as usize)
}

/// The number that four bytes give, most significant first.
pub open spec fn be_u32(b: Seq<u8>) -> int {
    b[0] * 16777216 + b[1] * 65536 + b[2] * 256 + b[3]
}

/// A forwarded callback is read back as it was sent: the request's header
/// is accepted with the payload's length, and the payload that follows is
/// the callback's UTF-8 text, which decodes to the callback and is accepted
/// again.
pub proof fn lemma_callback_round_trip(callback: Seq<char>)
    requires
        valid_callback(callback),
    ensures
        ({
            let payload = vstd::utf8::encode_utf8(callback);
            let frame = callback_frame(payload);
            &&& header_outcome(frame.subrange(0, 4), frame[4], be_u32(frame.subrange(5, 9)) as u32)
                == Ok::<nat, CallbackReadError>(payload.len())
            &&& frame.subrange(9, frame.len() as int) == payload
            &&& vstd::utf8::valid_utf8(payload)
            &&& vstd::utf8::decode_utf8(payload) == callback
        }),
{
    let payload = vstd::utf8::encode_utf8(callback);
    let frame = callback_frame(payload);
    let n = payload.len();
    vstd::utf8::encode_utf8_valid_utf8(callback);
    vstd::utf8::encode_utf8_decode_utf8(callback);
    assert(callback.len() > 0);
    assert(n > 0);
    assert(n <= 1048576);
    let m = n as u32;
    assert(((m / 16777216) % 256) * 16777216 + ((m / 65536) % 256) * 65536 + ((m / 256) % 256) * 256
        + m % 256 == m) by (bit_vector);
    assert(frame.subrange(0, 4) =~= seq![71u8, 80u8, 65u8, 67u8]);
    assert(frame.subrange(9, frame.len() as int) =~= payload);
    assert(be_u32(frame.subrange(5, 9)) == n);
}

/// The callback a payload carries: UTF-8 text that is a valid callback.
pub fn callback_from_payload(payload: Vec<u8>) -> (r: Result<String, CallbackReadError>)
    ensures
        match r {
            Ok(s) => vstd::utf8::valid_utf8(payload@) && s@ == vstd::utf8::decode_utf8(payload@) && valid_callback(s@),
            Err(e) => e == CallbackReadError::Invalid && !(vstd::utf8::valid_utf8(payload@) && valid_callback(
                vstd::utf8::decode_utf8(payload@),
            )),
        },
{
    match crate::auth::utf8_string(payload) {
        Some(s) => match validate_callback(s.as_str()) {
            Ok(()) => Ok(s),
            Err(_) => Err(CallbackReadError::Invalid),
        },
        None => Err(CallbackReadError::Invalid),
    }
}

/// The status the receiver answers a read with; `None` when the sender is
/// gone and nothing is answered.
pub open spec fn read_status(outcome: Result<bool, CallbackReadError>) -> Option<u8> {
    match outcome {
        Ok(accepted) => Some(if accepted { 0u8 } else { 1u8 }),
        Err(CallbackReadError::UnsupportedVersion) => Some(2u8),
        Err(CallbackReadError::Invalid) => Some(1u8),
        Err(CallbackReadError::Io) => None,
    }
}

/// The status to answer a read with: accepted when the callback held
/// authentication data.
pub fn response_status(outcome: Result<bool, CallbackReadError>) -> (r: Option<u8>)
    ensures
        r == read_status(outcome),
{
    match outcome {
        Ok(accepted) => Some(if accepted { STATUS_ACCEPTED } else { STATUS_INVALID_CALLBACK }),
        Err(CallbackReadError::UnsupportedVersion) => Some(STATUS_UNSUPPORTED_VERSION),
        Err(CallbackReadError::Invalid) => Some(STATUS_INVALID_CALLBACK),
        Err(CallbackReadError::Io) => None,
    }
}

/// What the sender makes of the receiver's answer.
pub fn forward_outcome(version: u8, status: u8) -> (r: Result<(), String>)
    ensures
        r is Ok <==> version == 1 && status == 0,
{
    if version != PROTOCOL_VERSION {
        return Err("Authentication callback protocol version mismatch".to_string());
    }
    if status == STATUS_ACCEPTED {
        Ok(())
    } else if status == STATUS_INVALID_CALLBACK {
        Err("Authentication callback was rejected".to_string())
    } else if status == STATUS_UNSUPPORTED_VERSION {
        Err("Authentication callback protocol version is unsupported".to_string())
    } else {
        Err("Authentication callback handler returned an unknown status".to_string())
    }
}

} // verus!
