//! What the command-line programs share: the operating systems they can
//! present, how they render logs, the verbosity flags they pass on to each
//! other, and the advice they print after a failure.
use vstd::prelude::*;

use crate::error::PortalError;
use crate::os_profile::{runtime_client_os, ClientOs};
use crate::text::contains;

verus! {

broadcast use vstd::string::group_string_axioms;

/// How log records are rendered.
#[derive(Debug, Clone, Copy, PartialEq, Eq, Structural)]
pub enum LogFormat {
    /// The human-readable default.
    Text,
    /// One JSON object per line.
    Json,
}

impl Default for LogFormat {
    fn default() -> (r: Self)
        ensures
            r == LogFormat::Text,
    {
        LogFormat::Text
    }
}

pub open spec fn log_format_name(f: LogFormat) -> Seq<char> {
    match f {
        LogFormat::Text => "text"@,
        LogFormat::Json => "json"@,
    }
}

impl LogFormat {
    /// The name this format is known by on a command line.
    pub fn as_str(&self) -> (r: &'static str)
        ensures
            r@ == log_format_name(*self),
    {
        match self {
            LogFormat::Text => "text",
            LogFormat::Json => "json",
        }
    }
}

/// An operating system as the command line names it.
#[derive(Debug, Clone, Copy, PartialEq, Eq, Structural)]
pub enum Os {
    Linux,
    Windows,
    Mac,
}

pub open spec fn client_os_of(os: Os) -> ClientOs {
    match os {
        Os::Linux => ClientOs::Linux,
        Os::Windows => ClientOs::Windows,
        Os::Mac => ClientOs::Mac,
    }
}

pub open spec fn os_of_client(os: ClientOs) -> Os {
    match os {
        ClientOs::Linux => Os::Linux,
        ClientOs::Windows => Os::Windows,
        ClientOs::Mac => Os::Mac,
    }
}

impl From<Os> for ClientOs {
    fn from(value: Os) -> (r: Self) {
        match value {
            Os::Linux => ClientOs::Linux,
            Os::Windows => ClientOs::Windows,
            Os::Mac => ClientOs::Mac,
        }
    }
}

impl vstd::std_specs::convert::FromSpecImpl<Os> for ClientOs {
    open spec fn obeys_from_spec() -> bool {
        true
    }

    open spec fn from_spec(v: Os) -> Self {
        client_os_of(v)
    }
}

impl Os {
    /// The command-line name of a client operating system.
    pub fn from_client_os(os: ClientOs) -> (r: Os)
        ensures
            r == os_of_client(os),
            client_os_of(r) == os,
    {
        match os {
            ClientOs::Linux => Os::Linux,
            ClientOs::Windows => Os::Windows,
            ClientOs::Mac => Os::Mac,
        }
    }
}

impl Default for Os {
    /// The operating system this process runs on. Which one that is the
    /// machine decides; the contract says only that it is one of the three.
    fn default() -> (r: Self)
        ensures
            exists|c: ClientOs| r == os_of_client(c),
    {
        Os::from_client_os(runtime_client_os())
    }
}

/// What every program's arguments say about how to reach a server and how
/// to log.
pub trait Args {
    fn fix_openssl(&self) -> bool;

    fn ignore_tls_errors(&self) -> bool;

    /// How this program renders its logs; text unless a program says
    /// otherwise.
    fn log_format(&self) -> LogFormat {
        LogFormat::Text
    }
}

pub open spec fn openssl_hint(program: Seq<char>, rest: Seq<char>) -> Seq<char> {
    "Re-run it with the `--fix-openssl` option to work around this issue, e.g.:\n\n"@ + program
        + " --fix-openssl "@ + rest
}

pub open spec fn tls_hint(program: Seq<char>, rest: Seq<char>) -> Seq<char> {
    "Re-run it with the `--ignore-tls-errors` option to ignore the certificate error, e.g.:\n\n"@
        + program + " --ignore-tls-errors "@ + rest
}

pub open spec fn is_legacy_openssl(err: PortalError) -> bool {
    match err {
        PortalError::NetworkError(msg) => contains(msg@, "unsafe legacy renegotiation"@),
        _ => false,
    }
}

pub open spec fn is_tls(err: PortalError) -> bool {
    match err {
        PortalError::TlsError => true,
        PortalError::NetworkError(msg) => contains(msg@, "certificate verify failed"@),
        _ => false,
    }
}

/// The suggestions for re-running a command whose failure has a known
/// workaround: none for a failure that is no portal error, and none for an
/// option already in use.
pub open spec fn retry_hints_of(
    err: Option<PortalError>,
    fix_openssl: bool,
    ignore_tls_errors: bool,
    program: Seq<char>,
    rest: Seq<char>,
) -> Seq<Seq<char>> {
    match err {
        None => Seq::empty(),
        Some(e) => {
            let a: Seq<Seq<char>> = if is_legacy_openssl(e) && !fix_openssl {
                seq![openssl_hint(program, rest)]
            } else {
                Seq::empty()
            };
            let b: Seq<Seq<char>> = if is_tls(e) && !ignore_tls_errors {
                seq![tls_hint(program, rest)]
            } else {
                Seq::empty()
            };
            a + b
        },
    }
}

/// The suggestions for re-running `program` with the arguments `rest` after
/// `err`, given the options already in use.
pub fn retry_hints(
    err: Option<&PortalError>,
    fix_openssl: bool,
    ignore_tls_errors: bool,
    program: &str,
    rest: &str,
) -> (r: Vec<String>)
    ensures
        r@.map_values(|s: String| s@) == retry_hints_of(
            match err {
                Some(e) => Some(*e),
                None => None,
            },
            fix_openssl,
            ignore_tls_errors,
            program@,
            rest@,
        ),
{
    let mut hints: Vec<String> = Vec::new();
    let e = match err {
        Some(e) => e,
        None => {
            assert(hints@.map_values(|s: String| s@) =~= Seq::<Seq<char>>::empty());
            return hints;
        },
    };
    if e.is_legacy_openssl_error() && !fix_openssl {
        let mut h = "Re-run it with the `--fix-openssl` option to work around this issue, e.g.:\n\n".to_string();
        h.append(program);
        h.append(" --fix-openssl ");
        h.append(rest);
        hints.push(h);
    }
    if e.is_tls_error() && !ignore_tls_errors {
        let mut h = "Re-run it with the `--ignore-tls-errors` option to ignore the certificate error, e.g.:\n\n".to_string();
        h.append(program);
        h.append(" --ignore-tls-errors ");
        h.append(rest);
        hints.push(h);
    }
    assert(hints@.map_values(|s: String| s@) =~= retry_hints_of(
        Some(*e),
        fix_openssl,
        ignore_tls_errors,
        program@,
        rest@,
    ));
    hints
}

/// The logging level of the `Info`-by-default verbosity flags.
#[derive(Debug)]
pub struct InfoLevel;

/// How verbose a program is asked to be, from silent to tracing.
#[derive(Debug, Clone, Copy, PartialEq, Eq, Structural)]
pub enum VerboseLevel {
    Off,
    Error,
    Warn,
    Info,
    Debug,
    Trace,
}

/// The command-line flag that asks another program for the same verbosity.
pub trait ToVerboseArg {
    fn to_verbose_arg(&self) -> Option<&'static str>;
}

pub open spec fn verbose_arg_of(level: VerboseLevel) -> Option<Seq<char>> {
    match level {
        VerboseLevel::Off => Some("-qqq"@),
        VerboseLevel::Error => Some("-qq"@),
        VerboseLevel::Warn => Some("-q"@),
        VerboseLevel::Info => None,
        VerboseLevel::Debug => Some("-v"@),
        VerboseLevel::Trace => Some("-vv"@),
    }
}

impl ToVerboseArg for VerboseLevel {
    /// The default, `Info`, needs no flag.
    fn to_verbose_arg(&self) -> (r: Option<&'static str>)
        ensures
            match r {
                Some(s) => verbose_arg_of(*self) == Some(s@),
                None => verbose_arg_of(*self) is None,
            },
    {
        match self {
            VerboseLevel::Off => Some("-qqq"),
            VerboseLevel::Error => Some("-qq"),
            VerboseLevel::Warn => Some("-q"),
            VerboseLevel::Info => None,
            VerboseLevel::Debug => Some("-v"),
            VerboseLevel::Trace => Some("-vv"),
        }
    }
}

/// The command line's operating systems and the client's are the same
/// three, one for one.
pub proof fn lemma_os_round_trip(os: Os, c: ClientOs)
    ensures
        os_of_client(client_os_of(os)) == os,
        client_os_of(os_of_client(c)) == c,
{
}

/// The two log formats have distinct names.
pub proof fn lemma_log_format_names_distinct()
    ensures
        log_format_name(LogFormat::Text) != log_format_name(LogFormat::Json),
{
    reveal_strlit("text");
    reveal_strlit("json");
    assert(log_format_name(LogFormat::Text)[0] != log_format_name(LogFormat::Json)[0]);
}

} // verus!
