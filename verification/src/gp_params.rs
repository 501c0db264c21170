//! The parameters that every request to a portal or a gateway depends on.
use vstd::prelude::*;
use crate::text::ascii_upper;


use crate::os_profile::{client_os_name, ClientOs, HostIdentity, OsProfile, OsProfileView};
use crate::text::{ascii_lower, as_opt_str, clone_opt, opt_str_view, opt_view, str_eq, to_ascii_lowercase};

verus! {

broadcast use vstd::string::group_string_axioms;

/// Whether the client takes part in client-side checks (HIP).
#[derive(Debug, Clone, Copy, PartialEq, Eq, Structural)]
pub enum CscMode {
    Auto,
    Yes,
    No,
}

impl Default for CscMode {
    fn default() -> (r: Self)
        ensures
            r == CscMode::Auto,
    {
        CscMode::Auto
    }
}

pub open spec fn csc_mode_name(m: CscMode) -> Seq<char> {
    match m {
        CscMode::Auto => "auto"@,
        CscMode::Yes => "yes"@,
        CscMode::No => "no"@,
    }
}

/// The mode a name stands for, letter case ignored.
pub open spec fn csc_mode_of_name(name: Seq<char>) -> Option<CscMode> {
    let l = ascii_lower(name);
    if l == "auto"@ {
        Some(CscMode::Auto)
    } else if l == "yes"@ {
        Some(CscMode::Yes)
    } else if l == "no"@ {
        Some(CscMode::No)
    } else {
        None
    }
}

impl CscMode {
    /// Client-side checks are on: as the official client of the system does
    /// for `Auto`.
    pub fn effective(self, client_os: ClientOs) -> (r: bool)
        ensures
            r == match self {
                CscMode::Auto => client_os != ClientOs::Linux,
                CscMode::Yes => true,
                CscMode::No => false,
            },
    {
        match self {
            CscMode::Auto => client_os.default_csc_support(),
            CscMode::Yes => true,
            CscMode::No => false,
        }
    }

    pub fn as_str(self) -> (r: &'static str)
        ensures
            r@ == csc_mode_name(self),
    {
        match self {
            CscMode::Auto => "auto",
            CscMode::Yes => "yes",
            CscMode::No => "no",
        }
    }

    /// The mode named on a command line (`auto`, `yes` or `no`, in any
    /// letter case).
    pub fn from_str(input: &str) -> (r: Result<Self, String>)
        ensures
            match r {
                Ok(m) => csc_mode_of_name(input@) == Some(m),
                Err(_) => csc_mode_of_name(input@) is None,
            },
    {
        let l = to_ascii_lowercase(input);
        if str_eq(l.as_str(), "auto") {
            Ok(CscMode::Auto)
        } else if str_eq(l.as_str(), "yes") {
            Ok(CscMode::Yes)
        } else if str_eq(l.as_str(), "no") {
            Ok(CscMode::No)
        } else {
            let mut msg = "Invalid CSC mode: ".to_string();
            msg.append(input);
            Err(msg)
        }
    }
}

/// The parameters of a session with a portal or a gateway.
#[derive(Debug)]
pub struct GpParams {
    os_profile: OsProfile,
    ignore_tls_errors: bool,
    certificate: Option<String>,
    sslkey: Option<String>,
    key_password: Option<String>,
    csc_mode: CscMode,
    is_gateway: bool,
    input_str: Option<String>,
    otp: Option<String>,
}

pub struct GpParamsView {
    pub os_profile: OsProfileView,
    pub ignore_tls_errors: bool,
    pub certificate: Option<Seq<char>>,
    pub sslkey: Option<Seq<char>>,
    pub key_password: Option<Seq<char>>,
    pub csc_mode: CscMode,
    pub is_gateway: bool,
    pub input_str: Option<Seq<char>>,
    pub otp: Option<Seq<char>>,
}

impl View for GpParams {
    type V = GpParamsView;

    closed spec fn view(&self) -> GpParamsView {
        GpParamsView {
            os_profile: self.os_profile@,
            ignore_tls_errors: self.ignore_tls_errors,
            certificate: opt_view(self.certificate),
            sslkey: opt_view(self.sslkey),
            key_password: opt_view(self.key_password),
            csc_mode: self.csc_mode,
            is_gateway: self.is_gateway,
            input_str: opt_view(self.input_str),
            otp: opt_view(self.otp),
        }
    }
}

impl Clone for GpParams {
    fn clone(&self) -> (r: Self)
        ensures
            r@ == self@,
    {
        GpParams {
            os_profile: self.os_profile.clone(),
            ignore_tls_errors: self.ignore_tls_errors,
            certificate: clone_opt(&self.certificate),
            sslkey: clone_opt(&self.sslkey),
            key_password: clone_opt(&self.key_password),
            csc_mode: self.csc_mode,
            is_gateway: self.is_gateway,
            input_str: clone_opt(&self.input_str),
            otp: clone_opt(&self.otp),
        }
    }
}

impl GpParams {
    pub fn builder(os_profile: OsProfile) -> (r: GpParamsBuilder)
        ensures
            r@ == GpParamsBuilder::new_spec(os_profile@),
    {
        GpParamsBuilder::new(os_profile)
    }

    /// The requests go to a gateway rather than a portal.
    pub fn is_gateway(&self) -> (r: bool)
        ensures
            r == self@.is_gateway,
    {
        self.is_gateway
    }

    pub fn set_is_gateway(&mut self, is_gateway: bool)
        ensures
            final(self)@ == (GpParamsView { is_gateway, ..old(self)@ }),
    {
        self.is_gateway = is_gateway;
    }

    /// The HTTP user agent: the profile's.
    pub fn user_agent(&self) -> (r: &str)
        ensures
            r@ == self@.os_profile.user_agent,
    {
        self.os_profile.user_agent()
    }

    pub fn ignore_tls_errors(&self) -> (r: bool)
        ensures
            r == self@.ignore_tls_errors,
    {
        self.ignore_tls_errors
    }

    pub fn os_profile(&self) -> (r: &OsProfile)
        ensures
            r@ == self@.os_profile,
    {
        &self.os_profile
    }

    /// The name of the client's operating system.
    pub fn client_os(&self) -> (r: &str)
        ensures
            r@ == client_os_name(self@.os_profile.client_os),
    {
        self.os_profile.client_os().as_str()
    }

    pub fn computer(&self) -> (r: &str)
        ensures
            r@ == self@.os_profile.identity.computer,
    {
        self.os_profile.computer()
    }

    pub fn os_version(&self) -> (r: Option<&str>)
        ensures
            opt_str_view(r) == Some(self@.os_profile.os_version),
    {
        Some(self.os_profile.os_version())
    }

    pub fn client_version(&self) -> (r: Option<&str>)
        ensures
            opt_str_view(r) == Some(self@.os_profile.client_version),
    {
        Some(self.os_profile.client_version())
    }

    pub fn host_id(&self) -> (r: &str)
        ensures
            r@ == self@.os_profile.identity.host_id,
    {
        self.os_profile.host_id()
    }

    pub fn serialno(&self) -> (r: &str)
        ensures
            r@ == self@.os_profile.identity.serial_number,
    {
        self.os_profile.serialno()
    }

    pub fn host_identity(&self) -> (r: &HostIdentity)
        ensures
            r@ == self@.os_profile.host_identity,
    {
        self.os_profile.host_identity()
    }

    /// Client-side checks are on for this session.
    pub fn effective_csc_support(&self) -> (r: bool)
        ensures
            r == match self@.csc_mode {
                CscMode::Auto => self@.os_profile.client_os != ClientOs::Linux,
                CscMode::Yes => true,
                CscMode::No => false,
            },
    {
        self.csc_mode.effective(self.os_profile.client_os())
    }

    pub fn csc_mode(&self) -> (r: CscMode)
        ensures
            r == self@.csc_mode,
    {
        self.csc_mode
    }

    pub fn certificate(&self) -> (r: Option<&str>)
        ensures
            opt_str_view(r) == self@.certificate,
    {
        as_opt_str(&self.certificate)
    }

    pub fn sslkey(&self) -> (r: Option<&str>)
        ensures
            opt_str_view(r) == self@.sslkey,
    {
        as_opt_str(&self.sslkey)
    }

    pub fn key_password(&self) -> (r: Option<&str>)
        ensures
            opt_str_view(r) == self@.key_password,
    {
        as_opt_str(&self.key_password)
    }

    /// The `inputStr` of a challenge being answered.
    pub fn input_str(&self) -> (r: Option<&str>)
        ensures
            opt_str_view(r) == self@.input_str,
    {
        as_opt_str(&self.input_str)
    }

    pub fn set_input_str(&mut self, input_str: &str)
        ensures
            final(self)@ == (GpParamsView { input_str: Some(input_str@), ..old(self)@ }),
    {
        self.input_str = Some(input_str.to_string());
    }

    pub fn set_otp(&mut self, otp: &str)
        ensures
            final(self)@ == (GpParamsView { otp: Some(otp@), ..old(self)@ }),
    {
        self.otp = Some(otp.to_string());
    }

    /// The one-time password of a challenge being answered.
    pub fn otp(&self) -> (r: Option<&str>)
        ensures
            opt_str_view(r) == self@.otp,
    {
        as_opt_str(&self.otp)
    }
}

/// Collects the choices for `GpParams`.
#[derive(Debug)]
pub struct GpParamsBuilder {
    is_gateway: bool,
    os_profile: OsProfile,
    csc_mode: CscMode,
    ignore_tls_errors: bool,
    certificate: Option<String>,
    sslkey: Option<String>,
    key_password: Option<String>,
}

pub struct GpParamsBuilderView {
    pub is_gateway: bool,
    pub os_profile: OsProfileView,
    pub csc_mode: CscMode,
    pub ignore_tls_errors: bool,
    pub certificate: Option<Seq<char>>,
    pub sslkey: Option<Seq<char>>,
    pub key_password: Option<Seq<char>>,
}

impl View for GpParamsBuilder {
    type V = GpParamsBuilderView;

    closed spec fn view(&self) -> GpParamsBuilderView {
        GpParamsBuilderView {
            is_gateway: self.is_gateway,
            os_profile: self.os_profile@,
            csc_mode: self.csc_mode,
            ignore_tls_errors: self.ignore_tls_errors,
            certificate: opt_view(self.certificate),
            sslkey: opt_view(self.sslkey),
            key_password: opt_view(self.key_password),
        }
    }
}

/// The parameters that a builder makes: no challenge is being answered yet.
pub open spec fn params_of(b: GpParamsBuilderView) -> GpParamsView {
    GpParamsView {
        os_profile: b.os_profile,
        ignore_tls_errors: b.ignore_tls_errors,
        certificate: b.certificate,
        sslkey: b.sslkey,
        key_password: b.key_password,
        csc_mode: b.csc_mode,
        is_gateway: b.is_gateway,
        input_str: None,
        otp: None,
    }
}

impl GpParamsBuilder {
    pub open spec fn new_spec(os_profile: OsProfileView) -> GpParamsBuilderView {
        GpParamsBuilderView {
            is_gateway: false,
            os_profile,
            csc_mode: CscMode::Auto,
            ignore_tls_errors: false,
            certificate: None,
            sslkey: None,
            key_password: None,
        }
    }

    pub fn new(os_profile: OsProfile) -> (r: Self)
        ensures
            r@ == Self::new_spec(os_profile@),
    {
        GpParamsBuilder {
            is_gateway: false,
            os_profile,
            csc_mode: CscMode::Auto,
            ignore_tls_errors: false,
            certificate: None,
            sslkey: None,
            key_password: None,
        }
    }

    pub fn is_gateway(&mut self, is_gateway: bool) -> (r: &mut Self)
        ensures
            (*r)@ == (GpParamsBuilderView { is_gateway, ..old(self)@ }),
            *final(self) == *final(r),
    {
        self.is_gateway = is_gateway;
        self
    }

    pub fn csc_mode(&mut self, csc_mode: CscMode) -> (r: &mut Self)
        ensures
            (*r)@ == (GpParamsBuilderView { csc_mode, ..old(self)@ }),
            *final(self) == *final(r),
    {
        self.csc_mode = csc_mode;
        self
    }

    pub fn ignore_tls_errors(&mut self, ignore_tls_errors: bool) -> (r: &mut Self)
        ensures
            (*r)@ == (GpParamsBuilderView { ignore_tls_errors, ..old(self)@ }),
            *final(self) == *final(r),
    {
        self.ignore_tls_errors = ignore_tls_errors;
        self
    }

    pub fn certificate(&mut self, certificate: Option<String>) -> (r: &mut Self)
        ensures
            (*r)@ == (GpParamsBuilderView { certificate: opt_view(certificate), ..old(self)@ }),
            *final(self) == *final(r),
    {
        self.certificate = certificate;
        self
    }

    pub fn sslkey(&mut self, sslkey: Option<String>) -> (r: &mut Self)
        ensures
            (*r)@ == (GpParamsBuilderView { sslkey: opt_view(sslkey), ..old(self)@ }),
            *final(self) == *final(r),
    {
        self.sslkey = sslkey;
        self
    }

    pub fn key_password(&mut self, password: Option<String>) -> (r: &mut Self)
        ensures
            (*r)@ == (GpParamsBuilderView { key_password: opt_view(password), ..old(self)@ }),
            *final(self) == *final(r),
    {
        self.key_password = password;
        self
    }

    pub fn build(&self) -> (r: GpParams)
        ensures
            r@ == params_of(self@),
    {
        GpParams {
            os_profile: self.os_profile.clone(),
            ignore_tls_errors: self.ignore_tls_errors,
            certificate: clone_opt(&self.certificate),
            sslkey: clone_opt(&self.sslkey),
            key_password: clone_opt(&self.key_password),
            csc_mode: self.csc_mode,
            is_gateway: self.is_gateway,
            input_str: None,
            otp: None,
        }
    }
}

/// A CSC mode's name reads back as the same mode, in any letter case.
pub proof fn lemma_csc_mode_name_round_trip(m: CscMode)
    ensures
        csc_mode_of_name(csc_mode_name(m)) == Some(m),
        csc_mode_of_name(ascii_upper(csc_mode_name(m))) == Some(m),
{
    reveal_strlit("auto");
    reveal_strlit("yes");
    reveal_strlit("no");
    assert(ascii_lower(csc_mode_name(m)) =~= csc_mode_name(m));
    assert(ascii_lower(ascii_upper(csc_mode_name(m))) =~= csc_mode_name(m));
}

} // verus!
