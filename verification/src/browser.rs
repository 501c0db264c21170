//! Which browser runs external-browser authentication, and how a desktop
//! entry or an installed Flatpak application maps to a browser.
use vstd::prelude::*;

use crate::gateway::login::{lines, split_lines};
use crate::text::{is_blank, is_blank_str, starts_with, starts_with_str, str_eq, to_lower, trim, trim_str, unicode_lower};

verus! {

broadcast use vstd::string::group_string_axioms;

/// The browser to open a URL in.
#[derive(Debug, Clone, Copy, PartialEq, Eq)]
pub enum Browser<'a> {
    /// The recognized default browser, else a detected one, else the
    /// system's URL handler.
    Auto,
    /// The system's URL handler.
    Default,
    Chrome,
    Edge,
    Firefox,
    Safari,
    /// A browser named by its program.
    Other(&'a str),
}

/// The browser a name stands for, letter case and surrounding whitespace
/// ignored; any other name is kept as given.
pub open spec fn browser_of_name(value: Seq<char>, lowered: Seq<char>) -> BrowserChoice {
    if lowered == "auto"@ {
        BrowserChoice::Auto
    } else if lowered == "default"@ {
        BrowserChoice::Default
    } else if lowered == "chrome"@ {
        BrowserChoice::Chrome
    } else if lowered == "edge"@ {
        BrowserChoice::Edge
    } else if lowered == "firefox"@ {
        BrowserChoice::Firefox
    } else if lowered == "safari"@ {
        BrowserChoice::Safari
    } else {
        BrowserChoice::Other(value)
    }
}

/// A browser choice by its view.
pub enum BrowserChoice {
    Auto,
    Default,
    Chrome,
    Edge,
    Firefox,
    Safari,
    Other(Seq<char>),
}

pub open spec fn choice_of(b: Browser) -> BrowserChoice {
    match b {
        Browser::Auto => BrowserChoice::Auto,
        Browser::Default => BrowserChoice::Default,
        Browser::Chrome => BrowserChoice::Chrome,
        Browser::Edge => BrowserChoice::Edge,
        Browser::Firefox => BrowserChoice::Firefox,
        Browser::Safari => BrowserChoice::Safari,
        Browser::Other(s) => BrowserChoice::Other(s@),
    }
}

impl<'a> Browser<'a> {
    /// The browser of a configuration value: `Auto` when it is missing or
    /// blank.
    pub fn from_config(value: Option<&'a str>) -> (r: Self)
        ensures
            match value {
                Some(v) => if is_blank(v@) {
                    choice_of(r) == BrowserChoice::Auto
                } else {
                    choice_of(r) == browser_of_name(v@, unicode_lower(trim(v@)))
                },
                None => choice_of(r) == BrowserChoice::Auto,
            },
    {
        match value {
            Some(v) => if is_blank_str(v) {
                Browser::Auto
            } else {
                Browser::from_name(v)
            },
            None => Browser::Auto,
        }
    }

    /// The browser a name stands for (`auto`, `default`, `chrome`, `edge`,
    /// `firefox`, `safari` in any letter case, around whitespace); any
    /// other name is a program, kept as given.
    pub fn from_name(value: &'a str) -> (r: Self)
        ensures
            choice_of(r) == browser_of_name(value@, unicode_lower(trim(value@))),
    {
        let t = trim_str(value);
        let l = to_lower(t.as_str());
        let l = l.as_str();
        if str_eq(l, "auto") {
            Browser::Auto
        } else if str_eq(l, "default") {
            Browser::Default
        } else if str_eq(l, "chrome") {
            Browser::Chrome
        } else if str_eq(l, "edge") {
            Browser::Edge
        } else if str_eq(l, "firefox") {
            Browser::Firefox
        } else if str_eq(l, "safari") {
            Browser::Safari
        } else {
            Browser::Other(value)
        }
    }

    /// The browser's name; a program's name as given.
    pub fn as_str(&self) -> (r: &str)
        ensures
            r@ == match choice_of(*self) {
                BrowserChoice::Auto => "auto"@,
                BrowserChoice::Default => "default"@,
                BrowserChoice::Chrome => "chrome"@,
                BrowserChoice::Edge => "edge"@,
                BrowserChoice::Firefox => "firefox"@,
                BrowserChoice::Safari => "safari"@,
                BrowserChoice::Other(s) => s,
            },
    {
        match self {
            Browser::Auto => "auto",
            Browser::Default => "default",
            Browser::Chrome => "chrome",
            Browser::Edge => "edge",
            Browser::Firefox => "firefox",
            Browser::Safari => "safari",
            Browser::Other(browser) => browser,
        }
    }
}

/// Authentication in an external browser: the request to serve and the
/// browser that the user asked for.
pub struct BrowserAuthenticator<'a> {
    auth_request: &'a str,
    browser: &'a str,
}

impl<'a> BrowserAuthenticator<'a> {
    pub fn new(auth_request: &'a str, browser: &'a str) -> (r: Self)
        ensures
            r.auth_request()@ == auth_request@,
            r.browser()@ == browser@,
    {
        BrowserAuthenticator { auth_request, browser }
    }

    pub closed spec fn auth_request(&self) -> &'a str {
        self.auth_request
    }

    pub closed spec fn browser(&self) -> &'a str {
        self.browser
    }

    /// The authentication request to serve.
    pub fn request(&self) -> (r: &'a str)
        ensures
            r@ == self.auth_request()@,
    {
        self.auth_request
    }

    /// The browser is opened by the user elsewhere, so the data comes back
    /// through the terminal rather than through the callback handler.
    pub fn is_remote(&self) -> (r: bool)
        ensures
            r == is_remote_name(self.browser()@),
    {
        is_remote_browser(self.browser)
    }

    /// The address the request is served on: any port of the machine's own
    /// address for a remote browser, any port of the loopback otherwise.
    pub fn server_address(&self, local_ip: &str) -> (r: String)
        ensures
            r@ == if is_remote_name(self.browser()@) {
                local_ip@ + ":0"@
            } else {
                "127.0.0.1:0"@
            },
    {
        if is_remote_browser(self.browser) {
            let mut a = local_ip.to_string();
            a.append(":0");
            a
        } else {
            "127.0.0.1:0".to_string()
        }
    }
}

/// Authentication in a browser chosen by its program, or in the system's
/// default browser.
#[derive(Debug)]
pub struct BrowserAuthenticatorImpl<'a> {
    auth_request: &'a str,
    browser: Option<&'a str>,
}

/// The browser program that a name asks for: none for a blank name or
/// `default`, else the trimmed name.
pub open spec fn browser_program_of(name: Seq<char>) -> Option<Seq<char>> {
    let b = trim(name);
    if b.len() == 0 || b == "default"@ {
        None
    } else {
        Some(b)
    }
}

impl<'a> BrowserAuthenticatorImpl<'a> {
    pub closed spec fn spec_browser(&self) -> Option<Seq<char>> {
        match self.browser {
            Some(b) => Some(b@),
            None => None,
        }
    }

    pub closed spec fn spec_auth_request(&self) -> Seq<char> {
        self.auth_request@
    }

    /// Authentication in the system's default browser.
    pub fn new(auth_request: &'a str) -> (r: Self)
        ensures
            r.spec_auth_request() == auth_request@,
            r.spec_browser() is None,
    {
        BrowserAuthenticatorImpl { auth_request, browser: None }
    }

    /// Authentication in the browser that `browser` names.
    pub fn new_with_browser(auth_request: &'a str, browser: &'a str) -> (r: Self)
        ensures
            r.spec_auth_request() == auth_request@,
            r.spec_browser() == browser_program_of(browser@),
    {
        let b = crate::text::trim_slice(browser);
        let none = b.is_empty() || str_eq(b, "default");
        BrowserAuthenticatorImpl { auth_request, browser: if none { None } else { Some(b) } }
    }

    pub fn browser(&self) -> (r: Option<&'a str>)
        ensures
            match r {
                Some(b) => self.spec_browser() == Some(b@),
                None => self.spec_browser() is None,
            },
    {
        self.browser
    }

    pub fn auth_request(&self) -> (r: &'a str)
        ensures
            r@ == self.spec_auth_request(),
    {
        self.auth_request
    }
}

/// The programs that stand for `chrome`, in the order they are tried.
pub open spec fn is_chrome_program_list(l: Seq<&str>) -> bool {
    &&& l.len() == 3
    &&& l[0]@ == "google-chrome-stable"@
    &&& l[1]@ == "google-chrome"@
    &&& l[2]@ == "chromium"@
}

/// `r` is the path that `which` found for the first of `l` that it found,
/// every earlier one not found; or `fallback` when none was found.
pub open spec fn first_found<F: Fn(&str) -> Option<String>>(
    l: Seq<&str>,
    which: F,
    r: String,
    fallback: Seq<char>,
) -> bool {
    ||| exists|i: int, found: String|
        #![trigger which.ensures((l[i],), Some(found))]
        0 <= i < l.len() && which.ensures((l[i],), Some(found)) && found@ == r@ && forall|j: int|
            0 <= j < i ==> #[trigger] which.ensures((l[j],), None)
    ||| r@ == fallback && forall|j: int| 0 <= j < l.len() ==> #[trigger] which.ensures((l[j],), None)
}

/// The program to launch for a browser name: for `chrome`, the path of the
/// first of its programs that `which` finds, else the name itself.
pub fn find_browser_path<F: Fn(&str) -> Option<String>>(browser: &str, which: F) -> (r: String)
    requires
        forall|s: &str| which.requires((s,)),
    ensures
        browser@ != "chrome"@ ==> r@ == browser@,
        browser@ == "chrome"@ ==> exists|l: Seq<&str>|
            #![trigger first_found(l, which, r, browser@)]
            is_chrome_program_list(l) && first_found(l, which, r, browser@),
{
    if !str_eq(browser, "chrome") {
        return browser.to_string();
    }
    let programs: Vec<&str> = vec!["google-chrome-stable", "google-chrome", "chromium"];
    assert(is_chrome_program_list(programs@));
    let mut i: usize = 0;
    while i < programs.len()
        invariant
            i <= programs.len(),
            browser@ == "chrome"@,
            is_chrome_program_list(programs@),
            forall|s: &str| which.requires((s,)),
            forall|j: int| 0 <= j < i ==> #[trigger] which.ensures((programs@[j],), None),
        decreases programs.len() - i,
    {
        let found = which(programs[i]);
        match found {
            Some(path) => {
                assert(which.ensures((programs@[i as int],), Some(path)));
                assert(first_found(programs@, which, path, browser@));
                return path;
            },
            None => {},
        }
        i += 1;
    }
    let r = browser.to_string();
    assert(first_found(programs@, which, r, browser@));
    r
}

/// The browser is one the user opens by hand, elsewhere (`remote`, letter
/// case ignored).
pub open spec fn is_remote_name(b: Seq<char>) -> bool {
    crate::text::ascii_lower(b) == "remote"@
}

pub fn is_remote_browser(browser: &str) -> (r: bool)
    ensures
        r == is_remote_name(browser@),
{
    let l = crate::text::to_ascii_lowercase(browser);
    str_eq(l.as_str(), "remote")
}

/// A family of browser programs, each known by several program names.
#[derive(Debug, Clone, Copy, PartialEq, Eq, Structural)]
pub enum BrowserPrograms {
    GoogleChrome,
    Chromium,
    Edge,
    EdgeBeta,
    EdgeDev,
    Firefox,
    FirefoxEsr,
    Brave,
    Vivaldi,
    Falkon,
    Epiphany,
    Opera,
    Librewolf,
    Waterfox,
    Qutebrowser,
}

pub open spec fn program_names(p: BrowserPrograms) -> Seq<Seq<char>> {
    match p {
        BrowserPrograms::GoogleChrome => seq!["google-chrome-stable"@, "google-chrome"@],
        BrowserPrograms::Chromium => seq!["chromium"@, "chromium-browser"@],
        BrowserPrograms::Edge => seq!["microsoft-edge-stable"@, "microsoft-edge"@],
        BrowserPrograms::EdgeBeta => seq!["microsoft-edge-beta"@],
        BrowserPrograms::EdgeDev => seq!["microsoft-edge-dev"@],
        BrowserPrograms::Firefox => seq!["firefox"@],
        BrowserPrograms::FirefoxEsr => seq!["firefox-esr"@],
        BrowserPrograms::Brave => seq!["brave-browser-stable"@],
        BrowserPrograms::Vivaldi => seq!["vivaldi-stable"@],
        BrowserPrograms::Falkon => seq!["falkon"@],
        BrowserPrograms::Epiphany => seq!["epiphany"@],
        BrowserPrograms::Opera => seq!["opera"@],
        BrowserPrograms::Librewolf => seq!["librewolf"@],
        BrowserPrograms::Waterfox => seq!["waterfox"@],
        BrowserPrograms::Qutebrowser => seq!["qutebrowser"@],
    }
}

fn push_str_list(out: &mut Vec<&'static str>, items: &[&'static str])
    ensures
        final(out)@.map_values(|s: &str| s@) == old(out)@.map_values(|s: &str| s@) + items@.map_values(|s: &str| s@),
{
    let mut i: usize = 0;
    while i < items.len()
        invariant
            i <= items.len(),
            out@.map_values(|s: &str| s@) == old(out)@.map_values(|s: &str| s@) + items@.take(i as int).map_values(|s: &str| s@),
        decreases items.len() - i,
    {
        let ghost before = out@;
        out.push(items[i]);
        assert(out@.map_values(|s: &str| s@) =~= before.map_values(|s: &str| s@).push(items@[i as int]@));
        assert(items@.take(i + 1).map_values(|s: &str| s@) =~= items@.take(i as int).map_values(|s: &str| s@).push(items@[i as int]@));
        i += 1;
    }
    assert(items@.take(items.len() as int) =~= items@);
}

impl BrowserPrograms {
    /// The program names of the family, in the order they are tried.
    pub fn programs(self) -> (r: Vec<&'static str>)
        ensures
            r@.map_values(|s: &str| s@) == program_names(self),
    {
        let mut r: Vec<&'static str> = Vec::new();
        match self {
            BrowserPrograms::GoogleChrome => {
                r.push("google-chrome-stable");
                r.push("google-chrome");
            },
            BrowserPrograms::Chromium => {
                r.push("chromium");
                r.push("chromium-browser");
            },
            BrowserPrograms::Edge => {
                r.push("microsoft-edge-stable");
                r.push("microsoft-edge");
            },
            BrowserPrograms::EdgeBeta => r.push("microsoft-edge-beta"),
            BrowserPrograms::EdgeDev => r.push("microsoft-edge-dev"),
            BrowserPrograms::Firefox => r.push("firefox"),
            BrowserPrograms::FirefoxEsr => r.push("firefox-esr"),
            BrowserPrograms::Brave => r.push("brave-browser-stable"),
            BrowserPrograms::Vivaldi => r.push("vivaldi-stable"),
            BrowserPrograms::Falkon => r.push("falkon"),
            BrowserPrograms::Epiphany => r.push("epiphany"),
            BrowserPrograms::Opera => r.push("opera"),
            BrowserPrograms::Librewolf => r.push("librewolf"),
            BrowserPrograms::Waterfox => r.push("waterfox"),
            BrowserPrograms::Qutebrowser => r.push("qutebrowser"),
        }
        assert(r@.map_values(|s: &str| s@) =~= program_names(self));
        r
    }
}

/// The browser families tried, in order, when none is recognized as the
/// default.
pub open spec fn auto_families() -> Seq<BrowserPrograms> {
    seq![
        BrowserPrograms::GoogleChrome,
        BrowserPrograms::Chromium,
        BrowserPrograms::Edge,
        BrowserPrograms::EdgeBeta,
        BrowserPrograms::EdgeDev,
        BrowserPrograms::Firefox,
        BrowserPrograms::FirefoxEsr,
        BrowserPrograms::Brave,
        BrowserPrograms::Vivaldi,
        BrowserPrograms::Falkon,
        BrowserPrograms::Epiphany,
        BrowserPrograms::Opera,
        BrowserPrograms::Librewolf,
        BrowserPrograms::Waterfox,
        BrowserPrograms::Qutebrowser,
    ]
}

pub fn auto_browser_families() -> (r: Vec<BrowserPrograms>)
    ensures
        r@ == auto_families(),
{
    let r = vec![
        BrowserPrograms::GoogleChrome,
        BrowserPrograms::Chromium,
        BrowserPrograms::Edge,
        BrowserPrograms::EdgeBeta,
        BrowserPrograms::EdgeDev,
        BrowserPrograms::Firefox,
        BrowserPrograms::FirefoxEsr,
        BrowserPrograms::Brave,
        BrowserPrograms::Vivaldi,
        BrowserPrograms::Falkon,
        BrowserPrograms::Epiphany,
        BrowserPrograms::Opera,
        BrowserPrograms::Librewolf,
        BrowserPrograms::Waterfox,
        BrowserPrograms::Qutebrowser,
    ];
    assert(r@ =~= auto_families());
    r
}

/// The Flatpak applications tried, in order, when no browser program is
/// found.
pub open spec fn auto_flatpak_ids() -> Seq<Seq<char>> {
    seq![
        "com.google.Chrome"@,
        "org.chromium.Chromium"@,
        "com.microsoft.Edge"@,
        "org.mozilla.firefox"@,
        "com.brave.Browser"@,
        "com.vivaldi.Vivaldi"@,
        "org.kde.falkon"@,
        "org.gnome.Epiphany"@,
        "com.opera.Opera"@,
        "io.gitlab.librewolf-community"@,
        "net.waterfox.waterfox"@,
        "org.qutebrowser.qutebrowser"@,
    ]
}

pub fn auto_browser_flatpak_ids() -> (r: Vec<&'static str>)
    ensures
        r@.map_values(|s: &str| s@) == auto_flatpak_ids(),
{
    let r = vec![
        "com.google.Chrome",
        "org.chromium.Chromium",
        "com.microsoft.Edge",
        "org.mozilla.firefox",
        "com.brave.Browser",
        "com.vivaldi.Vivaldi",
        "org.kde.falkon",
        "org.gnome.Epiphany",
        "com.opera.Opera",
        "io.gitlab.librewolf-community",
        "net.waterfox.waterfox",
        "org.qutebrowser.qutebrowser",
    ];
    assert(r@.map_values(|s: &str| s@) =~= auto_flatpak_ids());
    r
}

/// How a browser is launched: by one of its programs, as a Flatpak
/// application, or by a program with the Flatpak application as a
/// fallback.
#[derive(Debug, Clone, Copy, PartialEq, Eq)]
pub enum LauncherSpec {
    Programs(BrowserPrograms),
    Flatpak(&'static str),
    ProgramsOrFlatpak { programs: BrowserPrograms, app_id: &'static str },
}

/// A launcher spec by its view.
pub enum LauncherChoice {
    Programs(BrowserPrograms),
    Flatpak(Seq<char>),
    ProgramsOrFlatpak(BrowserPrograms, Seq<char>),
}

pub open spec fn launcher_choice(s: LauncherSpec) -> LauncherChoice {
    match s {
        LauncherSpec::Programs(p) => LauncherChoice::Programs(p),
        LauncherSpec::Flatpak(a) => LauncherChoice::Flatpak(a@),
        LauncherSpec::ProgramsOrFlatpak { programs, app_id } => LauncherChoice::ProgramsOrFlatpak(programs, app_id@),
    }
}

/// The launcher for the desktop entry of a known browser.
pub open spec fn launcher_for_desktop_id(id: Seq<char>) -> Option<LauncherChoice> {
    if id == "google-chrome.desktop"@ || id == "google-chrome-stable.desktop"@ {
        Some(LauncherChoice::Programs(BrowserPrograms::GoogleChrome))
    } else if id == "chromium.desktop"@ || id == "chromium-browser.desktop"@ || id == "chromium_chromium.desktop"@ {
        Some(LauncherChoice::Programs(BrowserPrograms::Chromium))
    } else if id == "microsoft-edge.desktop"@ || id == "microsoft-edge-stable.desktop"@ {
        Some(LauncherChoice::Programs(BrowserPrograms::Edge))
    } else if id == "microsoft-edge-beta.desktop"@ {
        Some(LauncherChoice::Programs(BrowserPrograms::EdgeBeta))
    } else if id == "microsoft-edge-dev.desktop"@ {
        Some(LauncherChoice::Programs(BrowserPrograms::EdgeDev))
    } else if id == "firefox.desktop"@ || id == "firefox_firefox.desktop"@ {
        Some(LauncherChoice::Programs(BrowserPrograms::Firefox))
    } else if id == "firefox-esr.desktop"@ {
        Some(LauncherChoice::Programs(BrowserPrograms::FirefoxEsr))
    } else if id == "com.google.Chrome.desktop"@ {
        Some(LauncherChoice::Flatpak("com.google.Chrome"@))
    } else if id == "org.chromium.Chromium.desktop"@ {
        Some(LauncherChoice::Flatpak("org.chromium.Chromium"@))
    } else if id == "com.microsoft.Edge.desktop"@ {
        Some(LauncherChoice::Flatpak("com.microsoft.Edge"@))
    } else if id == "org.mozilla.firefox.desktop"@ {
        Some(LauncherChoice::ProgramsOrFlatpak(BrowserPrograms::Firefox, "org.mozilla.firefox"@))
    } else if id == "com.brave.Browser.desktop"@ {
        Some(LauncherChoice::Flatpak("com.brave.Browser"@))
    } else if id == "vivaldi-stable.desktop"@ {
        Some(LauncherChoice::Programs(BrowserPrograms::Vivaldi))
    } else if id == "com.vivaldi.Vivaldi.desktop"@ {
        Some(LauncherChoice::Flatpak("com.vivaldi.Vivaldi"@))
    } else if id == "org.kde.falkon.desktop"@ {
        Some(LauncherChoice::ProgramsOrFlatpak(BrowserPrograms::Falkon, "org.kde.falkon"@))
    } else if id == "org.gnome.Epiphany.desktop"@ {
        Some(LauncherChoice::ProgramsOrFlatpak(BrowserPrograms::Epiphany, "org.gnome.Epiphany"@))
    } else if id == "com.opera.Opera.desktop"@ {
        Some(LauncherChoice::Flatpak("com.opera.Opera"@))
    } else if id == "io.gitlab.librewolf-community.desktop"@ {
        Some(LauncherChoice::Flatpak("io.gitlab.librewolf-community"@))
    } else if id == "net.waterfox.waterfox.desktop"@ {
        Some(LauncherChoice::Flatpak("net.waterfox.waterfox"@))
    } else if id == "org.qutebrowser.qutebrowser.desktop"@ {
        Some(LauncherChoice::ProgramsOrFlatpak(BrowserPrograms::Qutebrowser, "org.qutebrowser.qutebrowser"@))
    } else {
        None
    }
}

pub open spec fn opt_launcher_choice(o: Option<LauncherSpec>) -> Option<LauncherChoice> {
    match o {
        Some(s) => Some(launcher_choice(s)),
        None => None,
    }
}

/// The launcher for a desktop entry (`xdg-settings get default-web-browser`)
/// of a known browser; `None` for any other entry.
pub fn launcher_spec_for_desktop_id(desktop_id: &str) -> (r: Option<LauncherSpec>)
    ensures
        opt_launcher_choice(r) == launcher_for_desktop_id(desktop_id@),
{
    let id = desktop_id;
    if str_eq(id, "google-chrome.desktop") || str_eq(id, "google-chrome-stable.desktop") {
        Some(LauncherSpec::Programs(BrowserPrograms::GoogleChrome))
    } else if str_eq(id, "chromium.desktop") || str_eq(id, "chromium-browser.desktop") || str_eq(id, "chromium_chromium.desktop") {
        Some(LauncherSpec::Programs(BrowserPrograms::Chromium))
    } else if str_eq(id, "microsoft-edge.desktop") || str_eq(id, "microsoft-edge-stable.desktop") {
        Some(LauncherSpec::Programs(BrowserPrograms::Edge))
    } else if str_eq(id, "microsoft-edge-beta.desktop") {
        Some(LauncherSpec::Programs(BrowserPrograms::EdgeBeta))
    } else if str_eq(id, "microsoft-edge-dev.desktop") {
        Some(LauncherSpec::Programs(BrowserPrograms::EdgeDev))
    } else if str_eq(id, "firefox.desktop") || str_eq(id, "firefox_firefox.desktop") {
        Some(LauncherSpec::Programs(BrowserPrograms::Firefox))
    } else if str_eq(id, "firefox-esr.desktop") {
        Some(LauncherSpec::Programs(BrowserPrograms::FirefoxEsr))
    } else if str_eq(id, "com.google.Chrome.desktop") {
        Some(LauncherSpec::Flatpak("com.google.Chrome"))
    } else if str_eq(id, "org.chromium.Chromium.desktop") {
        Some(LauncherSpec::Flatpak("org.chromium.Chromium"))
    } else if str_eq(id, "com.microsoft.Edge.desktop") {
        Some(LauncherSpec::Flatpak("com.microsoft.Edge"))
    } else if str_eq(id, "org.mozilla.firefox.desktop") {
        Some(LauncherSpec::ProgramsOrFlatpak { programs: BrowserPrograms::Firefox, app_id: "org.mozilla.firefox" })
    } else if str_eq(id, "com.brave.Browser.desktop") {
        Some(LauncherSpec::Flatpak("com.brave.Browser"))
    } else if str_eq(id, "vivaldi-stable.desktop") {
        Some(LauncherSpec::Programs(BrowserPrograms::Vivaldi))
    } else if str_eq(id, "com.vivaldi.Vivaldi.desktop") {
        Some(LauncherSpec::Flatpak("com.vivaldi.Vivaldi"))
    } else if str_eq(id, "org.kde.falkon.desktop") {
        Some(LauncherSpec::ProgramsOrFlatpak { programs: BrowserPrograms::Falkon, app_id: "org.kde.falkon" })
    } else if str_eq(id, "org.gnome.Epiphany.desktop") {
        Some(LauncherSpec::ProgramsOrFlatpak { programs: BrowserPrograms::Epiphany, app_id: "org.gnome.Epiphany" })
    } else if str_eq(id, "com.opera.Opera.desktop") {
        Some(LauncherSpec::Flatpak("com.opera.Opera"))
    } else if str_eq(id, "io.gitlab.librewolf-community.desktop") {
        Some(LauncherSpec::Flatpak("io.gitlab.librewolf-community"))
    } else if str_eq(id, "net.waterfox.waterfox.desktop") {
        Some(LauncherSpec::Flatpak("net.waterfox.waterfox"))
    } else if str_eq(id, "org.qutebrowser.qutebrowser.desktop") {
        Some(
            LauncherSpec::ProgramsOrFlatpak {
                programs: BrowserPrograms::Qutebrowser,
                app_id: "org.qutebrowser.qutebrowser",
            },
        )
    } else {
        None
    }
}

/// An application is installed when one line of the list, trimmed, is
/// its ID.
pub open spec fn app_listed(lines: Seq<Seq<char>>, app_id: Seq<char>) -> bool {
    exists|i: int| 0 <= i < lines.len() && trim(#[trigger] lines[i]) == app_id
}

/// The first Flatpak browser, in priority order, that the list of
/// installed applications names exactly.
pub open spec fn auto_flatpak_app(installed: Seq<char>) -> Option<Seq<char>> {
    let lines = split_lines(installed);
    let ids = auto_flatpak_ids();
    if exists|k: int| 0 <= k < ids.len() && app_listed(lines, #[trigger] ids[k]) {
        let k = choose|k: int| 0 <= k < ids.len() && app_listed(lines, #[trigger] ids[k]) && forall|m: int| 0 <= m < k ==> !app_listed(lines, #[trigger] ids[m]);
        Some(ids[k])
    } else {
        None
    }
}

fn listed(lines: &Vec<String>, app_id: &str) -> (r: bool)
    ensures
        r == app_listed(lines.deep_view(), app_id@),
{
    let ghost ls = lines.deep_view();
    let mut i: usize = 0;
    while i < lines.len()
        invariant
            i <= lines.len(),
            ls == lines.deep_view(),
            forall|j: int| 0 <= j < i ==> trim(#[trigger] ls[j]) != app_id@,
        decreases lines.len() - i,
    {
        let t = trim_str(lines[i].as_str());
        if str_eq(t.as_str(), app_id) {
            assert(trim(ls[i as int]) == app_id@);
            return true;
        }
        i += 1;
    }
    false
}

/// The first Flatpak browser, in priority order, among the installed
/// applications (one ID per line).
pub fn find_auto_flatpak_app_id(installed_apps: &str) -> (r: Option<&'static str>)
    ensures
        match r {
            Some(id) => auto_flatpak_app(installed_apps@) == Some(id@),
            None => auto_flatpak_app(installed_apps@) is None,
        },
{
    let ls = lines(installed_apps);
    let ids = auto_browser_flatpak_ids();
    let ghost idv = ids@.map_values(|s: &str| s@);
    let mut k: usize = 0;
    while k < ids.len()
        invariant
            k <= ids.len(),
            idv == ids@.map_values(|s: &str| s@),
            idv == auto_flatpak_ids(),
            ls.deep_view() == split_lines(installed_apps@),
            forall|m: int| 0 <= m < k ==> !app_listed(ls.deep_view(), #[trigger] idv[m]),
        decreases ids.len() - k,
    {
        if listed(&ls, ids[k]) {
            proof {
                let lsv = ls.deep_view();
                assert(app_listed(lsv, idv[k as int]));
                let c = choose|c: int| 0 <= c < idv.len() && app_listed(lsv, #[trigger] idv[c]) && forall|m: int| 0 <= m < c ==> !app_listed(lsv, #[trigger] idv[m]);
                assert(0 <= k < idv.len() && app_listed(lsv, idv[k as int]) && forall|m: int| 0 <= m < k ==> !app_listed(lsv, #[trigger] idv[m]));
                if c < k {
                    assert(!app_listed(lsv, idv[c]));
                } else if c > k {
                    assert(!app_listed(lsv, idv[k as int]));
                }
                assert(c == k);
            }
            return Some(ids[k]);
        }
        k += 1;
    }
    None
}

/// The first of `l` that `which` finds, every earlier one not found;
/// `None` when none is found.
pub open spec fn found_first<F: Fn(&str) -> Option<String>>(
    l: Seq<&str>,
    which: F,
    r: Option<String>,
) -> bool {
    match r {
        Some(p) => exists|i: int|
            0 <= i < l.len() && #[trigger] which.ensures((l[i],), Some(p)) && forall|j: int|
                0 <= j < i ==> #[trigger] which.ensures((l[j],), None),
        None => forall|j: int| 0 <= j < l.len() ==> #[trigger] which.ensures((l[j],), None),
    }
}

/// The path of the first of `programs` that `which` finds.
pub fn find_programs<F: Fn(&str) -> Option<String>>(programs: &Vec<&str>, which: &F) -> (r: Option<String>)
    requires
        forall|s: &str| which.requires((s,)),
    ensures
        found_first(programs@, *which, r),
{
    let mut i: usize = 0;
    while i < programs.len()
        invariant
            i <= programs.len(),
            forall|s: &str| which.requires((s,)),
            forall|j: int| 0 <= j < i ==> #[trigger] which.ensures((programs@[j],), None),
        decreases programs.len() - i,
    {
        let found = which(programs[i]);
        if let Some(p) = found {
            assert(which.ensures((programs@[i as int],), Some(p)));
            return Some(p);
        }
        i += 1;
    }
    None
}

/// The programs that a named browser is looked for as, in order: a
/// browser's own programs before its variants, and a custom browser by its
/// trimmed name.
pub open spec fn browser_candidates(b: BrowserChoice) -> Seq<Seq<char>> {
    match b {
        BrowserChoice::Chrome => seq!["google-chrome-stable"@, "google-chrome"@, "chromium"@, "chromium-browser"@],
        BrowserChoice::Edge => seq![
            "microsoft-edge-stable"@,
            "microsoft-edge"@,
            "microsoft-edge-beta"@,
            "microsoft-edge-dev"@,
        ],
        BrowserChoice::Firefox => seq!["firefox"@, "firefox-esr"@],
        BrowserChoice::Safari => seq!["safari"@],
        BrowserChoice::Other(name) => seq![trim(name)],
        _ => Seq::empty(),
    }
}

/// What the user is told when a named browser is not found.
pub open spec fn unavailable_message(b: BrowserChoice) -> Seq<char> {
    match b {
        BrowserChoice::Chrome => "Chrome is not available."@,
        BrowserChoice::Edge => "Edge is not available."@,
        BrowserChoice::Firefox => "Firefox is not available."@,
        BrowserChoice::Safari => "Safari is not available."@,
        _ => "Configured browser is not available."@,
    }
}

/// How a URL is opened.
#[derive(Debug, PartialEq, Eq)]
pub enum OpenUrlPlan {
    /// The recognized default browser, else a detected one, else the
    /// system's URL handler.
    Auto,
    /// The system's URL handler.
    SystemDefault,
    /// The browser program at this path.
    Executable(String),
}

/// How to open a URL in `browser`, with `which` finding programs: a named
/// browser is opened by the first of its programs found, and is an error
/// when none is.
pub fn open_url<F: Fn(&str) -> Option<String>>(url: &str, browser: Browser, which: F) -> (r: Result<
    OpenUrlPlan,
    String,
>)
    requires
        forall|s: &str| which.requires((s,)),
    ensures
        browser is Auto ==> r == Ok::<OpenUrlPlan, String>(OpenUrlPlan::Auto),
        browser is Default ==> r == Ok::<OpenUrlPlan, String>(OpenUrlPlan::SystemDefault),
        !(browser is Auto) && !(browser is Default) ==> exists|l: Seq<&str>, found: Option<String>|
            #![trigger found_first(l, which, found)]
            l.map_values(|s: &str| s@) == browser_candidates(choice_of(browser)) && found_first(
                l,
                which,
                found,
            ) && match found {
                Some(p) => r == Ok::<OpenUrlPlan, String>(OpenUrlPlan::Executable(p)),
                None => r matches Err(m) && m@ == unavailable_message(choice_of(browser)),
            },
{
    let (programs, message): (Vec<&str>, &str) = match browser {
        Browser::Auto => {
            return Ok(OpenUrlPlan::Auto);
        },
        Browser::Default => {
            return Ok(OpenUrlPlan::SystemDefault);
        },
        Browser::Chrome => (
            vec!["google-chrome-stable", "google-chrome", "chromium", "chromium-browser"],
            "Chrome is not available.",
        ),
        Browser::Edge => (
            vec!["microsoft-edge-stable", "microsoft-edge", "microsoft-edge-beta", "microsoft-edge-dev"],
            "Edge is not available.",
        ),
        Browser::Firefox => (vec!["firefox", "firefox-esr"], "Firefox is not available."),
        Browser::Safari => (vec!["safari"], "Safari is not available."),
        Browser::Other(name) => (vec![crate::text::trim_slice(name)], "Configured browser is not available."),
    };
    assert(programs@.map_values(|s: &str| s@) =~= browser_candidates(choice_of(browser)));
    let found = find_programs(&programs, &which);
    assert(found_first(programs@, which, found));
    match found {
        Some(p) => Ok(OpenUrlPlan::Executable(p)),
        None => Err(message.to_string()),
    }
}

/// The local server's answer to the browser: a redirect to the request
/// when it is a URL, else the request itself as an HTML page.
#[derive(Debug, PartialEq, Eq)]
pub struct AuthResponse {
    pub status: u16,
    pub header_name: String,
    pub header_value: String,
    pub body: String,
}

/// The answer that serves an authentication request.
pub fn build_auth_response(auth_request: &str) -> (r: AuthResponse)
    ensures
        starts_with(auth_request@, "http"@) ==> r.status == 302 && r.header_name@ == "location"@
            && r.header_value@ == auth_request@ && r.body@ == "redirect"@,
        !starts_with(auth_request@, "http"@) ==> r.status == 200 && r.header_name@ == "content-type"@
            && r.header_value@ == "text/html"@ && r.body@ == auth_request@,
{
    if starts_with_str(auth_request, "http") {
        AuthResponse {
            status: 302,
            header_name: "location".to_string(),
            header_value: auth_request.to_string(),
            body: "redirect".to_string(),
        }
    } else {
        AuthResponse {
            status: 200,
            header_name: "content-type".to_string(),
            header_value: "text/html".to_string(),
            body: auth_request.to_string(),
        }
    }
}

/// The URL the browser opens: the server's address and the request's
/// secret path.
pub fn auth_url(server_addr: &str, auth_id: &str) -> (r: String)
    ensures
        r@ == "http://"@ + server_addr@ + "/"@ + auth_id@,
{
    let mut u = "http://".to_string();
    u.append(server_addr);
    u.append("/");
    u.append(auth_id);
    u
}

/// Only the request's secret path is served; anything else is forbidden.
pub fn is_auth_path(url: &str, auth_id: &str) -> (r: bool)
    ensures
        r == (url@ == "/"@ + auth_id@),
{
    let mut p = "/".to_string();
    p.append(auth_id);
    str_eq(url, p.as_str())
}

} // verus!
