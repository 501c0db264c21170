use gpapi::browser::{
    auto_browser_families, auto_browser_flatpak_ids, find_auto_flatpak_app_id, find_browser_path,
    is_remote_browser, launcher_spec_for_desktop_id, open_url, Browser, BrowserAuthenticator,
    BrowserAuthenticatorImpl, BrowserPrograms, LauncherSpec, OpenUrlPlan,
};

#[test]
fn shared_launcher_keeps_auto_distinct_from_system_default() {
    assert_eq!(Browser::from_name("auto"), Browser::Auto);
    assert_eq!(Browser::from_name("default"), Browser::Default);
}

#[test]
fn browser_remote_remains_auth_specific() {
    assert!(is_remote_browser("remote"));
    assert!(is_remote_browser("REMOTE"));
    assert_ne!(Browser::from_name("remote"), Browser::Default);
}

#[test]
fn empty_config_uses_auto() {
    assert_eq!(Browser::from_config(None), Browser::Auto);
    assert_eq!(Browser::from_config(Some("")), Browser::Auto);
    assert_eq!(Browser::from_config(Some("  ")), Browser::Auto);
}

#[test]
fn known_browser_names_are_case_insensitive() {
    assert_eq!(Browser::from_name("AUTO"), Browser::Auto);
    assert_eq!(Browser::from_name("Default"), Browser::Default);
    assert_eq!(Browser::from_name("Chrome"), Browser::Chrome);
    assert_eq!(Browser::from_name("EDGE"), Browser::Edge);
    assert_eq!(Browser::from_name("Firefox"), Browser::Firefox);
    assert_eq!(Browser::from_name("Safari"), Browser::Safari);
}

#[test]
fn custom_browser_names_are_preserved() {
    assert_eq!(Browser::from_name("/opt/browser"), Browser::Other("/opt/browser"));
    assert_eq!(Browser::from_config(Some(" custom-browser ")), Browser::Other(" custom-browser "));
}

#[test]
fn auto_candidates_use_the_expected_order() {
    let candidates = auto_browser_families()
        .into_iter()
        .flat_map(|programs| programs.programs())
        .collect::<Vec<_>>();

    assert_eq!(
        candidates,
        vec![
            "google-chrome-stable",
            "google-chrome",
            "chromium",
            "chromium-browser",
            "microsoft-edge-stable",
            "microsoft-edge",
            "microsoft-edge-beta",
            "microsoft-edge-dev",
            "firefox",
            "firefox-esr",
            "brave-browser-stable",
            "vivaldi-stable",
            "falkon",
            "epiphany",
            "opera",
            "librewolf",
            "waterfox",
            "qutebrowser",
        ]
    );

    assert_eq!(
        auto_browser_flatpak_ids(),
        [
            "com.google.Chrome",
            "org.chromium.Chromium",
            "com.microsoft.Edge",
            "org.mozilla.firefox",
            "com.brave.Browser",
            "com.vivaldi.Vivaldi",
            "org.kde.falkon",
            "org.gnome.Epiphany",
            "com.opera.Opera",
            "io.gitlab.librewolf-community",
            "net.waterfox.waterfox",
            "org.qutebrowser.qutebrowser",
        ]
    );
}

#[test]
fn known_desktop_ids_map_to_expected_launchers() {
    let cases = [
        ("google-chrome.desktop", LauncherSpec::Programs(BrowserPrograms::GoogleChrome)),
        ("chromium.desktop", LauncherSpec::Programs(BrowserPrograms::Chromium)),
        ("chromium-browser.desktop", LauncherSpec::Programs(BrowserPrograms::Chromium)),
        ("chromium_chromium.desktop", LauncherSpec::Programs(BrowserPrograms::Chromium)),
        ("microsoft-edge.desktop", LauncherSpec::Programs(BrowserPrograms::Edge)),
        ("microsoft-edge-beta.desktop", LauncherSpec::Programs(BrowserPrograms::EdgeBeta)),
        ("microsoft-edge-dev.desktop", LauncherSpec::Programs(BrowserPrograms::EdgeDev)),
        ("firefox.desktop", LauncherSpec::Programs(BrowserPrograms::Firefox)),
        ("firefox-esr.desktop", LauncherSpec::Programs(BrowserPrograms::FirefoxEsr)),
        ("firefox_firefox.desktop", LauncherSpec::Programs(BrowserPrograms::Firefox)),
        ("com.google.Chrome.desktop", LauncherSpec::Flatpak("com.google.Chrome")),
        ("org.chromium.Chromium.desktop", LauncherSpec::Flatpak("org.chromium.Chromium")),
        ("com.microsoft.Edge.desktop", LauncherSpec::Flatpak("com.microsoft.Edge")),
        (
            "org.mozilla.firefox.desktop",
            LauncherSpec::ProgramsOrFlatpak { programs: BrowserPrograms::Firefox, app_id: "org.mozilla.firefox" },
        ),
        ("com.brave.Browser.desktop", LauncherSpec::Flatpak("com.brave.Browser")),
        ("vivaldi-stable.desktop", LauncherSpec::Programs(BrowserPrograms::Vivaldi)),
        ("com.vivaldi.Vivaldi.desktop", LauncherSpec::Flatpak("com.vivaldi.Vivaldi")),
        (
            "org.kde.falkon.desktop",
            LauncherSpec::ProgramsOrFlatpak { programs: BrowserPrograms::Falkon, app_id: "org.kde.falkon" },
        ),
        (
            "org.gnome.Epiphany.desktop",
            LauncherSpec::ProgramsOrFlatpak { programs: BrowserPrograms::Epiphany, app_id: "org.gnome.Epiphany" },
        ),
        ("com.opera.Opera.desktop", LauncherSpec::Flatpak("com.opera.Opera")),
        ("io.gitlab.librewolf-community.desktop", LauncherSpec::Flatpak("io.gitlab.librewolf-community")),
        ("net.waterfox.waterfox.desktop", LauncherSpec::Flatpak("net.waterfox.waterfox")),
        (
            "org.qutebrowser.qutebrowser.desktop",
            LauncherSpec::ProgramsOrFlatpak {
                programs: BrowserPrograms::Qutebrowser,
                app_id: "org.qutebrowser.qutebrowser",
            },
        ),
    ];

    for (desktop_id, expected) in cases {
        assert_eq!(launcher_spec_for_desktop_id(desktop_id), Some(expected));
    }
}

#[test]
fn unknown_desktop_id_is_not_used() {
    assert_eq!(launcher_spec_for_desktop_id("code.desktop"), None);
}

#[test]
fn auto_flatpak_candidates_use_priority_and_exact_ids() {
    assert_eq!(find_auto_flatpak_app_id("org.kde.falkon\ncom.brave.Browser\n"), Some("com.brave.Browser"));
    assert_eq!(find_auto_flatpak_app_id("com.brave.Browser.beta\n"), None);
}

/// No program named `gpgui-browser-that-does-not-exist` is installed, so the
/// lookup finds nothing.
#[test]
fn unavailable_custom_browser_returns_an_error() {
    let err = open_url("https://example.com", Browser::Other("gpgui-browser-that-does-not-exist"), |_| None).unwrap_err();

    assert_eq!(err, "Configured browser is not available.");
}

#[test]
fn named_browser_opens_first_program_found() {
    let plan = open_url("https://example.com", Browser::Chrome, |p| {
        if p == "chromium" { Some("/usr/bin/chromium".to_string()) } else { None }
    })
    .unwrap();
    assert_eq!(plan, OpenUrlPlan::Executable("/usr/bin/chromium".to_string()));
    assert_eq!(open_url("u", Browser::Auto, |_| None).unwrap(), OpenUrlPlan::Auto);
    assert_eq!(open_url("u", Browser::Default, |_| None).unwrap(), OpenUrlPlan::SystemDefault);
    assert_eq!(open_url("u", Browser::Edge, |_| None).unwrap_err(), "Edge is not available.");
    let plan = open_url("u", Browser::Other("  mybrowser "), |p| Some(format!("/bin/{}", p))).unwrap();
    assert_eq!(plan, OpenUrlPlan::Executable("/bin/mybrowser".to_string()));
}

#[test]
fn browser_authenticator_serves_on_the_right_address() {
    let local = BrowserAuthenticator::new("req", "default");
    assert!(!local.is_remote());
    assert_eq!(local.server_address("10.0.0.5"), "127.0.0.1:0");
    let remote = BrowserAuthenticator::new("req", "Remote");
    assert!(remote.is_remote());
    assert_eq!(remote.server_address("10.0.0.5"), "10.0.0.5:0");
    assert_eq!(remote.request(), "req");
}

#[test]
fn browser_choice_of_authenticator() {
    assert_eq!(BrowserAuthenticatorImpl::new("req").browser(), None);
    assert_eq!(BrowserAuthenticatorImpl::new_with_browser("req", "  default ").browser(), None);
    assert_eq!(BrowserAuthenticatorImpl::new_with_browser("req", "   ").browser(), None);
    assert_eq!(BrowserAuthenticatorImpl::new_with_browser("req", " firefox ").browser(), Some("firefox"));
}

#[test]
fn chrome_path_is_looked_up() {
    let path = find_browser_path("chrome", |p| if p == "google-chrome" { Some("/opt/gc".to_string()) } else { None });
    assert_eq!(path, "/opt/gc");
    assert_eq!(find_browser_path("chrome", |_| None), "chrome");
    assert_eq!(find_browser_path("firefox", |_| Some("/x".to_string())), "firefox");
}
