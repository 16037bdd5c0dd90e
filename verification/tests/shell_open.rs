use flatpak_bundler::portal::{
    portal_open_uri, INTERFACE, MEMBER, NAMESPACE, OBJECT_PATH, OPTIONS_SIGNATURE,
    REPLY_TIMEOUT_SECS,
};
use flatpak_bundler::shell::{
    open, OpenWith, Platform, Program, Protocol, ShellError, XdgDesktopPortalOptions,
};
use std::cell::RefCell;

#[test]
fn names_are_read_whatever_their_case() {
    assert_eq!(OpenWith::from_str("open"), Ok(OpenWith::Program(Program::Open)));
    assert_eq!(OpenWith::from_str("start"), Ok(OpenWith::Program(Program::Start)));
    assert_eq!(OpenWith::from_str("xdg-open"), Ok(OpenWith::Program(Program::XdgOpen)));
    assert_eq!(
        OpenWith::from_str("xdg-desktop-portal"),
        Ok(OpenWith::Protocol(Protocol::XdgDesktopPortal(None)))
    );
    assert_eq!(OpenWith::from_str("gio"), Ok(OpenWith::Program(Program::Gio)));
    assert_eq!(OpenWith::from_str("gnome-open"), Ok(OpenWith::Program(Program::GnomeOpen)));
    assert_eq!(OpenWith::from_str("kde-open"), Ok(OpenWith::Program(Program::KdeOpen)));
    assert_eq!(OpenWith::from_str("wslview"), Ok(OpenWith::Program(Program::WslView)));
    assert_eq!(OpenWith::from_str("firefox"), Ok(OpenWith::Program(Program::Firefox)));
    assert_eq!(OpenWith::from_str("chrome"), Ok(OpenWith::Program(Program::Chrome)));
    assert_eq!(OpenWith::from_str("google chrome"), Ok(OpenWith::Program(Program::Chrome)));
    assert_eq!(OpenWith::from_str("chromium"), Ok(OpenWith::Program(Program::Chromium)));
    assert_eq!(OpenWith::from_str("safari"), Ok(OpenWith::Program(Program::Safari)));
    assert_eq!(OpenWith::from_str("Firefox"), Ok(OpenWith::Program(Program::Firefox)));
    assert_eq!(OpenWith::from_str("GOOGLE CHROME"), Ok(OpenWith::Program(Program::Chrome)));
    assert_eq!(
        OpenWith::from_str("XDG-Desktop-Portal"),
        Ok(OpenWith::Protocol(Protocol::XdgDesktopPortal(None)))
    );
}

#[test]
fn unknown_names_come_back_as_given() {
    assert_eq!(
        OpenWith::from_str("Netscape"),
        Err(ShellError::UnknownProgramName("Netscape".to_string()))
    );
    assert_eq!(
        OpenWith::from_str(""),
        Err(ShellError::UnknownProgramName("".to_string()))
    );
    assert_eq!(
        OpenWith::from_str("google-chrome"),
        Err(ShellError::UnknownProgramName("google-chrome".to_string()))
    );
    assert_eq!(
        OpenWith::from_str(" open"),
        Err(ShellError::UnknownProgramName(" open".to_string()))
    );
}

#[test]
fn names_parse_through_the_standard_trait() {
    assert_eq!("Safari".parse::<OpenWith>(), Ok(OpenWith::Program(Program::Safari)));
    assert_eq!(
        "nothing".parse::<OpenWith>(),
        Err(ShellError::UnknownProgramName("nothing".to_string()))
    );
}

#[test]
fn table_lookup_takes_the_name_as_it_is() {
    assert_eq!(OpenWith::from_lowercase("gio"), Some(OpenWith::Program(Program::Gio)));
    assert_eq!(OpenWith::from_lowercase("Gio"), None);
    assert_eq!(OpenWith::from_lowercase(""), None);
}

#[test]
fn programs_have_their_names() {
    assert_eq!(Program::Open.name(), "open");
    assert_eq!(Program::Start.name(), "start");
    assert_eq!(Program::XdgOpen.name(), "xdg-open");
    assert_eq!(Program::Gio.name(), "gio");
    assert_eq!(Program::GnomeOpen.name(), "gnome-open");
    assert_eq!(Program::KdeOpen.name(), "kde-open");
    assert_eq!(Program::WslView.name(), "wslview");
    assert_eq!(Program::Firefox.name(), "firefox");
    assert_eq!(Program::Chrome.name(), "google-chrome");
    assert_eq!(Program::Chromium.name(), "chromium");
    assert_eq!(Program::Safari.name(), "safari");
}

#[test]
fn browsers_go_by_their_display_names_on_macos() {
    assert_eq!(Program::Firefox.name_on(Platform::MacOs), "Firefox");
    assert_eq!(Program::Chrome.name_on(Platform::MacOs), "Google Chrome");
    assert_eq!(Program::Chromium.name_on(Platform::MacOs), "Chromium");
    assert_eq!(Program::Safari.name_on(Platform::MacOs), "Safari");
    assert_eq!(Program::Open.name_on(Platform::MacOs), "open");
    assert_eq!(Program::XdgOpen.name_on(Platform::MacOs), "xdg-open");
    assert_eq!(Program::Chrome.name_on(Platform::Other), "google-chrome");
}

#[test]
fn programs_and_protocols_convert() {
    assert_eq!(OpenWith::from(Program::Gio), OpenWith::Program(Program::Gio));
    let with: OpenWith = Protocol::XdgDesktopPortal(Some(XdgDesktopPortalOptions::Ask)).into();
    assert_eq!(
        with,
        OpenWith::Protocol(Protocol::XdgDesktopPortal(Some(XdgDesktopPortalOptions::Ask)))
    );
}

#[test]
fn open_hands_path_and_converted_program_to_the_scope() {
    let seen: RefCell<Vec<(String, Option<OpenWith>)>> = RefCell::new(Vec::new());
    let result = open(
        |path: &str, with: Option<OpenWith>| -> Result<(), String> {
            seen.borrow_mut().push((path.to_string(), with));
            Ok(())
        },
        "https://tauri.app",
        Some(Program::Firefox),
    );
    assert_eq!(result, Ok(()));
    assert_eq!(
        seen.into_inner(),
        vec![(
            "https://tauri.app".to_string(),
            Some(OpenWith::Program(Program::Firefox))
        )]
    );
}

#[test]
fn open_without_a_program_leaves_the_choice_to_the_scope() {
    let seen: RefCell<Vec<Option<OpenWith>>> = RefCell::new(Vec::new());
    let result = open(
        |_path: &str, with: Option<OpenWith>| -> Result<(), String> {
            seen.borrow_mut().push(with);
            Ok(())
        },
        "https://tauri.app",
        None::<OpenWith>,
    );
    assert_eq!(result, Ok(()));
    assert_eq!(seen.into_inner(), vec![None]);
}

#[test]
fn open_wraps_the_failure_of_the_scope() {
    let result = open(
        |_path: &str, _with: Option<OpenWith>| -> Result<(), String> {
            Err("scope not allowed".to_string())
        },
        "file:///etc/passwd",
        Some(Protocol::XdgDesktopPortal(None)),
    );
    assert_eq!(
        result,
        Err(ShellError::Shell("failed to open: scope not allowed".to_string()))
    );
    assert_eq!(
        result.unwrap_err().message(),
        "shell error: failed to open: scope not allowed"
    );
    assert_eq!(
        ShellError::UnknownProgramName("x".to_string()).message(),
        "unknown program name: x"
    );
}

#[test]
fn portal_request_opens_the_uri() {
    let request = portal_open_uri("https://tauri.app", None);
    assert_eq!(request.destination, "org.freedesktop.portal.Desktop");
    assert_eq!(request.object_path, "/org/freedesktop/portal/desktop");
    assert_eq!(request.interface, "org.freedesktop.portal.OpenURI");
    assert_eq!(request.member, "OpenURI");
    assert_eq!(request.parent_window, "");
    assert_eq!(request.uri, "https://tauri.app");
    assert_eq!(request.options_signature, "a{sv}");
    assert!(request.options.is_empty());
    assert_eq!(request.timeout_secs, 5);
    assert_eq!(NAMESPACE, "org.freedesktop.portal.Desktop");
    assert_eq!(OBJECT_PATH, "/org/freedesktop/portal/desktop");
    assert_eq!(INTERFACE, "org.freedesktop.portal.OpenURI");
    assert_eq!(MEMBER, "OpenURI");
    assert_eq!(OPTIONS_SIGNATURE, "a{sv}");
    assert_eq!(REPLY_TIMEOUT_SECS, 5);
}

#[test]
fn portal_request_sends_no_options_even_when_asked() {
    let asked = portal_open_uri("https://tauri.app", Some(XdgDesktopPortalOptions::Ask));
    assert_eq!(asked, portal_open_uri("https://tauri.app", None));
}
