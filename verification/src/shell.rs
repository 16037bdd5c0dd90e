//! Opening a path or a URL with a program or through a desktop portal.

use vstd::prelude::*;
use vstd::string::*;
use vstd::std_specs::convert::IntoSpec;
use crate::text::{concat2, same_text};

verus! {

/// Options of an `open` call that goes through the desktop portal.
#[derive(Debug, Clone, Copy, PartialEq, Eq)]
pub enum XdgDesktopPortalOptions {
    /// Ask the user to choose an application. Without it the portal may use
    /// a default or the last choice.
    Ask,
}

/// A protocol to open with.
#[derive(Debug, Clone, Copy, PartialEq, Eq)]
pub enum Protocol {
    /// The portal interface on the session bus.
    XdgDesktopPortal(Option<XdgDesktopPortalOptions>),
}

/// A program to open with.
#[derive(Debug, Clone, Copy, PartialEq, Eq)]
pub enum Program {
    /// The `open` program.
    Open,
    /// The `start` program.
    Start,
    /// The `xdg-open` program.
    XdgOpen,
    /// The `gio` program.
    Gio,
    /// The `gnome-open` program.
    GnomeOpen,
    /// The `kde-open` program.
    KdeOpen,
    /// The `wslview` program.
    WslView,
    /// The Firefox browser.
    Firefox,
    /// The Google Chrome browser.
    Chrome,
    /// The Chromium browser.
    Chromium,
    /// The Safari browser.
    Safari,
}

/// What to open a path or a URL with.
#[derive(Debug, Clone, Copy, PartialEq, Eq)]
pub enum OpenWith {
    /// A program.
    Program(Program),
    /// A protocol.
    Protocol(Protocol),
}

/// The platforms that name the browsers differently.
#[derive(Debug, Clone, Copy, PartialEq, Eq)]
pub enum Platform {
    /// macOS, where a browser is called by its display name.
    MacOs,
    /// Every other platform, where a browser is called by its command.
    Other,
}

/// Why an `open` call failed.
#[derive(Debug, Clone, PartialEq, Eq)]
pub enum ShellError {
    /// The name stands for no known program or protocol.
    UnknownProgramName(String),
    /// The path could not be opened.
    Shell(String),
}

/// The content of a `ShellError`.
pub enum ShellErrorView {
    UnknownProgramName(Seq<char>),
    Shell(Seq<char>),
}

impl View for ShellError {
    type V = ShellErrorView;

    open spec fn view(&self) -> ShellErrorView {
        match self {
            ShellError::UnknownProgramName(name) => ShellErrorView::UnknownProgramName(name@),
            ShellError::Shell(reason) => ShellErrorView::Shell(reason@),
        }
    }
}

impl ShellError {
    /// The one line that describes this failure.
    pub fn message(&self) -> (line: String)
        ensures
            line@ == match self@ {
                ShellErrorView::UnknownProgramName(name) => "unknown program name: "@ + name,
                ShellErrorView::Shell(reason) => "shell error: "@ + reason,
            },
    {
        match self {
            ShellError::UnknownProgramName(name) => concat2(
                "unknown program name: ",
                name.as_str(),
            ),
            ShellError::Shell(reason) => concat2("shell error: ", reason.as_str()),
        }
    }
}

impl From<Program> for OpenWith {
    fn from(program: Program) -> (with: OpenWith) {
        OpenWith::Program(program)
    }
}

impl vstd::std_specs::convert::FromSpecImpl<Program> for OpenWith {
    open spec fn obeys_from_spec() -> bool {
        true
    }

    open spec fn from_spec(program: Program) -> OpenWith {
        OpenWith::Program(program)
    }
}

impl From<Protocol> for OpenWith {
    fn from(protocol: Protocol) -> (with: OpenWith) {
        OpenWith::Protocol(protocol)
    }
}

impl vstd::std_specs::convert::FromSpecImpl<Protocol> for OpenWith {
    open spec fn obeys_from_spec() -> bool {
        true
    }

    open spec fn from_spec(protocol: Protocol) -> OpenWith {
        OpenWith::Protocol(protocol)
    }
}

/// The lowercase form of a text, as the standard library defines it for
/// Unicode.
pub uninterp spec fn lowercase(text: Seq<char>) -> Seq<char>;

/// `str::to_lowercase`: the lowercase equivalent of `text` as a new string;
/// its content is `lowercase(text)`, of which nothing more is claimed.
#[verifier::external_body]
pub(crate) fn to_lowercase(text: &str) -> (lower: String)
    ensures
        lower@ == lowercase(text@),
{
    text.to_lowercase()
}

/// The table of names: what a name in lowercase stands for, if anything.
pub open spec fn open_with_named(lower: Seq<char>) -> Option<OpenWith> {
    if lower == "open"@ {
        Some(OpenWith::Program(Program::Open))
    } else if lower == "start"@ {
        Some(OpenWith::Program(Program::Start))
    } else if lower == "xdg-open"@ {
        Some(OpenWith::Program(Program::XdgOpen))
    } else if lower == "xdg-desktop-portal"@ {
        Some(OpenWith::Protocol(Protocol::XdgDesktopPortal(None)))
    } else if lower == "gio"@ {
        Some(OpenWith::Program(Program::Gio))
    } else if lower == "gnome-open"@ {
        Some(OpenWith::Program(Program::GnomeOpen))
    } else if lower == "kde-open"@ {
        Some(OpenWith::Program(Program::KdeOpen))
    } else if lower == "wslview"@ {
        Some(OpenWith::Program(Program::WslView))
    } else if lower == "firefox"@ {
        Some(OpenWith::Program(Program::Firefox))
    } else if lower == "chrome"@ || lower == "google chrome"@ {
        Some(OpenWith::Program(Program::Chrome))
    } else if lower == "chromium"@ {
        Some(OpenWith::Program(Program::Chromium))
    } else if lower == "safari"@ {
        Some(OpenWith::Program(Program::Safari))
    } else {
        None
    }
}

/// The name a program is called by on a platform.
pub open spec fn name_of(program: Program, platform: Platform) -> Seq<char> {
    match program {
        Program::Open => "open"@,
        Program::Start => "start"@,
        Program::XdgOpen => "xdg-open"@,
        Program::Gio => "gio"@,
        Program::GnomeOpen => "gnome-open"@,
        Program::KdeOpen => "kde-open"@,
        Program::WslView => "wslview"@,
        Program::Firefox => match platform {
            Platform::MacOs => "Firefox"@,
            Platform::Other => "firefox"@,
        },
        Program::Chrome => match platform {
            Platform::MacOs => "Google Chrome"@,
            Platform::Other => "google-chrome"@,
        },
        Program::Chromium => match platform {
            Platform::MacOs => "Chromium"@,
            Platform::Other => "chromium"@,
        },
        Program::Safari => match platform {
            Platform::MacOs => "Safari"@,
            Platform::Other => "safari"@,
        },
    }
}

impl OpenWith {
    /// Looks a name up in the table. The name is taken as it is: only
    /// lowercase names are in the table.
    pub fn from_lowercase(lower: &str) -> (with: Option<OpenWith>)
        ensures
            with == open_with_named(lower@),
    {
        if same_text(lower, "open") {
            Some(OpenWith::Program(Program::Open))
        } else if same_text(lower, "start") {
            Some(OpenWith::Program(Program::Start))
        } else if same_text(lower, "xdg-open") {
            Some(OpenWith::Program(Program::XdgOpen))
        } else if same_text(lower, "xdg-desktop-portal") {
            Some(OpenWith::Protocol(Protocol::XdgDesktopPortal(None)))
        } else if same_text(lower, "gio") {
            Some(OpenWith::Program(Program::Gio))
        } else if same_text(lower, "gnome-open") {
            Some(OpenWith::Program(Program::GnomeOpen))
        } else if same_text(lower, "kde-open") {
            Some(OpenWith::Program(Program::KdeOpen))
        } else if same_text(lower, "wslview") {
            Some(OpenWith::Program(Program::WslView))
        } else if same_text(lower, "firefox") {
            Some(OpenWith::Program(Program::Firefox))
        } else if same_text(lower, "chrome") || same_text(lower, "google chrome") {
            Some(OpenWith::Program(Program::Chrome))
        } else if same_text(lower, "chromium") {
            Some(OpenWith::Program(Program::Chromium))
        } else if same_text(lower, "safari") {
            Some(OpenWith::Program(Program::Safari))
        } else {
            None
        }
    }

    /// Reads the name of a program or a protocol, whatever its case: the
    /// name is put in lowercase and looked up in the table. A name that is
    /// not in the table is handed back in the error, as it was given.
    pub fn from_str(s: &str) -> (result: Result<OpenWith, ShellError>)
        ensures
            match result {
                Ok(with) => open_with_named(lowercase(s@)) == Some(with),
                Err(error) => open_with_named(lowercase(s@)) is None && error@
                    == ShellErrorView::UnknownProgramName(s@),
            },
    {
        let lower = to_lowercase(s);
        match OpenWith::from_lowercase(lower.as_str()) {
            Some(with) => Ok(with),
            None => Err(ShellError::UnknownProgramName(s.to_owned())),
        }
    }
}

impl std::str::FromStr for OpenWith {
    type Err = ShellError;

    /// Reads the name of a program or a protocol, whatever its case, as the
    /// function of the same name on the type does: what `parse` gives is
    /// what the table holds for the name in lowercase, or the name as it was
    /// given, in the error.
    fn from_str(s: &str) -> (result: Result<OpenWith, ShellError>)
        ensures
            match result {
                Ok(with) => open_with_named(lowercase(s@)) == Some(with),
                Err(error) => open_with_named(lowercase(s@)) is None && error@
                    == ShellErrorView::UnknownProgramName(s@),
            },
    {
        OpenWith::from_str(s)
    }
}

impl Program {
    /// The name this program is called by on `platform`.
    pub fn name_on(self, platform: Platform) -> (name: &'static str)
        ensures
            name@ == name_of(self, platform),
    {
        match self {
            Program::Open => "open",
            Program::Start => "start",
            Program::XdgOpen => "xdg-open",
            Program::Gio => "gio",
            Program::GnomeOpen => "gnome-open",
            Program::KdeOpen => "kde-open",
            Program::WslView => "wslview",
            Program::Firefox => match platform {
                Platform::MacOs => "Firefox",
                Platform::Other => "firefox",
            },
            Program::Chrome => match platform {
                Platform::MacOs => "Google Chrome",
                Platform::Other => "google-chrome",
            },
            Program::Chromium => match platform {
                Platform::MacOs => "Chromium",
                Platform::Other => "chromium",
            },
            Program::Safari => match platform {
                Platform::MacOs => "Safari",
                Platform::Other => "safari",
            },
        }
    }

    /// The name this program is called by on Linux, where a Flatpak runs,
    /// and on every platform but macOS.
    pub fn name(self) -> (name: &'static str)
        ensures
            name@ == name_of(self, Platform::Other),
    {
        self.name_on(Platform::Other)
    }
}

/// What `with` becomes once it is converted.
pub open spec fn converted<W: Into<OpenWith>>(with: Option<W>) -> Option<OpenWith> {
    match with {
        Some(w) => Some(w.into_spec()),
        None => None,
    }
}

/// The failure of an `open` call whose scope gave `reason`.
pub open spec fn open_failure(reason: Seq<char>) -> ShellErrorView {
    ShellErrorView::Shell("failed to open: "@ + reason)
}

/// Opens `path` with what `with` names, or with the system's default where
/// it is `None`. The scope validates the path and does the opening; it is
/// called once, with the path and the converted `with`. What comes back is
/// the scope's success, or a shell failure whose text is `failed to open: `
/// followed by the scope's reason.
pub fn open<F: FnOnce(&str, Option<OpenWith>) -> Result<(), String>, W: Into<OpenWith>>(
    scope: F,
    path: &str,
    with: Option<W>,
) -> (result: Result<(), ShellError>)
    requires
        forall|chosen: Option<OpenWith>| scope.requires((path, chosen)),
    ensures
        exists|chosen: Option<OpenWith>, report: Result<(), String>|
            {
                &&& #[trigger] scope.ensures((path, chosen), report)
                &&& <W as IntoSpec<OpenWith>>::obeys_into_spec() ==> chosen == converted(with)
                &&& match report {
                    Ok(_) => result is Ok,
                    Err(reason) => result is Err && result->Err_0@ == open_failure(reason@),
                }
            },
{
    let chosen: Option<OpenWith> = match with {
        Some(w) => Some(w.into()),
        None => None,
    };
    let report = scope(path, chosen);
    assert(scope.ensures((path, chosen), report));
    match report {
        Ok(_) => Ok(()),
        Err(reason) => Err(ShellError::Shell(concat2("failed to open: ", reason.as_str()))),
    }
}

} // verus!
