//! The one call of the desktop portal that opens a URI.

use vstd::prelude::*;
use vstd::string::*;
use crate::shell::XdgDesktopPortalOptions;

verus! {

/// The bus name of the desktop portal.
pub const NAMESPACE: &'static str = "org.freedesktop.portal.Desktop";

/// The object the desktop portal lives at.
pub const OBJECT_PATH: &'static str = "/org/freedesktop/portal/desktop";

/// The interface that opens URIs.
pub const INTERFACE: &'static str = "org.freedesktop.portal.OpenURI";

/// The method that opens a URI.
pub const MEMBER: &'static str = "OpenURI";

/// The type of the options dictionary.
pub const OPTIONS_SIGNATURE: &'static str = "a{sv}";

/// How many seconds the caller waits for the portal's reply.
pub const REPLY_TIMEOUT_SECS: u64 = 5;

/// A method call on the session bus, ready to be sent.
#[derive(Debug, Clone, PartialEq, Eq)]
pub struct PortalRequest {
    pub destination: String,
    pub object_path: String,
    pub interface: String,
    pub member: String,
    /// The handle of the window the request belongs to; empty for none.
    pub parent_window: String,
    /// The URI to open.
    pub uri: String,
    /// The type of the options dictionary.
    pub options_signature: String,
    /// The keys of the options dictionary.
    pub options: Vec<String>,
    /// How long to wait for the reply.
    pub timeout_secs: u64,
}

/// The content of a `PortalRequest`.
pub struct PortalRequestView {
    pub destination: Seq<char>,
    pub object_path: Seq<char>,
    pub interface: Seq<char>,
    pub member: Seq<char>,
    pub parent_window: Seq<char>,
    pub uri: Seq<char>,
    pub options_signature: Seq<char>,
    pub options: Seq<Seq<char>>,
    pub timeout_secs: u64,
}

impl View for PortalRequest {
    type V = PortalRequestView;

    open spec fn view(&self) -> PortalRequestView {
        PortalRequestView {
            destination: self.destination@,
            object_path: self.object_path@,
            interface: self.interface@,
            member: self.member@,
            parent_window: self.parent_window@,
            uri: self.uri@,
            options_signature: self.options_signature@,
            options: self.options.deep_view(),
            timeout_secs: self.timeout_secs,
        }
    }
}

/// The call that asks the portal to open `path`: the `OpenURI` method of
/// the portal's object, with no parent window, the path as the URI and an
/// empty options dictionary, waiting five seconds for the reply.
pub open spec fn open_uri_request(path: Seq<char>) -> PortalRequestView {
    PortalRequestView {
        destination: NAMESPACE@,
        object_path: OBJECT_PATH@,
        interface: INTERFACE@,
        member: MEMBER@,
        parent_window: ""@,
        uri: path,
        options_signature: OPTIONS_SIGNATURE@,
        options: Seq::empty(),
        timeout_secs: REPLY_TIMEOUT_SECS,
    }
}

/// Builds the call that asks the portal to open `path`. The options
/// dictionary is sent empty whatever `options` holds: the portal then uses
/// its default or the last choice.
pub fn portal_open_uri(path: &str, options: Option<XdgDesktopPortalOptions>) -> (request:
    PortalRequest)
    ensures
        request@ == open_uri_request(path@),
{
    let entries: Vec<String> = Vec::new();
    assert(entries.deep_view() =~= Seq::<Seq<char>>::empty());
    PortalRequest {
        destination: NAMESPACE.to_owned(),
        object_path: OBJECT_PATH.to_owned(),
        interface: INTERFACE.to_owned(),
        member: MEMBER.to_owned(),
        parent_window: "".to_owned(),
        uri: path.to_owned(),
        options_signature: OPTIONS_SIGNATURE.to_owned(),
        options: entries,
        timeout_secs: REPLY_TIMEOUT_SECS,
    }
}

} // verus!
