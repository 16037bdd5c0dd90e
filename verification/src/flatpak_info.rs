//! What an application learns of the sandbox it runs in, from the key file
//! that the sandbox puts at a well-known place.

use vstd::prelude::*;
use vstd::string::*;
use crate::text::same_text;

verus! {

/// Where a sandbox puts its information. The root directory is not
/// normally writable by a user, which gives some confidence that a file
/// found there was put there by the sandbox.
pub const WELL_KNOWN_PATH: &'static str = "/.flatpak-info";

/// One assignment of a key file: a key of a group, and its value.
#[derive(Debug, Clone, PartialEq, Eq)]
pub struct KeyFileEntry {
    pub group: String,
    pub key: String,
    pub value: String,
}

/// The content of a `KeyFileEntry`.
pub struct KeyFileEntryView {
    pub group: Seq<char>,
    pub key: Seq<char>,
    pub value: Seq<char>,
}

impl View for KeyFileEntry {
    type V = KeyFileEntryView;

    open spec fn view(&self) -> KeyFileEntryView {
        KeyFileEntryView { group: self.group@, key: self.key@, value: self.value@ }
    }
}

/// A key file that was read and parsed: its assignments, in the order of
/// the file. Where a key of a group is assigned twice, the later one counts.
#[derive(Debug, Clone, PartialEq, Eq)]
pub struct KeyFileData {
    pub entries: Vec<KeyFileEntry>,
}

impl View for KeyFileData {
    type V = Seq<KeyFileEntryView>;

    open spec fn view(&self) -> Seq<KeyFileEntryView> {
        self.entries@.map_values(|entry: KeyFileEntry| entry@)
    }
}

/// Why the sandbox information could not be had.
#[derive(Debug, Clone, PartialEq, Eq)]
pub enum KeyFileError {
    /// The file is there but could not be read or parsed.
    Load { reason: String },
    /// The key file has no such group.
    GroupNotFound { group: String },
    /// The group has no such key.
    KeyNotFound { group: String, key: String },
}

/// The content of a `KeyFileError`.
pub enum KeyFileErrorView {
    Load { reason: Seq<char> },
    GroupNotFound { group: Seq<char> },
    KeyNotFound { group: Seq<char>, key: Seq<char> },
}

impl View for KeyFileError {
    type V = KeyFileErrorView;

    open spec fn view(&self) -> KeyFileErrorView {
        match self {
            KeyFileError::Load { reason } => KeyFileErrorView::Load { reason: reason@ },
            KeyFileError::GroupNotFound { group } => KeyFileErrorView::GroupNotFound {
                group: group@,
            },
            KeyFileError::KeyNotFound { group, key } => KeyFileErrorView::KeyNotFound {
                group: group@,
                key: key@,
            },
        }
    }
}

/// The value that the last assignment of `key` in `group` gives, if there
/// is one.
pub open spec fn value_in(entries: Seq<KeyFileEntryView>, group: Seq<char>, key: Seq<char>) -> Option<
    Seq<char>,
>
    decreases entries.len(),
{
    if entries.len() == 0 {
        None
    } else if entries.last().group == group && entries.last().key == key {
        Some(entries.last().value)
    } else {
        value_in(entries.drop_last(), group, key)
    }
}

/// Whether some assignment belongs to `group`.
pub open spec fn has_group(entries: Seq<KeyFileEntryView>, group: Seq<char>) -> bool {
    exists|i: int| 0 <= i < entries.len() && (#[trigger] entries[i]).group == group
}

/// What looking `key` of `group` up gives: its value, or which of the two
/// is missing.
pub open spec fn string_of(entries: Seq<KeyFileEntryView>, group: Seq<char>, key: Seq<char>) -> Result<
    Seq<char>,
    KeyFileErrorView,
> {
    match value_in(entries, group, key) {
        Some(value) => Ok(value),
        None => if has_group(entries, group) {
            Err(KeyFileErrorView::KeyNotFound { group, key })
        } else {
            Err(KeyFileErrorView::GroupNotFound { group })
        },
    }
}

/// The content of the result of a lookup.
pub open spec fn string_view(result: Result<String, KeyFileError>) -> Result<
    Seq<char>,
    KeyFileErrorView,
> {
    match result {
        Ok(value) => Ok(value@),
        Err(error) => Err(error@),
    }
}

impl KeyFileData {
    /// Looks the value of `key` in `group` up.
    pub fn string(&self, group: &str, key: &str) -> (result: Result<String, KeyFileError>)
        ensures
            string_view(result) == string_of(self@, group@, key@),
    {
        let ghost all = self@;
        let mut group_seen = false;
        let mut i: usize = self.entries.len();
        assert(all.take(i as int) =~= all);
        while i > 0
            invariant
                i <= self.entries.len(),
                all == self@,
                all.len() == self.entries.len(),
                value_in(all, group@, key@) == value_in(all.take(i as int), group@, key@),
                group_seen <==> exists|j: int|
                    i <= j < all.len() && (#[trigger] all[j]).group == group@,
            decreases i,
        {
            i = i - 1;
            let entry = &self.entries[i];
            assert(all[i as int] == entry@);
            assert(all.take(i as int + 1).last() == all[i as int]);
            assert(all.take(i as int + 1).drop_last() =~= all.take(i as int));
            if same_text(entry.group.as_str(), group) {
                group_seen = true;
                if same_text(entry.key.as_str(), key) {
                    return Ok(entry.value.clone());
                }
            }
        }
        assert(all.take(0).len() == 0);
        if group_seen {
            Err(KeyFileError::KeyNotFound { group: group.to_owned(), key: key.to_owned() })
        } else {
            Err(KeyFileError::GroupNotFound { group: group.to_owned() })
        }
    }
}

/// Information about the sandbox an application runs in, as its key file
/// gives it.
#[derive(Debug, Clone, PartialEq, Eq)]
pub struct FlatpakInfo {
    /// The reverse-DNS name the application is installed as: `name` in
    /// group `Application`.
    pub application_name: String,
    /// The runtime the application uses: `runtime` in group `Application`.
    pub application_runtime: String,
    /// The architecture of this instance: `arch` in group `Instance`.
    pub instance_arch: String,
    /// The branch of this instance: `branch` in group `Instance`.
    pub instance_branch: String,
}

/// The content of a `FlatpakInfo`.
pub struct FlatpakInfoView {
    pub application_name: Seq<char>,
    pub application_runtime: Seq<char>,
    pub instance_arch: Seq<char>,
    pub instance_branch: Seq<char>,
}

impl View for FlatpakInfo {
    type V = FlatpakInfoView;

    open spec fn view(&self) -> FlatpakInfoView {
        FlatpakInfoView {
            application_name: self.application_name@,
            application_runtime: self.application_runtime@,
            instance_arch: self.instance_arch@,
            instance_branch: self.instance_branch@,
        }
    }
}

/// The identifier triple of a sandbox: name, architecture and branch,
/// parted by slashes.
pub open spec fn identifier_triple_of(info: FlatpakInfoView) -> Seq<char> {
    info.application_name + "/"@ + info.instance_arch + "/"@ + info.instance_branch
}

/// What a key file gives: the four values, looked up in the order name,
/// runtime, architecture, branch, or the failure of the first lookup that
/// finds nothing.
pub open spec fn info_of(entries: Seq<KeyFileEntryView>) -> Result<
    FlatpakInfoView,
    KeyFileErrorView,
> {
    match string_of(entries, "Application"@, "name"@) {
        Err(error) => Err(error),
        Ok(application_name) => match string_of(entries, "Application"@, "runtime"@) {
            Err(error) => Err(error),
            Ok(application_runtime) => match string_of(entries, "Instance"@, "arch"@) {
                Err(error) => Err(error),
                Ok(instance_arch) => match string_of(entries, "Instance"@, "branch"@) {
                    Err(error) => Err(error),
                    Ok(instance_branch) => Ok(
                        FlatpakInfoView {
                            application_name,
                            application_runtime,
                            instance_arch,
                            instance_branch,
                        },
                    ),
                },
            },
        },
    }
}

/// What is known of the sandbox, given what was found at the well-known
/// place: nothing where no file is there, a load failure where the file
/// could not be read or parsed, otherwise what the key file gives.
pub open spec fn loaded_of(found: Option<Result<Seq<KeyFileEntryView>, Seq<char>>>) -> Result<
    Option<FlatpakInfoView>,
    KeyFileErrorView,
> {
    match found {
        None => Ok(None),
        Some(Err(reason)) => Err(KeyFileErrorView::Load { reason }),
        Some(Ok(entries)) => match info_of(entries) {
            Ok(info) => Ok(Some(info)),
            Err(error) => Err(error),
        },
    }
}

/// The content of what was found at the well-known place.
pub open spec fn found_view(found: Option<Result<KeyFileData, String>>) -> Option<
    Result<Seq<KeyFileEntryView>, Seq<char>>,
> {
    match found {
        None => None,
        Some(Err(reason)) => Some(Err(reason@)),
        Some(Ok(file)) => Some(Ok(file@)),
    }
}

/// The content of the result of `try_load_from_file`.
pub open spec fn info_view(result: Result<FlatpakInfo, KeyFileError>) -> Result<
    FlatpakInfoView,
    KeyFileErrorView,
> {
    match result {
        Ok(info) => Ok(info@),
        Err(error) => Err(error@),
    }
}

/// The content of the result of `try_load`.
pub open spec fn loaded_view(result: Result<Option<FlatpakInfo>, KeyFileError>) -> Result<
    Option<FlatpakInfoView>,
    KeyFileErrorView,
> {
    match result {
        Ok(Some(info)) => Ok(Some(info@)),
        Ok(None) => Ok(None),
        Err(error) => Err(error@),
    }
}

impl FlatpakInfo {
    /// The identifier triple of this sandbox, such as
    /// `app.tauri.api-example/x86_64/stable`.
    pub fn get_identifier_triple(&self) -> (triple: String)
        ensures
            triple@ == identifier_triple_of(self@),
    {
        let mut triple: String = self.application_name.clone();
        triple.append("/");
        triple.append(self.instance_arch.as_str());
        triple.append("/");
        triple.append(self.instance_branch.as_str());
        triple
    }

    /// Finds the sandbox information, given what was found at
    /// `WELL_KNOWN_PATH`: `None` where no file is there, the failure where
    /// the file could not be read or parsed, the parsed key file otherwise.
    /// Gives `Ok(None)` where there is no file, the information where the
    /// key file has all of it, and the failure otherwise.
    pub fn try_load(found: Option<Result<KeyFileData, String>>) -> (result: Result<
        Option<FlatpakInfo>,
        KeyFileError,
    >)
        ensures
            loaded_view(result) == loaded_of(found_view(found)),
    {
        match found {
            None => Ok(None),
            Some(Err(reason)) => Err(KeyFileError::Load { reason }),
            Some(Ok(file)) => match FlatpakInfo::try_load_from_file(&file) {
                Ok(info) => Ok(Some(info)),
                Err(error) => Err(error),
            },
        }
    }

    /// Reads the sandbox information off a parsed key file.
    pub fn try_load_from_file(file: &KeyFileData) -> (result: Result<FlatpakInfo, KeyFileError>)
        ensures
            info_view(result) == info_of(file@),
    {
        let application_name = match file.string("Application", "name") {
            Ok(value) => value,
            Err(error) => {
                return Err(error);
            },
        };
        let application_runtime = match file.string("Application", "runtime") {
            Ok(value) => value,
            Err(error) => {
                return Err(error);
            },
        };
        let instance_arch = match file.string("Instance", "arch") {
            Ok(value) => value,
            Err(error) => {
                return Err(error);
            },
        };
        let instance_branch = match file.string("Instance", "branch") {
            Ok(value) => value,
            Err(error) => {
                return Err(error);
            },
        };
        Ok(FlatpakInfo { application_name, application_runtime, instance_arch, instance_branch })
    }
}

} // verus!
