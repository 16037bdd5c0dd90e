//! The external tools of a run: which program, with which arguments, from
//! which directory.

use vstd::prelude::*;
use vstd::string::*;
use crate::layout::{
    layout_lies_under_output_dir, layout_of, DirectoryLayout, DirectoryLayoutView,
};
use crate::paths::{is_rooted, join, joined};
use crate::text::concat2;

verus! {

/// One invocation of an external program.
#[derive(Debug, Clone, PartialEq, Eq)]
pub struct ToolCommand {
    /// The program, looked up on the host's search path.
    pub program: String,
    /// Its arguments, in order.
    pub args: Vec<String>,
    /// The directory it is started in; `None` leaves the caller's.
    pub current_dir: Option<String>,
}

/// The content of a `ToolCommand`.
pub struct ToolCommandView {
    pub program: Seq<char>,
    pub args: Seq<Seq<char>>,
    pub current_dir: Option<Seq<char>>,
}

impl View for ToolCommand {
    type V = ToolCommandView;

    open spec fn view(&self) -> ToolCommandView {
        ToolCommandView {
            program: self.program@,
            args: self.args.deep_view(),
            current_dir: match self.current_dir {
                Some(dir) => Some(dir@),
                None => None,
            },
        }
    }
}

/// Where the manifest of the bundle `app_id` is written.
pub open spec fn manifest_path_of(layout: DirectoryLayoutView, app_id: Seq<char>) -> Seq<char> {
    joined(layout.local_dir, app_id + ".json"@)
}

/// Where the single-file bundle `app_id` is exported to.
pub open spec fn bundle_path_of(layout: DirectoryLayoutView, app_id: Seq<char>) -> Seq<char> {
    joined(layout.output_dir, app_id + ".flatpak"@)
}

/// The checkout of the shared build modules into the local directory.
pub open spec fn fetch_command_of(layout: DirectoryLayoutView) -> ToolCommandView {
    ToolCommandView {
        program: "git"@,
        args: seq!["clone"@, "https://github.com/flathub/shared-modules.git"@],
        current_dir: Some(layout.local_dir),
    }
}

/// The sandboxed build: installed for the user, with dependencies from the
/// `flathub` remote, its state under the output directory, into the
/// repository, in the build directory, from the manifest.
pub open spec fn build_command_of(
    layout: DirectoryLayoutView,
    manifest_path: Seq<char>,
) -> ToolCommandView {
    ToolCommandView {
        program: "flatpak-builder"@,
        args: seq![
            "--user"@,
            "--install-deps-from=flathub"@,
            "--state-dir="@ + layout.output_dir + "/.flatpak-builder"@,
            "--repo="@ + layout.repository_dir,
            layout.local_build_dir,
            manifest_path,
        ],
        current_dir: None,
    }
}

/// The export of the bundle `app_id` from the repository to `bundle_path`.
pub open spec fn export_command_of(
    layout: DirectoryLayoutView,
    bundle_path: Seq<char>,
    app_id: Seq<char>,
) -> ToolCommandView {
    ToolCommandView {
        program: "flatpak"@,
        args: seq!["build-bundle"@, layout.repository_dir, bundle_path, app_id],
        current_dir: None,
    }
}

/// The manifest lies in the local directory and the bundle in the output
/// directory, each under the bundle's identifier with its extension, as
/// long as the identifier is no rooted path.
pub proof fn artifacts_lie_in_layout(project_out: Seq<char>, app_id: Seq<char>)
    requires
        !is_rooted(app_id),
    ensures
        ({
            let layout = layout_of(project_out);
            &&& manifest_path_of(layout, app_id) == layout.local_dir + "/"@ + app_id + ".json"@
            &&& bundle_path_of(layout, app_id) == layout.output_dir + "/"@ + app_id
                + ".flatpak"@
        }),
{
    layout_lies_under_output_dir(project_out);
    reveal_strlit("/");
    reveal_strlit("/local");
    reveal_strlit("bundle/flatpak");
    reveal_strlit(".json");
    reveal_strlit(".flatpak");
    let layout = layout_of(project_out);
    assert(layout.output_dir.last() == 'k');
    assert(layout.local_dir.last() == 'l');
    assert(!is_rooted(app_id + ".json"@));
    assert(!is_rooted(app_id + ".flatpak"@));
    assert(layout.local_dir + "/"@ + (app_id + ".json"@) =~= layout.local_dir + "/"@ + app_id
        + ".json"@);
    assert(layout.output_dir + "/"@ + (app_id + ".flatpak"@) =~= layout.output_dir + "/"@
        + app_id + ".flatpak"@);
}

/// The path of the manifest of the bundle `app_id`.
pub fn manifest_path(layout: &DirectoryLayout, app_id: &str) -> (path: String)
    ensures
        path@ == manifest_path_of(layout@, app_id@),
{
    let file = concat2(app_id, ".json");
    join(layout.local_dir.as_str(), file.as_str())
}

/// The path of the single-file bundle `app_id`.
pub fn bundle_path(layout: &DirectoryLayout, app_id: &str) -> (path: String)
    ensures
        path@ == bundle_path_of(layout@, app_id@),
{
    let file = concat2(app_id, ".flatpak");
    join(layout.output_dir.as_str(), file.as_str())
}

/// The command that fetches the shared build modules.
pub fn fetch_command(layout: &DirectoryLayout) -> (command: ToolCommand)
    ensures
        command@ == fetch_command_of(layout@),
{
    let mut args: Vec<String> = Vec::new();
    args.push("clone".to_owned());
    args.push("https://github.com/flathub/shared-modules.git".to_owned());
    assert(args.deep_view() =~= fetch_command_of(layout@).args);
    ToolCommand {
        program: "git".to_owned(),
        args,
        current_dir: Some(layout.local_dir.clone()),
    }
}

/// The command that builds the bundle in the sandbox.
pub fn build_command(layout: &DirectoryLayout, manifest_path: &str) -> (command: ToolCommand)
    ensures
        command@ == build_command_of(layout@, manifest_path@),
{
    let mut state_dir = concat2("--state-dir=", layout.output_dir.as_str());
    state_dir.append("/.flatpak-builder");
    let mut args: Vec<String> = Vec::new();
    args.push("--user".to_owned());
    args.push("--install-deps-from=flathub".to_owned());
    args.push(state_dir);
    args.push(concat2("--repo=", layout.repository_dir.as_str()));
    args.push(layout.local_build_dir.clone());
    args.push(manifest_path.to_owned());
    assert(args.deep_view() =~= build_command_of(layout@, manifest_path@).args);
    ToolCommand { program: "flatpak-builder".to_owned(), args, current_dir: None }
}

/// The command that exports the single-file bundle.
pub fn export_command(layout: &DirectoryLayout, bundle_path: &str, app_id: &str) -> (command:
    ToolCommand)
    ensures
        command@ == export_command_of(layout@, bundle_path@, app_id@),
{
    let mut args: Vec<String> = Vec::new();
    args.push("build-bundle".to_owned());
    args.push(layout.repository_dir.clone());
    args.push(bundle_path.to_owned());
    args.push(app_id.to_owned());
    assert(args.deep_view() =~= export_command_of(layout@, bundle_path@, app_id@).args);
    ToolCommand { program: "flatpak".to_owned(), args, current_dir: None }
}

} // verus!
