//! The staging directories of one pipeline run.

use vstd::prelude::*;
use crate::paths::{join, joined};

verus! {

/// The directories one run works in. Every one of them lies under
/// `output_dir`, which lies under the project's output directory.
#[derive(Debug, Clone, PartialEq, Eq)]
pub struct DirectoryLayout {
    /// Where the manifest, the repository and the bundle end up.
    pub output_dir: String,
    /// The workspace of the build; emptied at the start of each run.
    pub local_dir: String,
    /// The directory the sandbox builds in; removed at the start of each run.
    pub local_build_dir: String,
    /// The repository the sandbox build fills and the export reads.
    pub repository_dir: String,
    /// The parent of the caches, which outlive a run.
    pub cache_dir: String,
    /// The cache of the Rust package manager.
    pub cargo_cache: String,
    /// The cache of the JavaScript package manager.
    pub package_cache: String,
    /// The cache of compiled artifacts.
    pub target_cache: String,
}

/// The content of a `DirectoryLayout`.
pub struct DirectoryLayoutView {
    pub output_dir: Seq<char>,
    pub local_dir: Seq<char>,
    pub local_build_dir: Seq<char>,
    pub repository_dir: Seq<char>,
    pub cache_dir: Seq<char>,
    pub cargo_cache: Seq<char>,
    pub package_cache: Seq<char>,
    pub target_cache: Seq<char>,
}

impl View for DirectoryLayout {
    type V = DirectoryLayoutView;

    open spec fn view(&self) -> DirectoryLayoutView {
        DirectoryLayoutView {
            output_dir: self.output_dir@,
            local_dir: self.local_dir@,
            local_build_dir: self.local_build_dir@,
            repository_dir: self.repository_dir@,
            cache_dir: self.cache_dir@,
            cargo_cache: self.cargo_cache@,
            package_cache: self.package_cache@,
            target_cache: self.target_cache@,
        }
    }
}

/// The output directory of a project whose compiled files lie in
/// `project_out`.
pub open spec fn output_dir_of(project_out: Seq<char>) -> Seq<char> {
    joined(project_out, "bundle/flatpak"@)
}

/// The layout whose output directory is `output_dir`.
pub open spec fn layout_in(output_dir: Seq<char>) -> DirectoryLayoutView {
    let cache_dir = joined(output_dir, ".cache"@);
    DirectoryLayoutView {
        output_dir,
        local_dir: joined(output_dir, "local"@),
        local_build_dir: joined(output_dir, "local_build"@),
        repository_dir: joined(output_dir, "repo"@),
        cache_dir,
        cargo_cache: joined(cache_dir, "cargo"@),
        package_cache: joined(cache_dir, "yarn"@),
        target_cache: joined(cache_dir, "target"@),
    }
}

/// The layout of a project whose compiled files lie in `project_out`.
pub open spec fn layout_of(project_out: Seq<char>) -> DirectoryLayoutView {
    layout_in(output_dir_of(project_out))
}

impl DirectoryLayout {
    /// Every directory is the one its name stands for under `output_dir`.
    pub open spec fn wf(&self) -> bool {
        self@ == layout_in(self.output_dir@)
    }

    /// Computes the layout for a project whose compiled files lie in
    /// `project_out`. Nothing is created or removed.
    pub fn new(project_out: &str) -> (layout: DirectoryLayout)
        ensures
            layout@ == layout_of(project_out@),
            layout.wf(),
    {
        let output_dir = join(project_out, "bundle/flatpak");
        let cache_dir = join(output_dir.as_str(), ".cache");
        DirectoryLayout {
            local_dir: join(output_dir.as_str(), "local"),
            local_build_dir: join(output_dir.as_str(), "local_build"),
            repository_dir: join(output_dir.as_str(), "repo"),
            cargo_cache: join(cache_dir.as_str(), "cargo"),
            package_cache: join(cache_dir.as_str(), "yarn"),
            target_cache: join(cache_dir.as_str(), "target"),
            cache_dir,
            output_dir,
        }
    }

    /// The directories that a run removes before it starts, in that order.
    pub fn stale_dirs(&self) -> (dirs: Vec<String>)
        ensures
            dirs.deep_view() == seq![self.local_dir@, self.local_build_dir@],
    {
        let mut dirs: Vec<String> = Vec::new();
        dirs.push(self.local_dir.clone());
        dirs.push(self.local_build_dir.clone());
        assert(dirs.deep_view() =~= seq![self.local_dir@, self.local_build_dir@]);
        dirs
    }

    /// The directories that a run creates, parents included, once the stale
    /// ones are gone, in that order.
    pub fn fresh_dirs(&self) -> (dirs: Vec<String>)
        ensures
            dirs.deep_view() == seq![
                self.local_dir@,
                self.cargo_cache@,
                self.package_cache@,
                self.target_cache@,
            ],
    {
        let mut dirs: Vec<String> = Vec::new();
        dirs.push(self.local_dir.clone());
        dirs.push(self.cargo_cache.clone());
        dirs.push(self.package_cache.clone());
        dirs.push(self.target_cache.clone());
        assert(dirs.deep_view() =~= seq![
            self.local_dir@,
            self.cargo_cache@,
            self.package_cache@,
            self.target_cache@,
        ]);
        dirs
    }
}

/// Every directory of a layout is `output_dir` followed by a separator and a
/// fixed relative path, and `output_dir` ends in `bundle/flatpak`: all of a
/// run's directories lie under its output directory.
pub proof fn layout_lies_under_output_dir(project_out: Seq<char>)
    ensures
        ({
            let l = layout_of(project_out);
            &&& l.output_dir == output_dir_of(project_out)
            &&& l.local_dir == l.output_dir + "/local"@
            &&& l.local_build_dir == l.output_dir + "/local_build"@
            &&& l.repository_dir == l.output_dir + "/repo"@
            &&& l.cache_dir == l.output_dir + "/.cache"@
            &&& l.cargo_cache == l.output_dir + "/.cache/cargo"@
            &&& l.package_cache == l.output_dir + "/.cache/yarn"@
            &&& l.target_cache == l.output_dir + "/.cache/target"@
        }),
        project_out.len() > 0 && project_out.last() != '/' ==> output_dir_of(project_out)
            == project_out + "/bundle/flatpak"@,
        project_out.len() == 0 || project_out.last() == '/' ==> output_dir_of(project_out)
            == project_out + "bundle/flatpak"@,
{
    reveal_strlit("bundle/flatpak");
    reveal_strlit("/bundle/flatpak");
    reveal_strlit("/");
    reveal_strlit("local");
    reveal_strlit("/local");
    reveal_strlit("local_build");
    reveal_strlit("/local_build");
    reveal_strlit("repo");
    reveal_strlit("/repo");
    reveal_strlit(".cache");
    reveal_strlit("/.cache");
    reveal_strlit("cargo");
    reveal_strlit("/.cache/cargo");
    reveal_strlit("yarn");
    reveal_strlit("/.cache/yarn");
    reveal_strlit("target");
    reveal_strlit("/.cache/target");
    let l = layout_of(project_out);
    let out = output_dir_of(project_out);
    assert(out.len() > 0 && out.last() == 'k');
    assert(project_out + "/"@ + "bundle/flatpak"@ =~= project_out + "/bundle/flatpak"@);
    assert(l.local_dir =~= l.output_dir + "/local"@);
    assert(l.local_build_dir =~= l.output_dir + "/local_build"@);
    assert(l.repository_dir =~= l.output_dir + "/repo"@);
    assert(l.cache_dir =~= l.output_dir + "/.cache"@);
    assert(l.cache_dir.last() == 'e');
    assert(l.cargo_cache =~= l.output_dir + "/.cache/cargo"@);
    assert(l.package_cache =~= l.output_dir + "/.cache/yarn"@);
    assert(l.target_cache =~= l.output_dir + "/.cache/target"@);
}

} // verus!
