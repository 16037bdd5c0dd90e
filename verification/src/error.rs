//! The ways a pipeline run fails.

use vstd::prelude::*;
use vstd::string::*;
use crate::text::concat2;

verus! {

/// The stages that run an external tool.
#[derive(Debug, Clone, Copy, PartialEq, Eq, Structural)]
pub enum Stage {
    /// The checkout of the shared build modules.
    DependencySources,
    /// The build inside the sandbox.
    SandboxBuild,
    /// The export of the single-file bundle.
    BundleExport,
}

/// The short name a failure of `stage` is tagged with.
pub open spec fn tag_of(stage: Stage) -> Seq<char> {
    match stage {
        Stage::DependencySources => "dependency sources"@,
        Stage::SandboxBuild => "sandbox build"@,
        Stage::BundleExport => "bundle export"@,
    }
}

/// The sentence that says what failed when `stage` fails.
pub open spec fn context_of(stage: Stage) -> Seq<char> {
    match stage {
        Stage::DependencySources => "failed to generate dependency sources for bundle manifest"@,
        Stage::SandboxBuild => "failed to build sandboxed bundle"@,
        Stage::BundleExport => "failed to export bundle"@,
    }
}

impl Stage {
    /// The short name a failure of this stage is tagged with.
    pub fn tag(self) -> (tag: &'static str)
        ensures
            tag@ == tag_of(self),
    {
        match self {
            Stage::DependencySources => "dependency sources",
            Stage::SandboxBuild => "sandbox build",
            Stage::BundleExport => "bundle export",
        }
    }

    /// The sentence that says what failed when this stage fails.
    pub fn context(self) -> (context: &'static str)
        ensures
            context@ == context_of(self),
    {
        match self {
            Stage::DependencySources => "failed to generate dependency sources for bundle manifest",
            Stage::SandboxBuild => "failed to build sandboxed bundle",
            Stage::BundleExport => "failed to export bundle",
        }
    }
}

/// Why a run failed. The first failure ends the run; nothing is retried.
#[derive(Debug, Clone, PartialEq, Eq)]
pub enum BundleError {
    /// A directory or a file could not be removed, created or written.
    Filesystem { reason: String },
    /// The project's output directory does not lie under the work directory.
    PathRelativization { path: String, base: String },
    /// The manifest record and the manifest template do not fit.
    TemplateRender { reason: String },
    /// An external tool could not be started or ended in failure.
    ExternalTool { stage: Stage, reason: String },
}

/// The content of a `BundleError`.
pub enum BundleErrorView {
    Filesystem { reason: Seq<char> },
    PathRelativization { path: Seq<char>, base: Seq<char> },
    TemplateRender { reason: Seq<char> },
    ExternalTool { stage: Stage, reason: Seq<char> },
}

impl View for BundleError {
    type V = BundleErrorView;

    open spec fn view(&self) -> BundleErrorView {
        match self {
            BundleError::Filesystem { reason } => BundleErrorView::Filesystem { reason: reason@ },
            BundleError::PathRelativization { path, base } => BundleErrorView::PathRelativization {
                path: path@,
                base: base@,
            },
            BundleError::TemplateRender { reason } => BundleErrorView::TemplateRender {
                reason: reason@,
            },
            BundleError::ExternalTool { stage, reason } => BundleErrorView::ExternalTool {
                stage: *stage,
                reason: reason@,
            },
        }
    }
}

/// The one line that describes a failure: which stage failed, then why.
pub open spec fn message_of(error: BundleErrorView) -> Seq<char> {
    match error {
        BundleErrorView::Filesystem { reason } => "filesystem error: "@ + reason,
        BundleErrorView::PathRelativization { path, base } => "output directory "@ + path
            + " does not lie under the work directory "@ + base,
        BundleErrorView::TemplateRender { reason } => "failed to render the manifest: "@ + reason,
        BundleErrorView::ExternalTool { stage, reason } => context_of(stage) + ": "@ + reason,
    }
}

impl BundleError {
    /// The one line that describes this failure.
    pub fn message(&self) -> (line: String)
        ensures
            line@ == message_of(self@),
    {
        match self {
            BundleError::Filesystem { reason } => concat2("filesystem error: ", reason.as_str()),
            BundleError::PathRelativization { path, base } => {
                let mut line = concat2("output directory ", path.as_str());
                line.append(" does not lie under the work directory ");
                line.append(base.as_str());
                line
            },
            BundleError::TemplateRender { reason } => concat2(
                "failed to render the manifest: ",
                reason.as_str(),
            ),
            BundleError::ExternalTool { stage, reason } => {
                let mut line = stage.context().to_owned();
                line.append(": ");
                line.append(reason.as_str());
                line
            },
        }
    }
}

} // verus!
