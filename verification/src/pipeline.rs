//! The run as a state machine: what is due next, and what becomes of the
//! run when the host reports how that went.

use vstd::prelude::*;
use vstd::string::*;
use crate::commands::{
    build_command, build_command_of, bundle_path, bundle_path_of, export_command,
    export_command_of, fetch_command, fetch_command_of, manifest_path, manifest_path_of,
    ToolCommand, ToolCommandView,
};
use crate::error::{BundleError, BundleErrorView, Stage};
use crate::layout::{layout_of, DirectoryLayout, DirectoryLayoutView};
use crate::manifest::{
    fields_of, manifest_data, manifest_data_of, ManifestRecord, ManifestRecordView,
};
use crate::render::{manifest_text_of, render_manifest, rendered, MANIFEST_TEMPLATE};
use crate::settings::{BuildSettings, BuildSettingsView};

verus! {

/// Everything a run works from, computed once from the settings.
#[derive(Debug, Clone, PartialEq, Eq)]
pub struct BuildPlan {
    pub layout: DirectoryLayout,
    pub record: ManifestRecord,
    /// Where the manifest is written.
    pub manifest_path: String,
    /// Where the bundle is exported to.
    pub bundle_path: String,
}

/// The content of a `BuildPlan`.
pub struct BuildPlanView {
    pub layout: DirectoryLayoutView,
    pub record: ManifestRecordView,
    pub manifest_path: Seq<char>,
    pub bundle_path: Seq<char>,
}

impl View for BuildPlan {
    type V = BuildPlanView;

    open spec fn view(&self) -> BuildPlanView {
        BuildPlanView {
            layout: self.layout@,
            record: self.record@,
            manifest_path: self.manifest_path@,
            bundle_path: self.bundle_path@,
        }
    }
}

/// The plan that belongs to `settings`, or the relativization failure where
/// the project's output directory does not lie under the work directory.
pub open spec fn plan_of(settings: BuildSettingsView) -> Result<BuildPlanView, BundleErrorView> {
    let layout = layout_of(settings.project_out_directory);
    match manifest_data_of(settings, layout) {
        Ok(record) => Ok(
            BuildPlanView {
                layout,
                record,
                manifest_path: manifest_path_of(layout, settings.bundle_identifier),
                bundle_path: bundle_path_of(layout, settings.bundle_identifier),
            },
        ),
        Err(error) => Err(error),
    }
}

/// The states of a run, as seen from outside.
#[derive(Debug, Clone, Copy, PartialEq, Eq, Structural)]
pub enum PipelineState {
    /// Nothing of this run is on disk that a later stage relies on.
    Clean,
    /// The workspace is prepared and the manifest is written.
    ManifestWritten,
    /// The shared build modules are checked out.
    SourcesFetched,
    /// The sandbox build has filled the repository.
    Built,
    /// The bundle is exported: the run is over.
    Exported,
    /// A stage failed: the run is over, and nothing resumes it.
    Failed,
}

/// How far a run has come: the step that is due, or how the run ended.
#[derive(Debug, Clone, PartialEq, Eq)]
pub enum Progress {
    /// Due: remove the stale directories and create the fresh ones.
    Workspace,
    /// Due: generate the desktop entry and the icons.
    Assets,
    /// Due: write the manifest, which is rendered in full.
    Manifest { contents: String },
    /// Due: check out the shared build modules.
    DependencySources,
    /// Due: build in the sandbox.
    SandboxBuild,
    /// Due: export the bundle.
    BundleExport,
    /// The bundle is exported.
    Finished,
    /// A step failed.
    Failed { error: BundleError },
}

/// The content of a `Progress`.
pub enum ProgressView {
    Workspace,
    Assets,
    Manifest { contents: Seq<char> },
    DependencySources,
    SandboxBuild,
    BundleExport,
    Finished,
    Failed { error: BundleErrorView },
}

impl View for Progress {
    type V = ProgressView;

    open spec fn view(&self) -> ProgressView {
        match self {
            Progress::Workspace => ProgressView::Workspace,
            Progress::Assets => ProgressView::Assets,
            Progress::Manifest { contents } => ProgressView::Manifest { contents: contents@ },
            Progress::DependencySources => ProgressView::DependencySources,
            Progress::SandboxBuild => ProgressView::SandboxBuild,
            Progress::BundleExport => ProgressView::BundleExport,
            Progress::Finished => ProgressView::Finished,
            Progress::Failed { error } => ProgressView::Failed { error: error@ },
        }
    }
}

/// What the host is asked to do.
#[derive(Debug, Clone, PartialEq, Eq)]
pub enum Action {
    /// Remove each of `remove` with all it holds, where it exists; then
    /// create each of `create`, with its parents.
    PrepareWorkspace { remove: Vec<String>, create: Vec<String> },
    /// Generate the desktop entry and the icons under `dest_dir`.
    GenerateAssets { dest_dir: String },
    /// Write `contents` to the file `path`.
    WriteManifest { path: String, contents: String },
    /// Run `command` and wait for it; anything but a clean exit is a failure.
    RunTool { stage: Stage, command: ToolCommand },
}

/// The content of an `Action`.
pub enum ActionView {
    PrepareWorkspace { remove: Seq<Seq<char>>, create: Seq<Seq<char>> },
    GenerateAssets { dest_dir: Seq<char> },
    WriteManifest { path: Seq<char>, contents: Seq<char> },
    RunTool { stage: Stage, command: ToolCommandView },
}

impl View for Action {
    type V = ActionView;

    open spec fn view(&self) -> ActionView {
        match self {
            Action::PrepareWorkspace { remove, create } => ActionView::PrepareWorkspace {
                remove: remove.deep_view(),
                create: create.deep_view(),
            },
            Action::GenerateAssets { dest_dir } => ActionView::GenerateAssets {
                dest_dir: dest_dir@,
            },
            Action::WriteManifest { path, contents } => ActionView::WriteManifest {
                path: path@,
                contents: contents@,
            },
            Action::RunTool { stage, command } => ActionView::RunTool {
                stage: *stage,
                command: command@,
            },
        }
    }
}

/// A run: its plan and how far it has come.
#[derive(Debug, Clone, PartialEq, Eq)]
pub struct Pipeline {
    pub plan: BuildPlan,
    pub progress: Progress,
}

/// The content of a `Pipeline`.
pub struct PipelineView {
    pub plan: BuildPlanView,
    pub progress: ProgressView,
}

impl View for Pipeline {
    type V = PipelineView;

    open spec fn view(&self) -> PipelineView {
        PipelineView { plan: self.plan@, progress: self.progress@ }
    }
}

/// The run that `settings` start, with the workspace due; or the failure
/// that keeps it from starting.
pub open spec fn started(settings: BuildSettingsView) -> Result<PipelineView, BundleErrorView> {
    match plan_of(settings) {
        Ok(plan) => Ok(PipelineView { plan, progress: ProgressView::Workspace }),
        Err(error) => Err(error),
    }
}

/// The state that a progress shows to the outside.
pub open spec fn state_of(progress: ProgressView) -> PipelineState {
    match progress {
        ProgressView::Workspace => PipelineState::Clean,
        ProgressView::Assets => PipelineState::Clean,
        ProgressView::Manifest { .. } => PipelineState::Clean,
        ProgressView::DependencySources => PipelineState::ManifestWritten,
        ProgressView::SandboxBuild => PipelineState::SourcesFetched,
        ProgressView::BundleExport => PipelineState::Built,
        ProgressView::Finished => PipelineState::Exported,
        ProgressView::Failed { .. } => PipelineState::Failed,
    }
}

/// How many steps of a run are still due.
pub open spec fn steps_left(progress: ProgressView) -> nat {
    match progress {
        ProgressView::Workspace => 6,
        ProgressView::Assets => 5,
        ProgressView::Manifest { .. } => 4,
        ProgressView::DependencySources => 3,
        ProgressView::SandboxBuild => 2,
        ProgressView::BundleExport => 1,
        ProgressView::Finished => 0,
        ProgressView::Failed { .. } => 0,
    }
}

/// What is due in a run, or `None` where the run is over.
pub open spec fn action_of(run: PipelineView) -> Option<ActionView> {
    let layout = run.plan.layout;
    match run.progress {
        ProgressView::Workspace => Some(
            ActionView::PrepareWorkspace {
                remove: seq![layout.local_dir, layout.local_build_dir],
                create: seq![
                    layout.local_dir,
                    layout.cargo_cache,
                    layout.package_cache,
                    layout.target_cache,
                ],
            },
        ),
        ProgressView::Assets => Some(ActionView::GenerateAssets { dest_dir: layout.local_dir }),
        ProgressView::Manifest { contents } => Some(
            ActionView::WriteManifest { path: run.plan.manifest_path, contents },
        ),
        ProgressView::DependencySources => Some(
            ActionView::RunTool {
                stage: Stage::DependencySources,
                command: fetch_command_of(layout),
            },
        ),
        ProgressView::SandboxBuild => Some(
            ActionView::RunTool {
                stage: Stage::SandboxBuild,
                command: build_command_of(layout, run.plan.manifest_path),
            },
        ),
        ProgressView::BundleExport => Some(
            ActionView::RunTool {
                stage: Stage::BundleExport,
                command: export_command_of(layout, run.plan.bundle_path, run.plan.record.app_id),
            },
        ),
        ProgressView::Finished => None,
        ProgressView::Failed { .. } => None,
    }
}

/// The failure that a run ends in when the step that is due fails for
/// `reason`: a failure of an external tool carries its stage, every other
/// one is a filesystem failure.
pub open spec fn failure_of(progress: ProgressView, reason: Seq<char>) -> BundleErrorView {
    match progress {
        ProgressView::DependencySources => BundleErrorView::ExternalTool {
            stage: Stage::DependencySources,
            reason,
        },
        ProgressView::SandboxBuild => BundleErrorView::ExternalTool {
            stage: Stage::SandboxBuild,
            reason,
        },
        ProgressView::BundleExport => BundleErrorView::ExternalTool {
            stage: Stage::BundleExport,
            reason,
        },
        _ => BundleErrorView::Filesystem { reason },
    }
}

/// The progress after the step that is due went well. Once the assets are
/// there the manifest is rendered: the run goes on to write it, or fails
/// with what the template engine refused.
pub open spec fn succeeded(run: PipelineView) -> ProgressView {
    match run.progress {
        ProgressView::Workspace => ProgressView::Assets,
        ProgressView::Assets => match manifest_text_of(
            rendered(MANIFEST_TEMPLATE@, true, fields_of(run.plan.record)),
        ) {
            Ok(contents) => ProgressView::Manifest { contents },
            Err(error) => ProgressView::Failed { error },
        },
        ProgressView::Manifest { .. } => ProgressView::DependencySources,
        ProgressView::DependencySources => ProgressView::SandboxBuild,
        ProgressView::SandboxBuild => ProgressView::BundleExport,
        ProgressView::BundleExport => ProgressView::Finished,
        ProgressView::Finished => run.progress,
        ProgressView::Failed { .. } => run.progress,
    }
}

/// The run after the host reported `outcome` for the step that was due. A
/// run that is over stays as it is, whatever is reported.
pub open spec fn advanced(run: PipelineView, outcome: Result<(), Seq<char>>) -> PipelineView {
    if action_of(run) is None {
        run
    } else {
        match outcome {
            Ok(_) => PipelineView { plan: run.plan, progress: succeeded(run) },
            Err(reason) => PipelineView {
                plan: run.plan,
                progress: ProgressView::Failed { error: failure_of(run.progress, reason) },
            },
        }
    }
}

/// How a run ended: the one bundle that was exported, or the failure; `None`
/// while a step is still due.
pub open spec fn result_of(run: PipelineView) -> Option<Result<Seq<Seq<char>>, BundleErrorView>> {
    match run.progress {
        ProgressView::Finished => Some(Ok(seq![run.plan.bundle_path])),
        ProgressView::Failed { error } => Some(Err(error)),
        _ => None,
    }
}

/// The content of what the host reports.
pub open spec fn report_view(outcome: Result<(), String>) -> Result<(), Seq<char>> {
    match outcome {
        Ok(_) => Ok(()),
        Err(reason) => Err(reason@),
    }
}

/// The content of a step that may be due.
pub open spec fn due_view(action: Option<Action>) -> Option<ActionView> {
    match action {
        Some(a) => Some(a@),
        None => None,
    }
}

/// The content of the end of a run.
pub open spec fn end_view(end: Option<Result<Vec<String>, BundleError>>) -> Option<
    Result<Seq<Seq<char>>, BundleErrorView>,
> {
    match end {
        Some(Ok(paths)) => Some(Ok(paths.deep_view())),
        Some(Err(error)) => Some(Err(error@)),
        None => None,
    }
}

/// The content of a run that may have failed to start.
pub open spec fn start_view(start: Result<Pipeline, BundleError>) -> Result<
    PipelineView,
    BundleErrorView,
> {
    match start {
        Ok(run) => Ok(run@),
        Err(error) => Err(error@),
    }
}

impl BuildPlan {
    /// Computes the plan of a run from the settings. Fails, before anything
    /// is touched, exactly where the project's output directory does not
    /// lie under the work directory.
    pub fn new(settings: &BuildSettings) -> (result: Result<BuildPlan, BundleError>)
        ensures
            match result {
                Ok(plan) => plan_of(settings@) == Ok::<BuildPlanView, BundleErrorView>(plan@),
                Err(error) => plan_of(settings@) == Err::<BuildPlanView, BundleErrorView>(error@),
            },
    {
        let layout = DirectoryLayout::new(settings.project_out_directory.as_str());
        match manifest_data(settings, &layout) {
            Ok(record) => {
                let manifest_path = manifest_path(&layout, settings.bundle_identifier.as_str());
                let bundle_path = bundle_path(&layout, settings.bundle_identifier.as_str());
                Ok(BuildPlan { layout, record, manifest_path, bundle_path })
            },
            Err(error) => Err(error),
        }
    }
}

impl Pipeline {
    /// Starts a run: computes its plan and leaves the workspace due.
    /// Fails, before anything is touched and before any tool is run,
    /// exactly where the project's output directory does not lie under the
    /// work directory.
    pub fn start(settings: &BuildSettings) -> (result: Result<Pipeline, BundleError>)
        ensures
            start_view(result) == started(settings@),
    {
        match BuildPlan::new(settings) {
            Ok(plan) => Ok(Pipeline { plan, progress: Progress::Workspace }),
            Err(error) => Err(error),
        }
    }

    /// The state of the run, as seen from outside.
    pub fn state(&self) -> (state: PipelineState)
        ensures
            state == state_of(self@.progress),
    {
        match &self.progress {
            Progress::Workspace => PipelineState::Clean,
            Progress::Assets => PipelineState::Clean,
            Progress::Manifest { .. } => PipelineState::Clean,
            Progress::DependencySources => PipelineState::ManifestWritten,
            Progress::SandboxBuild => PipelineState::SourcesFetched,
            Progress::BundleExport => PipelineState::Built,
            Progress::Finished => PipelineState::Exported,
            Progress::Failed { .. } => PipelineState::Failed,
        }
    }

    /// What the host is to do next, or `None` where the run is over.
    pub fn next_action(&self) -> (action: Option<Action>)
        ensures
            due_view(action) == action_of(self@),
    {
        match &self.progress {
            Progress::Workspace => Some(
                Action::PrepareWorkspace {
                    remove: self.plan.layout.stale_dirs(),
                    create: self.plan.layout.fresh_dirs(),
                },
            ),
            Progress::Assets => Some(
                Action::GenerateAssets { dest_dir: self.plan.layout.local_dir.clone() },
            ),
            Progress::Manifest { contents } => Some(
                Action::WriteManifest {
                    path: self.plan.manifest_path.clone(),
                    contents: contents.clone(),
                },
            ),
            Progress::DependencySources => Some(
                Action::RunTool {
                    stage: Stage::DependencySources,
                    command: fetch_command(&self.plan.layout),
                },
            ),
            Progress::SandboxBuild => Some(
                Action::RunTool {
                    stage: Stage::SandboxBuild,
                    command: build_command(&self.plan.layout, self.plan.manifest_path.as_str()),
                },
            ),
            Progress::BundleExport => Some(
                Action::RunTool {
                    stage: Stage::BundleExport,
                    command: export_command(
                        &self.plan.layout,
                        self.plan.bundle_path.as_str(),
                        self.plan.record.app_id.as_str(),
                    ),
                },
            ),
            Progress::Finished => None,
            Progress::Failed { .. } => None,
        }
    }

    /// Takes the host's report on the step that was due and moves the run
    /// on: forward where the step went well, to `Failed` where it did not.
    /// A run that is over stays as it is.
    pub fn advance(&mut self, outcome: Result<(), String>)
        ensures
            final(self)@ == advanced(old(self)@, report_view(outcome)),
    {
        let next: Option<Progress> = match &self.progress {
            Progress::Finished => None,
            Progress::Failed { .. } => None,
            due => match outcome {
                Err(reason) => Some(Progress::Failed { error: failure(due, reason) }),
                Ok(_) => Some(
                    match due {
                        Progress::Workspace => Progress::Assets,
                        Progress::Assets => match render_manifest(&self.plan.record) {
                            Ok(contents) => Progress::Manifest { contents },
                            Err(error) => Progress::Failed { error },
                        },
                        Progress::Manifest { .. } => Progress::DependencySources,
                        Progress::DependencySources => Progress::SandboxBuild,
                        Progress::SandboxBuild => Progress::BundleExport,
                        _ => Progress::Finished,
                    },
                ),
            },
        };
        match next {
            Some(progress) => {
                self.progress = progress;
            },
            None => {},
        }
    }

    /// How the run ended: the one bundle that was exported, or the failure;
    /// `None` while a step is still due.
    pub fn into_result(self) -> (end: Option<Result<Vec<String>, BundleError>>)
        ensures
            end_view(end) == result_of(self@),
    {
        match self.progress {
            Progress::Finished => {
                let mut paths: Vec<String> = Vec::new();
                paths.push(self.plan.bundle_path);
                assert(paths.deep_view() =~= seq![self.plan.bundle_path@]);
                Some(Ok(paths))
            },
            Progress::Failed { error } => Some(Err(error)),
            _ => None,
        }
    }
}

/// The failure of the step that is due, for `reason`.
pub fn failure(due: &Progress, reason: String) -> (error: BundleError)
    ensures
        error@ == failure_of(due@, reason@),
{
    match due {
        Progress::DependencySources => BundleError::ExternalTool {
            stage: Stage::DependencySources,
            reason,
        },
        Progress::SandboxBuild => BundleError::ExternalTool { stage: Stage::SandboxBuild, reason },
        Progress::BundleExport => BundleError::ExternalTool { stage: Stage::BundleExport, reason },
        _ => BundleError::Filesystem { reason },
    }
}

} // verus!
