//! The entry point: a whole run, driven step by step against a host that
//! does the work on disk and runs the tools.

use vstd::prelude::*;
use vstd::pervasive::unreached;
use crate::error::{BundleError, BundleErrorView, Stage};
use crate::manifest::fields_of;
use crate::paths::stripped_prefix;
use crate::pipeline::{
    action_of, advanced, due_view, failure_of, report_view, result_of, started, state_of,
    steps_left, Action, ActionView, Pipeline, PipelineState, PipelineView, ProgressView,
};
use crate::render::{rendered, MANIFEST_TEMPLATE};
use crate::settings::{BuildSettings, BuildSettingsView};

verus! {

/// The run that `start` becomes when the host's reports come in, in order.
pub open spec fn run_of(start: PipelineView, reports: Seq<Result<(), Seq<char>>>) -> PipelineView
    decreases reports.len(),
{
    if reports.len() == 0 {
        start
    } else {
        advanced(run_of(start, reports.drop_last()), reports.last())
    }
}

/// The reports of a sequence of calls of the host.
pub open spec fn reports_of(calls: Seq<(Action, Result<(), String>)>) -> Seq<
    Result<(), Seq<char>>,
> {
    calls.map_values(|call: (Action, Result<(), String>)| report_view(call.1))
}

/// `calls` is what a host was asked and what it answered in a run from
/// `start`: each action is the one that was due after the reports before it,
/// and each report is one that the host gives for that action.
pub open spec fn host_served<H: Fn(Action) -> Result<(), String>>(
    host: &H,
    start: PipelineView,
    calls: Seq<(Action, Result<(), String>)>,
) -> bool {
    forall|i: int|
        0 <= i < calls.len() ==> {
            &&& action_of(run_of(start, reports_of(calls).take(i))) == Some((#[trigger] calls[i]).0@)
            &&& host.ensures((calls[i].0,), calls[i].1)
        }
}

/// The content of the result of a run.
pub open spec fn bundle_view(result: Result<Vec<String>, BundleError>) -> Result<
    Seq<Seq<char>>,
    BundleErrorView,
> {
    match result {
        Ok(paths) => Ok(paths.deep_view()),
        Err(error) => Err(error@),
    }
}

/// One more report moves a run by one step.
pub proof fn run_of_step(start: PipelineView, reports: Seq<Result<(), Seq<char>>>, k: int)
    requires
        0 <= k < reports.len(),
    ensures
        run_of(start, reports.take(k + 1)) == advanced(run_of(start, reports.take(k)), reports[k]),
{
    assert(reports.take(k + 1).drop_last() =~= reports.take(k));
}

/// A run that is over stays as it is: no step is due, and no report moves
/// it. In particular nothing resumes a failed run.
pub proof fn finished_run_stays(run: PipelineView, reports: Seq<Result<(), Seq<char>>>)
    requires
        state_of(run.progress) == PipelineState::Failed || state_of(run.progress)
            == PipelineState::Exported,
    ensures
        action_of(run) is None,
        run_of(run, reports) == run,
    decreases reports.len(),
{
    if reports.len() > 0 {
        finished_run_stays(run, reports.drop_last());
    }
}

/// A step moves a run forward or fails it: a reported failure ends the run
/// in `Failed`, with the failure that belongs to the step; a success leaves
/// fewer steps due.
pub proof fn step_moves_forward(run: PipelineView, report: Result<(), Seq<char>>)
    requires
        action_of(run) is Some,
    ensures
        steps_left(advanced(run, report).progress) < steps_left(run.progress),
        advanced(run, report).plan == run.plan,
        report matches Err(reason) ==> advanced(run, report).progress == (ProgressView::Failed {
            error: failure_of(run.progress, reason),
        }),
        report is Ok ==> state_of(advanced(run, report).progress) == PipelineState::Failed
            || steps_left(advanced(run, report).progress) + 1 == steps_left(run.progress),
        advanced(run, report).progress matches ProgressView::Failed { error }
            ==> !(error is PathRelativization),
{
}

/// The tools run in their order: each is due in exactly one state, the
/// checkout once the manifest is written, the sandbox build once the
/// sources are fetched, the export once the build is done.
pub proof fn tools_run_in_order(run: PipelineView)
    ensures
        action_of(run) matches Some(ActionView::RunTool { stage, .. }) ==> (match stage {
            Stage::DependencySources => state_of(run.progress) == PipelineState::ManifestWritten,
            Stage::SandboxBuild => state_of(run.progress) == PipelineState::SourcesFetched,
            Stage::BundleExport => state_of(run.progress) == PipelineState::Built,
        }),
        state_of(run.progress) == PipelineState::Clean ==> !(action_of(run) matches Some(
            ActionView::RunTool { .. },
        )),
{
}

/// Every run begins by clearing the workspace: the first step removes the
/// local directory and the build directory that an earlier run may have
/// left, before it creates anything.
pub proof fn run_begins_with_cleanup(settings: BuildSettingsView)
    requires
        started(settings) is Ok,
    ensures
        ({
            let start = started(settings)->Ok_0;
            let layout = start.plan.layout;
            action_of(start) == Some(
                ActionView::PrepareWorkspace {
                    remove: seq![layout.local_dir, layout.local_build_dir],
                    create: seq![
                        layout.local_dir,
                        layout.cargo_cache,
                        layout.package_cache,
                        layout.target_cache,
                    ],
                },
            )
        }),
{
}

/// Where the project's output directory does not lie under the work
/// directory, no run starts: there is the relativization failure naming the
/// two directories, and no step that could be asked of the host.
pub proof fn relativization_failure_starts_nothing(settings: BuildSettingsView)
    requires
        stripped_prefix(settings.project_out_directory, settings.flatpak.workdir) is None,
    ensures
        started(settings) == Err::<PipelineView, BundleErrorView>(
            BundleErrorView::PathRelativization {
                path: settings.project_out_directory,
                base: settings.flatpak.workdir,
            },
        ),
{
}

/// Where the template engine refuses the manifest, the run fails with the
/// template failure once the assets are there, and nothing is due any more:
/// no manifest is ever written.
pub proof fn render_failure_writes_nothing(run: PipelineView, reason: Seq<char>)
    requires
        run.progress == ProgressView::Assets,
        rendered(MANIFEST_TEMPLATE@, true, fields_of(run.plan.record)) == Err::<
            Seq<char>,
            Seq<char>,
        >(reason),
    ensures
        advanced(run, Ok(())).progress == (ProgressView::Failed {
            error: BundleErrorView::TemplateRender { reason },
        }),
        action_of(advanced(run, Ok(()))) is None,
        forall|reports: Seq<Result<(), Seq<char>>>| #[trigger]
            run_of(advanced(run, Ok(())), reports) == advanced(run, Ok(())),
{
    assert forall|reports: Seq<Result<(), Seq<char>>>| #[trigger]
        run_of(advanced(run, Ok(())), reports) == advanced(run, Ok(())) by {
        finished_run_stays(advanced(run, Ok(())), reports);
    }
}

/// Where every step goes well and the manifest renders, six reports end the
/// run with the one bundle.
pub proof fn successful_run_exports_bundle(start: PipelineView, reports: Seq<Result<(), Seq<char>>>)
    requires
        start.progress == ProgressView::Workspace,
        rendered(MANIFEST_TEMPLATE@, true, fields_of(start.plan.record)) is Ok,
        reports.len() == 6,
        forall|i: int| 0 <= i < 6 ==> (#[trigger] reports[i]) is Ok,
    ensures
        result_of(run_of(start, reports)) == Some(
            Ok::<Seq<Seq<char>>, BundleErrorView>(seq![start.plan.bundle_path]),
        ),
{
    assert(reports.take(0) =~= Seq::empty());
    assert(run_of(start, reports.take(0)) == start);
    run_of_step(start, reports, 0);
    run_of_step(start, reports, 1);
    run_of_step(start, reports, 2);
    run_of_step(start, reports, 3);
    run_of_step(start, reports, 4);
    run_of_step(start, reports, 5);
    assert(reports.take(6) =~= reports);
}

/// Where the checkout of the shared modules fails, the run ends in the
/// failure of an external tool tagged with that stage, whatever is reported
/// afterwards, and nothing is due any more: the sandbox build is never
/// asked for.
pub proof fn failed_checkout_ends_run(
    start: PipelineView,
    reports: Seq<Result<(), Seq<char>>>,
    reason: Seq<char>,
)
    requires
        start.progress == ProgressView::Workspace,
        rendered(MANIFEST_TEMPLATE@, true, fields_of(start.plan.record)) is Ok,
        reports.len() >= 4,
        reports[0] is Ok,
        reports[1] is Ok,
        reports[2] is Ok,
        reports[3] == Err::<(), Seq<char>>(reason),
    ensures
        result_of(run_of(start, reports)) == Some(
            Err::<Seq<Seq<char>>, BundleErrorView>(
                BundleErrorView::ExternalTool { stage: Stage::DependencySources, reason },
            ),
        ),
        forall|k: int| 4 <= k <= reports.len() ==> action_of(run_of(start, reports.take(k))) is None,
{
    assert(reports.take(0) =~= Seq::empty());
    assert(run_of(start, reports.take(0)) == start);
    run_of_step(start, reports, 0);
    run_of_step(start, reports, 1);
    run_of_step(start, reports, 2);
    run_of_step(start, reports, 3);
    let failed = run_of(start, reports.take(4));
    assert forall|k: int| 4 <= k <= reports.len() implies run_of(start, reports.take(k))
        == failed by {
        run_continues(start, reports.take(k), 4);
        assert(reports.take(k).take(4) =~= reports.take(4));
        finished_run_stays(failed, reports.take(k).skip(4));
    }
    assert(reports.take(reports.len() as int) =~= reports);
}

/// A run over all its reports is the run over the first `k` of them, moved
/// on by the rest.
pub proof fn run_continues(start: PipelineView, reports: Seq<Result<(), Seq<char>>>, k: int)
    requires
        0 <= k <= reports.len(),
    ensures
        run_of(start, reports) == run_of(run_of(start, reports.take(k)), reports.skip(k)),
    decreases reports.len(),
{
    if k == reports.len() {
        assert(reports.take(k) =~= reports);
        assert(reports.skip(k) =~= Seq::empty());
    } else {
        let shorter = reports.drop_last();
        run_continues(start, shorter, k);
        assert(shorter.take(k) =~= reports.take(k));
        assert(reports.skip(k).drop_last() =~= shorter.skip(k));
        assert(reports.skip(k).last() == reports.last());
    }
}

/// Bundles a project: starts the run and hands the host one step after the
/// other until the run is over. The first failure ends it; nothing is
/// retried.
///
/// A run that cannot start, because the project's output directory does not
/// lie under the work directory, fails before the host is asked for
/// anything: the host need only be ready to be called where the run starts,
/// so on such settings no call of it is allowed. A relativization failure
/// comes from nowhere else. Otherwise the result is what the state machine
/// makes of the host's reports: the one exported bundle once every step
/// went well, or the failure of the first step that did not.
pub fn bundle_project<H: Fn(Action) -> Result<(), String>>(settings: &BuildSettings, host: &H) -> (result:
    Result<Vec<String>, BundleError>)
    requires
        started(settings@) is Ok ==> forall|action: Action| host.requires((action,)),
    ensures
        match started(settings@) {
            Err(error) => bundle_view(result) == Err::<Seq<Seq<char>>, BundleErrorView>(error),
            Ok(start) => exists|calls: Seq<(Action, Result<(), String>)>| #[trigger]
                host_served(host, start, calls) && Some(bundle_view(result)) == result_of(
                    run_of(start, reports_of(calls)),
                ),
        },
        result matches Ok(paths) ==> started(settings@) matches Ok(start) && paths.deep_view()
            == seq![start.plan.bundle_path],
        result matches Err(error) ==> (error@ is PathRelativization <==> started(settings@) is Err),
{
    let mut run = match Pipeline::start(settings) {
        Ok(run) => run,
        Err(error) => {
            return Err(error);
        },
    };
    let ghost start = run@;
    let ghost mut calls: Seq<(Action, Result<(), String>)> = Seq::empty();
    let mut due = run.next_action();
    while due.is_some()
        invariant
            forall|action: Action| host.requires((action,)),
            host_served(host, start, calls),
            run@ == run_of(start, reports_of(calls)),
            due_view(due) == action_of(run@),
            started(settings@) == Ok::<PipelineView, BundleErrorView>(start),
            run@.plan == start.plan,
            run@.progress matches ProgressView::Failed { error } ==> !(error is PathRelativization),
        decreases steps_left(run@.progress),
    {
        let action = due.unwrap();
        let ghost asked = action;
        let report = host(action);
        let ghost told = report;
        proof {
            let before = calls;
            calls = calls.push((asked, told));
            assert(reports_of(calls).drop_last() =~= reports_of(before));
            assert forall|i: int| 0 <= i < calls.len() implies {
                &&& action_of(run_of(start, reports_of(calls).take(i))) == Some(
                    (#[trigger] calls[i]).0@,
                )
                &&& host.ensures((calls[i].0,), calls[i].1)
            } by {
                assert(reports_of(calls).take(i) =~= reports_of(before).take(i));
                if i < before.len() {
                    assert(calls[i] == before[i]);
                } else {
                    assert(reports_of(before).take(i) =~= reports_of(before));
                }
            }
            step_moves_forward(run@, report_view(told));
        }
        run.advance(report);
        due = run.next_action();
    }
    match run.into_result() {
        Some(result) => result,
        None => unreached(),
    }
}

} // verus!
