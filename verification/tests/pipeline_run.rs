use flatpak_bundler::bundle::bundle_project;
use flatpak_bundler::error::{BundleError, Stage};
use flatpak_bundler::pipeline::{failure, Action, BuildPlan, Pipeline, PipelineState, Progress};
use flatpak_bundler::settings::{BuildSettings, FlatpakConfig};
use std::cell::RefCell;

fn scenario_settings(workdir: &str) -> BuildSettings {
    BuildSettings {
        bundle_identifier: "app.tauri.example".to_string(),
        product_name: "Example".to_string(),
        main_binary: "example".to_string(),
        binaries: vec!["example".to_string()],
        external_binaries: vec!["sidecar".to_string()],
        binary_arch: "x86_64".to_string(),
        version: "1.0.0".to_string(),
        project_out_directory: "/W/target/release".to_string(),
        flatpak: FlatpakConfig {
            workdir: workdir.to_string(),
            rel_app_dir: ".".to_string(),
            rel_tauri_dir: "src-tauri".to_string(),
            skip_list: vec![],
            use_node_cli: true,
            tauri_cli_version: "1.2.3".to_string(),
        },
    }
}

fn kind(action: &Action) -> String {
    match action {
        Action::PrepareWorkspace { .. } => "workspace".to_string(),
        Action::GenerateAssets { .. } => "assets".to_string(),
        Action::WriteManifest { .. } => "manifest".to_string(),
        Action::RunTool { command, .. } => command.program.clone(),
    }
}

#[test]
fn successful_run_returns_the_bundle_path() {
    let settings = scenario_settings("/W");
    let seen: RefCell<Vec<Action>> = RefCell::new(Vec::new());
    let host = |action: Action| -> Result<(), String> {
        seen.borrow_mut().push(action);
        Ok(())
    };
    let result = bundle_project(&settings, &host);
    assert_eq!(
        result,
        Ok(vec!["/W/target/release/bundle/flatpak/app.tauri.example.flatpak".to_string()])
    );
    let seen = seen.into_inner();
    let kinds: Vec<String> = seen.iter().map(kind).collect();
    assert_eq!(
        kinds,
        vec!["workspace", "assets", "manifest", "git", "flatpak-builder", "flatpak"]
    );
    match &seen[0] {
        Action::PrepareWorkspace { remove, create } => {
            assert_eq!(
                remove,
                &vec![
                    "/W/target/release/bundle/flatpak/local".to_string(),
                    "/W/target/release/bundle/flatpak/local_build".to_string(),
                ]
            );
            assert_eq!(
                create,
                &vec![
                    "/W/target/release/bundle/flatpak/local".to_string(),
                    "/W/target/release/bundle/flatpak/.cache/cargo".to_string(),
                    "/W/target/release/bundle/flatpak/.cache/yarn".to_string(),
                    "/W/target/release/bundle/flatpak/.cache/target".to_string(),
                ]
            );
        }
        other => panic!("unexpected first action {:?}", other),
    }
    assert_eq!(
        seen[1],
        Action::GenerateAssets {
            dest_dir: "/W/target/release/bundle/flatpak/local".to_string()
        }
    );
    match &seen[2] {
        Action::WriteManifest { path, contents } => {
            assert_eq!(
                path,
                "/W/target/release/bundle/flatpak/local/app.tauri.example.json"
            );
            assert!(contents.contains("\"app-id\": \"app.tauri.example\""));
            assert!(contents.contains("example_1.0.0_amd64.deb"));
        }
        other => panic!("unexpected third action {:?}", other),
    }
    match &seen[4] {
        Action::RunTool { stage, command } => {
            assert_eq!(*stage, Stage::SandboxBuild);
            assert_eq!(
                command.args[5],
                "/W/target/release/bundle/flatpak/local/app.tauri.example.json"
            );
        }
        other => panic!("unexpected fifth action {:?}", other),
    }
    match &seen[5] {
        Action::RunTool { stage, command } => {
            assert_eq!(*stage, Stage::BundleExport);
            assert_eq!(
                command.args,
                vec![
                    "build-bundle".to_string(),
                    "/W/target/release/bundle/flatpak/repo".to_string(),
                    "/W/target/release/bundle/flatpak/app.tauri.example.flatpak".to_string(),
                    "app.tauri.example".to_string(),
                ]
            );
        }
        other => panic!("unexpected sixth action {:?}", other),
    }
}

#[test]
fn failed_checkout_ends_the_run_before_the_build() {
    let settings = scenario_settings("/W");
    let seen: RefCell<Vec<String>> = RefCell::new(Vec::new());
    let host = |action: Action| -> Result<(), String> {
        seen.borrow_mut().push(kind(&action));
        match action {
            Action::RunTool { stage: Stage::DependencySources, .. } => {
                Err("exit status: 128".to_string())
            }
            _ => Ok(()),
        }
    };
    let result = bundle_project(&settings, &host);
    let error = result.unwrap_err();
    assert_eq!(
        error,
        BundleError::ExternalTool {
            stage: Stage::DependencySources,
            reason: "exit status: 128".to_string(),
        }
    );
    match &error {
        BundleError::ExternalTool { stage, .. } => assert_eq!(stage.tag(), "dependency sources"),
        other => panic!("unexpected error {:?}", other),
    }
    assert_eq!(
        error.message(),
        "failed to generate dependency sources for bundle manifest: exit status: 128"
    );
    assert_eq!(seen.into_inner(), vec!["workspace", "assets", "manifest", "git"]);
}

#[test]
fn failed_build_and_failed_export_carry_their_stage() {
    let settings = scenario_settings("/W");
    for (program, stage, calls) in [
        ("flatpak-builder", Stage::SandboxBuild, 5usize),
        ("flatpak", Stage::BundleExport, 6usize),
    ] {
        let count: RefCell<usize> = RefCell::new(0);
        let host = |action: Action| -> Result<(), String> {
            *count.borrow_mut() += 1;
            if kind(&action) == program {
                Err("killed".to_string())
            } else {
                Ok(())
            }
        };
        assert_eq!(
            bundle_project(&settings, &host),
            Err(BundleError::ExternalTool { stage, reason: "killed".to_string() })
        );
        assert_eq!(count.into_inner(), calls);
    }
}

#[test]
fn failed_workspace_is_a_filesystem_failure() {
    let settings = scenario_settings("/W");
    let count: RefCell<usize> = RefCell::new(0);
    let host = |_action: Action| -> Result<(), String> {
        *count.borrow_mut() += 1;
        Err("permission denied".to_string())
    };
    assert_eq!(
        bundle_project(&settings, &host),
        Err(BundleError::Filesystem { reason: "permission denied".to_string() })
    );
    assert_eq!(count.into_inner(), 1);
}

#[test]
fn run_outside_the_work_directory_asks_the_host_for_nothing() {
    let settings = scenario_settings("/elsewhere");
    let count: RefCell<usize> = RefCell::new(0);
    let host = |_action: Action| -> Result<(), String> {
        *count.borrow_mut() += 1;
        Ok(())
    };
    assert_eq!(
        bundle_project(&settings, &host),
        Err(BundleError::PathRelativization {
            path: "/W/target/release".to_string(),
            base: "/elsewhere".to_string(),
        })
    );
    assert_eq!(count.into_inner(), 0);
    assert!(matches!(
        Pipeline::start(&settings),
        Err(BundleError::PathRelativization { .. })
    ));
    assert!(matches!(
        BuildPlan::new(&settings),
        Err(BundleError::PathRelativization { .. })
    ));
}

#[test]
fn states_follow_the_stages() {
    let mut run = Pipeline::start(&scenario_settings("/W")).unwrap();
    assert_eq!(run.state(), PipelineState::Clean);
    assert_eq!(run.progress, Progress::Workspace);
    run.advance(Ok(()));
    assert_eq!(run.state(), PipelineState::Clean);
    assert_eq!(run.progress, Progress::Assets);
    run.advance(Ok(()));
    assert_eq!(run.state(), PipelineState::Clean);
    assert!(matches!(run.progress, Progress::Manifest { .. }));
    run.advance(Ok(()));
    assert_eq!(run.state(), PipelineState::ManifestWritten);
    run.advance(Ok(()));
    assert_eq!(run.state(), PipelineState::SourcesFetched);
    run.advance(Ok(()));
    assert_eq!(run.state(), PipelineState::Built);
    assert_eq!(run.clone().into_result(), None);
    run.advance(Ok(()));
    assert_eq!(run.state(), PipelineState::Exported);
    assert_eq!(run.next_action(), None);
    run.advance(Err("late".to_string()));
    assert_eq!(run.state(), PipelineState::Exported);
    assert_eq!(
        run.into_result(),
        Some(Ok(vec![
            "/W/target/release/bundle/flatpak/app.tauri.example.flatpak".to_string()
        ]))
    );
}

#[test]
fn failed_run_is_not_resumed() {
    let mut run = Pipeline::start(&scenario_settings("/W")).unwrap();
    run.advance(Ok(()));
    run.advance(Err("no icons".to_string()));
    assert_eq!(run.state(), PipelineState::Failed);
    assert_eq!(run.next_action(), None);
    let failed = run.clone();
    run.advance(Ok(()));
    assert_eq!(run, failed);
    run.advance(Err("again".to_string()));
    assert_eq!(run, failed);
    assert_eq!(
        run.into_result(),
        Some(Err(BundleError::Filesystem { reason: "no icons".to_string() }))
    );
}

#[test]
fn failure_of_each_step() {
    assert_eq!(
        failure(&Progress::Workspace, "a".to_string()),
        BundleError::Filesystem { reason: "a".to_string() }
    );
    assert_eq!(
        failure(&Progress::Manifest { contents: "{}".to_string() }, "b".to_string()),
        BundleError::Filesystem { reason: "b".to_string() }
    );
    assert_eq!(
        failure(&Progress::DependencySources, "c".to_string()),
        BundleError::ExternalTool { stage: Stage::DependencySources, reason: "c".to_string() }
    );
    assert_eq!(
        failure(&Progress::SandboxBuild, "d".to_string()),
        BundleError::ExternalTool { stage: Stage::SandboxBuild, reason: "d".to_string() }
    );
    assert_eq!(
        failure(&Progress::BundleExport, "e".to_string()),
        BundleError::ExternalTool { stage: Stage::BundleExport, reason: "e".to_string() }
    );
}

#[test]
fn stages_have_tags_and_contexts() {
    assert_eq!(Stage::DependencySources.tag(), "dependency sources");
    assert_eq!(Stage::SandboxBuild.tag(), "sandbox build");
    assert_eq!(Stage::BundleExport.tag(), "bundle export");
    assert_eq!(
        Stage::DependencySources.context(),
        "failed to generate dependency sources for bundle manifest"
    );
    assert_eq!(Stage::SandboxBuild.context(), "failed to build sandboxed bundle");
    assert_eq!(Stage::BundleExport.context(), "failed to export bundle");
}

#[test]
fn errors_describe_themselves() {
    assert_eq!(
        BundleError::Filesystem { reason: "disk full".to_string() }.message(),
        "filesystem error: disk full"
    );
    assert_eq!(
        BundleError::PathRelativization { path: "/a/b".to_string(), base: "/c".to_string() }
            .message(),
        "output directory /a/b does not lie under the work directory /c"
    );
    assert_eq!(
        BundleError::TemplateRender { reason: "missing field app_id".to_string() }.message(),
        "failed to render the manifest: missing field app_id"
    );
    assert_eq!(
        BundleError::ExternalTool { stage: Stage::SandboxBuild, reason: "exit 1".to_string() }
            .message(),
        "failed to build sandboxed bundle: exit 1"
    );
    assert_eq!(
        BundleError::ExternalTool { stage: Stage::BundleExport, reason: "exit 2".to_string() }
            .message(),
        "failed to export bundle: exit 2"
    );
}
