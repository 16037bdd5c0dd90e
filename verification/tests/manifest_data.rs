use flatpak_bundler::arch::architecture_code;
use flatpak_bundler::commands::{
    build_command, bundle_path, export_command, fetch_command, manifest_path,
};
use flatpak_bundler::error::BundleError;
use flatpak_bundler::layout::DirectoryLayout;
use flatpak_bundler::manifest::{deb_package_name, manifest_data, manifest_record};
use flatpak_bundler::paths::join;
use flatpak_bundler::settings::{BuildSettings, FlatpakConfig};
use std::path::Path;

fn example_settings(workdir: &str, out: &str) -> BuildSettings {
    BuildSettings {
        bundle_identifier: "app.tauri.example".to_string(),
        product_name: "Example".to_string(),
        main_binary: "example".to_string(),
        binaries: vec!["example".to_string(), "helper".to_string()],
        external_binaries: vec![],
        binary_arch: "x86_64".to_string(),
        version: "1.0.0".to_string(),
        project_out_directory: out.to_string(),
        flatpak: FlatpakConfig {
            workdir: workdir.to_string(),
            rel_app_dir: ".".to_string(),
            rel_tauri_dir: "src-tauri".to_string(),
            skip_list: vec!["node_modules".to_string(), "target".to_string()],
            use_node_cli: false,
            tauri_cli_version: "1.2.3".to_string(),
        },
    }
}

#[test]
fn architecture_code_of_x86_is_i386() {
    assert_eq!(architecture_code("x86"), "i386");
}

#[test]
fn architecture_code_of_x86_64_is_amd64() {
    assert_eq!(architecture_code("x86_64"), "amd64");
}

#[test]
fn architecture_code_passes_other_names_through() {
    assert_eq!(architecture_code("aarch64"), "aarch64");
    assert_eq!(architecture_code("armv7"), "armv7");
    assert_eq!(architecture_code(""), "");
    assert_eq!(architecture_code("X86"), "X86");
    assert_eq!(architecture_code("x86_64 "), "x86_64 ");
    assert_eq!(architecture_code("i386"), "i386");
}

#[test]
fn join_puts_one_separator_between() {
    assert_eq!(join("/w/target", "release"), "/w/target/release");
    assert_eq!(join("/w/target/", "release"), "/w/target/release");
    assert_eq!(join("", "release"), "release");
    assert_eq!(join("/w", "a/b"), "/w/a/b");
    assert_eq!(join("/w", ""), "/w/");
}

#[test]
fn join_lets_a_rooted_path_replace_the_base() {
    assert_eq!(join("/w/target", "/etc"), "/etc");
    assert_eq!(join("", "/"), "/");
}

#[test]
fn join_agrees_with_the_standard_library() {
    let bases = ["", "/", "/w", "/w/", "w", "w/x", "/w//", "./w", "/wé"];
    let rels = ["", "a", "a/b", "/a", "/", ".cache", "a/", "é.json", "app.tauri.example.flatpak"];
    for base in bases {
        for rel in rels {
            let expected = Path::new(base).join(rel).to_string_lossy().into_owned();
            assert_eq!(join(base, rel), expected);
        }
    }
}

#[test]
fn layout_lies_under_the_project_output_directory() {
    let layout = DirectoryLayout::new("/w/target/release");
    assert_eq!(layout.output_dir, "/w/target/release/bundle/flatpak");
    assert_eq!(layout.local_dir, "/w/target/release/bundle/flatpak/local");
    assert_eq!(layout.local_build_dir, "/w/target/release/bundle/flatpak/local_build");
    assert_eq!(layout.repository_dir, "/w/target/release/bundle/flatpak/repo");
    assert_eq!(layout.cache_dir, "/w/target/release/bundle/flatpak/.cache");
    assert_eq!(layout.cargo_cache, "/w/target/release/bundle/flatpak/.cache/cargo");
    assert_eq!(layout.package_cache, "/w/target/release/bundle/flatpak/.cache/yarn");
    assert_eq!(layout.target_cache, "/w/target/release/bundle/flatpak/.cache/target");
}

#[test]
fn layout_of_a_directory_with_trailing_separator() {
    let layout = DirectoryLayout::new("/w/out/");
    assert_eq!(layout.output_dir, "/w/out/bundle/flatpak");
    assert_eq!(layout.local_dir, "/w/out/bundle/flatpak/local");
}

#[test]
fn layout_names_stale_and_fresh_directories() {
    let layout = DirectoryLayout::new("/w/target/release");
    assert_eq!(
        layout.stale_dirs(),
        vec![
            "/w/target/release/bundle/flatpak/local".to_string(),
            "/w/target/release/bundle/flatpak/local_build".to_string(),
        ]
    );
    assert_eq!(
        layout.fresh_dirs(),
        vec![
            "/w/target/release/bundle/flatpak/local".to_string(),
            "/w/target/release/bundle/flatpak/.cache/cargo".to_string(),
            "/w/target/release/bundle/flatpak/.cache/yarn".to_string(),
            "/w/target/release/bundle/flatpak/.cache/target".to_string(),
        ]
    );
}

#[test]
fn deb_package_name_joins_binary_version_and_code() {
    assert_eq!(deb_package_name("example", "1.0.0", "x86_64"), "example_1.0.0_amd64");
    assert_eq!(deb_package_name("example", "1.0.0", "x86"), "example_1.0.0_i386");
    assert_eq!(deb_package_name("tool", "0.2.1-beta", "aarch64"), "tool_0.2.1-beta_aarch64");
    assert_eq!(deb_package_name("", "", ""), "__");
}

#[test]
fn manifest_data_for_the_example_project() {
    let settings = example_settings("/w", "/w/target/release");
    let layout = DirectoryLayout::new(&settings.project_out_directory);
    let record = manifest_data(&settings, &layout).unwrap();
    assert_eq!(record.app_id, "app.tauri.example");
    assert_eq!(record.app_name, "Example");
    assert_eq!(record.main_binary, "example");
    assert_eq!(record.deb_package_name, "example_1.0.0_amd64");
    assert_eq!(record.project_out_directory, "/w/target/release");
    assert_eq!(record.cargo_cache_dir, "/w/target/release/bundle/flatpak/.cache/cargo");
    assert_eq!(record.yarn_cache_dir, "/w/target/release/bundle/flatpak/.cache/yarn");
    assert_eq!(record.target_cache_dir, "/w/target/release/bundle/flatpak/.cache/target");
    assert_eq!(record.workdir, "/w");
    assert_eq!(record.local_dir, "/w/target/release/bundle/flatpak/local");
    assert_eq!(record.rel_app_dir, ".");
    assert_eq!(record.rel_tauri_dir, "src-tauri");
    assert_eq!(record.rel_project_out_directory, "target/release");
    assert_eq!(record.binary, vec!["example".to_string(), "helper".to_string()]);
    assert_eq!(record.skip_list, vec!["node_modules".to_string(), "target".to_string()]);
    assert!(!record.use_node_cli);
    assert_eq!(record.tauri_cli_version, "1.2.3");
}

#[test]
fn manifest_data_twice_gives_the_same_record() {
    let settings = example_settings("/w", "/w/target/release");
    let layout = DirectoryLayout::new(&settings.project_out_directory);
    let first = manifest_data(&settings, &layout);
    let second = manifest_data(&settings.clone(), &layout.clone());
    assert_eq!(first, second);
    assert_eq!(
        first.unwrap().to_json(),
        second.unwrap().to_json()
    );
}

#[test]
fn manifest_data_relativizes_by_whole_components() {
    let settings = example_settings("/w/", "/w/target//release/");
    let layout = DirectoryLayout::new(&settings.project_out_directory);
    let record = manifest_data(&settings, &layout).unwrap();
    assert_eq!(
        Path::new(&record.rel_project_out_directory),
        Path::new("target/release")
    );
}

#[test]
fn manifest_data_of_the_work_directory_itself() {
    let settings = example_settings("/w", "/w");
    let layout = DirectoryLayout::new(&settings.project_out_directory);
    let record = manifest_data(&settings, &layout).unwrap();
    assert_eq!(record.rel_project_out_directory, "");
}

#[test]
fn manifest_data_fails_outside_the_work_directory() {
    let settings = example_settings("/elsewhere", "/w/target/release");
    let layout = DirectoryLayout::new(&settings.project_out_directory);
    assert_eq!(
        manifest_data(&settings, &layout),
        Err(BundleError::PathRelativization {
            path: "/w/target/release".to_string(),
            base: "/elsewhere".to_string(),
        })
    );
}

#[test]
fn manifest_data_fails_on_a_partial_component() {
    let settings = example_settings("/w/tar", "/w/target/release");
    let layout = DirectoryLayout::new(&settings.project_out_directory);
    assert!(matches!(
        manifest_data(&settings, &layout),
        Err(BundleError::PathRelativization { .. })
    ));
}

#[test]
fn manifest_record_takes_the_relative_directory_as_given() {
    let settings = example_settings("/w", "/w/target/release");
    let layout = DirectoryLayout::new(&settings.project_out_directory);
    let record = manifest_record(&settings, &layout, "out".to_string());
    assert_eq!(record.rel_project_out_directory, "out");
    assert_eq!(record.deb_package_name, "example_1.0.0_amd64");
}

#[test]
fn manifest_and_bundle_paths() {
    let layout = DirectoryLayout::new("/w/target/release");
    assert_eq!(
        manifest_path(&layout, "app.tauri.example"),
        "/w/target/release/bundle/flatpak/local/app.tauri.example.json"
    );
    assert_eq!(
        bundle_path(&layout, "app.tauri.example"),
        "/w/target/release/bundle/flatpak/app.tauri.example.flatpak"
    );
}

#[test]
fn fetch_command_clones_the_shared_modules() {
    let layout = DirectoryLayout::new("/w/target/release");
    let command = fetch_command(&layout);
    assert_eq!(command.program, "git");
    assert_eq!(
        command.args,
        vec![
            "clone".to_string(),
            "https://github.com/flathub/shared-modules.git".to_string()
        ]
    );
    assert_eq!(
        command.current_dir,
        Some("/w/target/release/bundle/flatpak/local".to_string())
    );
}

#[test]
fn build_command_names_state_repository_build_directory_and_manifest() {
    let layout = DirectoryLayout::new("/w/target/release");
    let command = build_command(&layout, "/w/target/release/bundle/flatpak/local/a.json");
    assert_eq!(command.program, "flatpak-builder");
    assert_eq!(
        command.args,
        vec![
            "--user".to_string(),
            "--install-deps-from=flathub".to_string(),
            "--state-dir=/w/target/release/bundle/flatpak/.flatpak-builder".to_string(),
            "--repo=/w/target/release/bundle/flatpak/repo".to_string(),
            "/w/target/release/bundle/flatpak/local_build".to_string(),
            "/w/target/release/bundle/flatpak/local/a.json".to_string(),
        ]
    );
    assert_eq!(command.current_dir, None);
}

#[test]
fn export_command_names_repository_bundle_and_identifier() {
    let layout = DirectoryLayout::new("/w/target/release");
    let command = export_command(&layout, "/out/a.flatpak", "app.tauri.example");
    assert_eq!(command.program, "flatpak");
    assert_eq!(
        command.args,
        vec![
            "build-bundle".to_string(),
            "/w/target/release/bundle/flatpak/repo".to_string(),
            "/out/a.flatpak".to_string(),
            "app.tauri.example".to_string(),
        ]
    );
    assert_eq!(command.current_dir, None);
}
