//! The build settings a caller hands to the pipeline. They are read, never
//! changed.

use vstd::prelude::*;

verus! {

/// The Flatpak part of the build settings.
#[derive(Debug, Clone, PartialEq, Eq)]
pub struct FlatpakConfig {
    /// The directory that is mounted into the sandbox as the source tree.
    pub workdir: String,
    /// The frontend directory, relative to `workdir`.
    pub rel_app_dir: String,
    /// The backend directory, relative to `workdir`.
    pub rel_tauri_dir: String,
    /// Paths, relative to `workdir`, that are left out of the sandbox build.
    pub skip_list: Vec<String>,
    /// Whether the sandbox build goes through the Node command line.
    pub use_node_cli: bool,
    /// The version of the command line tool that the sandbox build installs.
    pub tauri_cli_version: String,
}

/// What the pipeline reads of a project's build settings.
#[derive(Debug, Clone, PartialEq, Eq)]
pub struct BuildSettings {
    /// The reverse-DNS identifier of the bundle.
    pub bundle_identifier: String,
    /// The product's display name.
    pub product_name: String,
    /// The name of the main binary.
    pub main_binary: String,
    /// The names of the binaries to install.
    pub binaries: Vec<String>,
    /// Sidecar binaries shipped beside the application.
    pub external_binaries: Vec<String>,
    /// The target architecture, as the compiler names it.
    pub binary_arch: String,
    /// The version of the application.
    pub version: String,
    /// Where the compiled project lies.
    pub project_out_directory: String,
    /// The Flatpak part of the settings.
    pub flatpak: FlatpakConfig,
}

/// The content of a `FlatpakConfig`.
pub struct FlatpakConfigView {
    pub workdir: Seq<char>,
    pub rel_app_dir: Seq<char>,
    pub rel_tauri_dir: Seq<char>,
    pub skip_list: Seq<Seq<char>>,
    pub use_node_cli: bool,
    pub tauri_cli_version: Seq<char>,
}

/// The content of a `BuildSettings`.
pub struct BuildSettingsView {
    pub bundle_identifier: Seq<char>,
    pub product_name: Seq<char>,
    pub main_binary: Seq<char>,
    pub binaries: Seq<Seq<char>>,
    pub external_binaries: Seq<Seq<char>>,
    pub binary_arch: Seq<char>,
    pub version: Seq<char>,
    pub project_out_directory: Seq<char>,
    pub flatpak: FlatpakConfigView,
}

impl View for FlatpakConfig {
    type V = FlatpakConfigView;

    open spec fn view(&self) -> FlatpakConfigView {
        FlatpakConfigView {
            workdir: self.workdir@,
            rel_app_dir: self.rel_app_dir@,
            rel_tauri_dir: self.rel_tauri_dir@,
            skip_list: self.skip_list.deep_view(),
            use_node_cli: self.use_node_cli,
            tauri_cli_version: self.tauri_cli_version@,
        }
    }
}

impl View for BuildSettings {
    type V = BuildSettingsView;

    open spec fn view(&self) -> BuildSettingsView {
        BuildSettingsView {
            bundle_identifier: self.bundle_identifier@,
            product_name: self.product_name@,
            main_binary: self.main_binary@,
            binaries: self.binaries.deep_view(),
            external_binaries: self.external_binaries.deep_view(),
            binary_arch: self.binary_arch@,
            version: self.version@,
            project_out_directory: self.project_out_directory@,
            flatpak: self.flatpak@,
        }
    }
}

} // verus!
