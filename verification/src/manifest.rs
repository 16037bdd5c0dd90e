//! The manifest record: what the manifest template is filled with, derived
//! from the build settings and the directory layout.

use vstd::prelude::*;
use vstd::string::*;
use crate::arch::{arch_code, architecture_code};
use crate::error::{BundleError, BundleErrorView};
use crate::json::{
    insert_flag, insert_text, insert_texts, json_entries, no_fields, object_new, text_list, Json,
};
use crate::layout::{DirectoryLayout, DirectoryLayoutView};
use crate::paths::{strip_prefix, stripped_prefix};
use crate::settings::{BuildSettings, BuildSettingsView};
use crate::text::copy_texts;

verus! {

/// The flat record the manifest template is rendered from. Every field is
/// always there; every path field is a path as text.
#[derive(Debug, Clone, PartialEq, Eq)]
pub struct ManifestRecord {
    pub app_id: String,
    pub app_name: String,
    pub main_binary: String,
    pub deb_package_name: String,
    pub project_out_directory: String,
    pub cargo_cache_dir: String,
    pub yarn_cache_dir: String,
    pub target_cache_dir: String,
    pub workdir: String,
    pub local_dir: String,
    pub rel_app_dir: String,
    pub rel_tauri_dir: String,
    pub rel_project_out_directory: String,
    pub binary: Vec<String>,
    pub skip_list: Vec<String>,
    pub use_node_cli: bool,
    pub tauri_cli_version: String,
}

/// The content of a `ManifestRecord`.
pub struct ManifestRecordView {
    pub app_id: Seq<char>,
    pub app_name: Seq<char>,
    pub main_binary: Seq<char>,
    pub deb_package_name: Seq<char>,
    pub project_out_directory: Seq<char>,
    pub cargo_cache_dir: Seq<char>,
    pub yarn_cache_dir: Seq<char>,
    pub target_cache_dir: Seq<char>,
    pub workdir: Seq<char>,
    pub local_dir: Seq<char>,
    pub rel_app_dir: Seq<char>,
    pub rel_tauri_dir: Seq<char>,
    pub rel_project_out_directory: Seq<char>,
    pub binary: Seq<Seq<char>>,
    pub skip_list: Seq<Seq<char>>,
    pub use_node_cli: bool,
    pub tauri_cli_version: Seq<char>,
}

impl View for ManifestRecord {
    type V = ManifestRecordView;

    open spec fn view(&self) -> ManifestRecordView {
        ManifestRecordView {
            app_id: self.app_id@,
            app_name: self.app_name@,
            main_binary: self.main_binary@,
            deb_package_name: self.deb_package_name@,
            project_out_directory: self.project_out_directory@,
            cargo_cache_dir: self.cargo_cache_dir@,
            yarn_cache_dir: self.yarn_cache_dir@,
            target_cache_dir: self.target_cache_dir@,
            workdir: self.workdir@,
            local_dir: self.local_dir@,
            rel_app_dir: self.rel_app_dir@,
            rel_tauri_dir: self.rel_tauri_dir@,
            rel_project_out_directory: self.rel_project_out_directory@,
            binary: self.binary.deep_view(),
            skip_list: self.skip_list.deep_view(),
            use_node_cli: self.use_node_cli,
            tauri_cli_version: self.tauri_cli_version@,
        }
    }
}

/// The Debian-style package name: binary, version and architecture code,
/// joined by underscores.
pub open spec fn deb_package_name_of(main_binary: Seq<char>, version: Seq<char>, arch: Seq<char>) -> Seq<
    char,
> {
    main_binary + "_"@ + version + "_"@ + arch_code(arch)
}

/// The record that belongs to `settings` and `layout`, where `rel_out` is
/// the project's output directory relative to the work directory.
pub open spec fn record_of(
    settings: BuildSettingsView,
    layout: DirectoryLayoutView,
    rel_out: Seq<char>,
) -> ManifestRecordView {
    ManifestRecordView {
        app_id: settings.bundle_identifier,
        app_name: settings.product_name,
        main_binary: settings.main_binary,
        deb_package_name: deb_package_name_of(
            settings.main_binary,
            settings.version,
            settings.binary_arch,
        ),
        project_out_directory: settings.project_out_directory,
        cargo_cache_dir: layout.cargo_cache,
        yarn_cache_dir: layout.package_cache,
        target_cache_dir: layout.target_cache,
        workdir: settings.flatpak.workdir,
        local_dir: layout.local_dir,
        rel_app_dir: settings.flatpak.rel_app_dir,
        rel_tauri_dir: settings.flatpak.rel_tauri_dir,
        rel_project_out_directory: rel_out,
        binary: settings.binaries,
        skip_list: settings.flatpak.skip_list,
        use_node_cli: settings.flatpak.use_node_cli,
        tauri_cli_version: settings.flatpak.tauri_cli_version,
    }
}

/// What `manifest_data` owes for `settings` and `layout`: the record, where
/// the project's output directory lies under the work directory, and the
/// relativization error naming both directories where it does not.
pub open spec fn manifest_data_of(
    settings: BuildSettingsView,
    layout: DirectoryLayoutView,
) -> Result<ManifestRecordView, BundleErrorView> {
    match stripped_prefix(settings.project_out_directory, settings.flatpak.workdir) {
        Some(rel_out) => Ok(record_of(settings, layout, rel_out)),
        None => Err(
            BundleErrorView::PathRelativization {
                path: settings.project_out_directory,
                base: settings.flatpak.workdir,
            },
        ),
    }
}

/// The view of a result of `manifest_data`.
pub open spec fn manifest_data_view(result: Result<ManifestRecord, BundleError>) -> Result<
    ManifestRecordView,
    BundleErrorView,
> {
    match result {
        Ok(record) => Ok(record@),
        Err(error) => Err(error@),
    }
}

/// The fields of a record as the template engine sees them, each under the
/// name the template calls it by.
pub open spec fn fields_of(record: ManifestRecordView) -> Map<Seq<char>, Json> {
    no_fields().insert("app_id"@, Json::Text(record.app_id)).insert(
        "app_name"@,
        Json::Text(record.app_name),
    ).insert("main_binary"@, Json::Text(record.main_binary)).insert(
        "deb_package_name"@,
        Json::Text(record.deb_package_name),
    ).insert("project_out_directory"@, Json::Text(record.project_out_directory)).insert(
        "cargo_cache_dir"@,
        Json::Text(record.cargo_cache_dir),
    ).insert("yarn_cache_dir"@, Json::Text(record.yarn_cache_dir)).insert(
        "target_cache_dir"@,
        Json::Text(record.target_cache_dir),
    ).insert("workdir"@, Json::Text(record.workdir)).insert(
        "local_dir"@,
        Json::Text(record.local_dir),
    ).insert("rel_app_dir"@, Json::Text(record.rel_app_dir)).insert(
        "rel_tauri_dir"@,
        Json::Text(record.rel_tauri_dir),
    ).insert("rel_project_out_directory"@, Json::Text(record.rel_project_out_directory)).insert(
        "binary"@,
        text_list(record.binary),
    ).insert("skip_list"@, text_list(record.skip_list)).insert(
        "use_node_cli"@,
        Json::Flag(record.use_node_cli),
    ).insert("tauri_cli_version"@, Json::Text(record.tauri_cli_version))
}

/// Builds the Debian-style package name.
pub fn deb_package_name(main_binary: &str, version: &str, arch: &str) -> (name: String)
    ensures
        name@ == deb_package_name_of(main_binary@, version@, arch@),
{
    let mut name: String = main_binary.to_owned();
    name.append("_");
    name.append(version);
    name.append("_");
    name.append(architecture_code(arch));
    name
}

/// Builds the record for `settings` and `layout`, given the project's
/// output directory relative to the work directory. Reads nothing but its
/// arguments.
pub fn manifest_record(
    settings: &BuildSettings,
    layout: &DirectoryLayout,
    rel_project_out_directory: String,
) -> (record: ManifestRecord)
    ensures
        record@ == record_of(settings@, layout@, rel_project_out_directory@),
{
    ManifestRecord {
        app_id: settings.bundle_identifier.clone(),
        app_name: settings.product_name.clone(),
        main_binary: settings.main_binary.clone(),
        deb_package_name: deb_package_name(
            settings.main_binary.as_str(),
            settings.version.as_str(),
            settings.binary_arch.as_str(),
        ),
        project_out_directory: settings.project_out_directory.clone(),
        cargo_cache_dir: layout.cargo_cache.clone(),
        yarn_cache_dir: layout.package_cache.clone(),
        target_cache_dir: layout.target_cache.clone(),
        workdir: settings.flatpak.workdir.clone(),
        local_dir: layout.local_dir.clone(),
        rel_app_dir: settings.flatpak.rel_app_dir.clone(),
        rel_tauri_dir: settings.flatpak.rel_tauri_dir.clone(),
        rel_project_out_directory,
        binary: copy_texts(&settings.binaries),
        skip_list: copy_texts(&settings.flatpak.skip_list),
        use_node_cli: settings.flatpak.use_node_cli,
        tauri_cli_version: settings.flatpak.tauri_cli_version.clone(),
    }
}

/// Derives the manifest record from the settings and the layout. Fails, with
/// the two directories in the error, exactly where the project's output
/// directory does not lie under the work directory. Reads nothing but its
/// arguments.
pub fn manifest_data(settings: &BuildSettings, layout: &DirectoryLayout) -> (result: Result<
    ManifestRecord,
    BundleError,
>)
    ensures
        manifest_data_view(result) == manifest_data_of(settings@, layout@),
{
    match strip_prefix(
        settings.project_out_directory.as_str(),
        settings.flatpak.workdir.as_str(),
    ) {
        Some(rel_out) => Ok(manifest_record(settings, layout, rel_out)),
        None => Err(
            BundleError::PathRelativization {
                path: settings.project_out_directory.clone(),
                base: settings.flatpak.workdir.clone(),
            },
        ),
    }
}

impl ManifestRecord {
    /// The record as the JSON object that the template is rendered from.
    pub fn to_json(&self) -> (object: serde_json::Map<String, serde_json::Value>)
        ensures
            json_entries(object) == fields_of(self@),
    {
        let mut object = object_new();
        insert_text(&mut object, "app_id", self.app_id.as_str());
        insert_text(&mut object, "app_name", self.app_name.as_str());
        insert_text(&mut object, "main_binary", self.main_binary.as_str());
        insert_text(&mut object, "deb_package_name", self.deb_package_name.as_str());
        insert_text(&mut object, "project_out_directory", self.project_out_directory.as_str());
        insert_text(&mut object, "cargo_cache_dir", self.cargo_cache_dir.as_str());
        insert_text(&mut object, "yarn_cache_dir", self.yarn_cache_dir.as_str());
        insert_text(&mut object, "target_cache_dir", self.target_cache_dir.as_str());
        insert_text(&mut object, "workdir", self.workdir.as_str());
        insert_text(&mut object, "local_dir", self.local_dir.as_str());
        insert_text(&mut object, "rel_app_dir", self.rel_app_dir.as_str());
        insert_text(&mut object, "rel_tauri_dir", self.rel_tauri_dir.as_str());
        insert_text(
            &mut object,
            "rel_project_out_directory",
            self.rel_project_out_directory.as_str(),
        );
        insert_texts(&mut object, "binary", &self.binary);
        insert_texts(&mut object, "skip_list", &self.skip_list);
        insert_flag(&mut object, "use_node_cli", self.use_node_cli);
        insert_text(&mut object, "tauri_cli_version", self.tauri_cli_version.as_str());
        object
    }
}

/// The Manifest Data Builder is a function of the content of its arguments:
/// two runs on settings and layouts with the same content give records with
/// the same content, or the same error.
pub proof fn manifest_data_is_pure(
    settings_a: BuildSettings,
    layout_a: DirectoryLayout,
    result_a: Result<ManifestRecord, BundleError>,
    settings_b: BuildSettings,
    layout_b: DirectoryLayout,
    result_b: Result<ManifestRecord, BundleError>,
)
    requires
        settings_a@ == settings_b@,
        layout_a@ == layout_b@,
        manifest_data_view(result_a) == manifest_data_of(settings_a@, layout_a@),
        manifest_data_view(result_b) == manifest_data_of(settings_b@, layout_b@),
    ensures
        manifest_data_view(result_a) == manifest_data_view(result_b),
        result_a is Ok <==> result_b is Ok,
        result_a is Ok ==> fields_of(result_a->Ok_0@) == fields_of(result_b->Ok_0@),
{
}

} // verus!
