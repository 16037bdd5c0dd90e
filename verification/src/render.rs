//! Rendering of the manifest: the fixed template, the check that the data
//! has every field the template names, and the call of the template engine
//! in strict mode.

use vstd::prelude::*;
use vstd::string::*;
use crate::error::{BundleError, BundleErrorView};
use crate::json::{has_key, json_entries, Json};
use crate::manifest::{fields_of, ManifestRecord, ManifestRecordView};
use crate::text::concat2;

verus! {

/// The manifest of the sandboxed build, with a placeholder for each field of
/// the manifest record.
pub const MANIFEST_TEMPLATE: &'static str = "{
  \"app-id\": \"{{{app_id}}}\",
  \"runtime\": \"org.gnome.Platform\",
  \"runtime-version\": \"42\",
  \"sdk\": \"org.gnome.Sdk\",
  \"sdk-extensions\": [
    \"org.freedesktop.Sdk.Extension.rust-stable\",
    \"org.freedesktop.Sdk.Extension.node16\"
  ],
  \"command\": \"{{{main_binary}}}\",
  \"finish-args\": [
    \"--socket=wayland\",
    \"--socket=fallback-x11\",
    \"--device=dri\",
    \"--share=ipc\",
    \"--share=network\"
  ],
  \"build-options\": {
    \"append-path\": \"/usr/lib/sdk/rust-stable/bin:/usr/lib/sdk/node16/bin\",
    \"build-args\": [\"--share=network\"],
    \"env\": {
      \"CARGO_HOME\": \"/run/build/{{{main_binary}}}/.cache/cargo\",
      \"YARN_CACHE_FOLDER\": \"/run/build/{{{main_binary}}}/.cache/yarn\",
      \"CARGO_TARGET_DIR\": \"/run/build/{{{main_binary}}}/.cache/target\",
      \"TAURI_CLI_VERSION\": \"{{{tauri_cli_version}}}\"
    }
  },
  \"modules\": [
    \"shared-modules/libappindicator/libappindicator-gtk3-12.10.json\",
    {
      \"name\": \"{{{main_binary}}}\",
      \"x-product-name\": \"{{{app_name}}}\",
      \"x-project-out-directory\": \"{{{project_out_directory}}}\",
      \"buildsystem\": \"simple\",
      \"sources\": [
        {
          \"type\": \"dir\",
          \"path\": \"{{{workdir}}}\",
          \"skip\": [{{#each skip_list}}\"{{{this}}}\", {{/each}}\".git\"]
        },
        { \"type\": \"dir\", \"path\": \"{{{cargo_cache_dir}}}\", \"dest\": \".cache/cargo\" },
        { \"type\": \"dir\", \"path\": \"{{{yarn_cache_dir}}}\", \"dest\": \".cache/yarn\" },
        { \"type\": \"dir\", \"path\": \"{{{target_cache_dir}}}\", \"dest\": \".cache/target\" },
        { \"type\": \"dir\", \"path\": \"{{{local_dir}}}/usr\", \"dest\": \"usr\" }
      ],
      \"build-commands\": [
{{#if use_node_cli}}
        \"cd {{{rel_app_dir}}} && yarn install && yarn tauri build -b deb\",
{{else}}
        \"cargo install tauri-cli --version {{{tauri_cli_version}}}\",
        \"cd {{{rel_tauri_dir}}} && cargo tauri build -b deb\",
{{/if}}
        \"ar -x {{{rel_project_out_directory}}}/bundle/deb/{{{deb_package_name}}}.deb data.tar.gz\",
        \"tar -xf data.tar.gz\",
{{#each binary}}
        \"install -Dm755 usr/bin/{{{this}}} /app/bin/{{{this}}}\",
{{/each}}
        \"mkdir -p /app/share\",
        \"cp -r usr/share/. /app/share\"
      ]
    }
  ]
}
";

/// What the template engine makes of `template` and `data`, in strict mode
/// or not: the rendered text, or the engine's description of why it gave up.
pub uninterp spec fn rendered(template: Seq<char>, strict: bool, data: Map<Seq<char>, Json>) -> Result<
    Seq<char>,
    Seq<char>,
>;

/// The content of a rendering outcome.
pub open spec fn outcome_view(outcome: Result<String, String>) -> Result<Seq<char>, Seq<char>> {
    match outcome {
        Ok(text) => Ok(text@),
        Err(reason) => Err(reason@),
    }
}

/// `handlebars::Handlebars::render_template` on a registry fresh from
/// `Handlebars::new`, after `set_strict_mode(strict)`; an error is handed
/// back as the text it displays. Only the manifest template is admitted: it
/// includes no partial, so the engine walks it once and returns, whereas a
/// template that includes itself would never come back. The outcome depends
/// on the template, the flag and the fields of `data` alone: it is
/// `rendered` of the three. Nothing is claimed of what that text is.
#[verifier::external_body]
pub(crate) fn render_template(
    template: &str,
    strict: bool,
    data: &serde_json::Map<String, serde_json::Value>,
) -> (outcome: Result<String, String>)
    requires
        template@ == MANIFEST_TEMPLATE@,
    ensures
        outcome_view(outcome) == rendered(template@, strict, json_entries(*data)),
{
    let mut registry = handlebars::Handlebars::new();
    registry.set_strict_mode(strict);
    registry.render_template(template, data).map_err(|error| error.to_string())
}

/// The names of the fields that the manifest template refers to.
pub open spec fn required_fields() -> Seq<Seq<char>> {
    seq![
        "app_id"@,
        "app_name"@,
        "main_binary"@,
        "deb_package_name"@,
        "project_out_directory"@,
        "cargo_cache_dir"@,
        "yarn_cache_dir"@,
        "target_cache_dir"@,
        "workdir"@,
        "local_dir"@,
        "rel_app_dir"@,
        "rel_tauri_dir"@,
        "rel_project_out_directory"@,
        "binary"@,
        "skip_list"@,
        "use_node_cli"@,
        "tauri_cli_version"@,
    ]
}

/// The first of `names` that `data` has no field for, if there is one.
pub open spec fn first_missing(names: Seq<Seq<char>>, data: Map<Seq<char>, Json>) -> Option<
    Seq<char>,
>
    decreases names.len(),
{
    if names.len() == 0 {
        None
    } else if !data.dom().contains(names[0]) {
        Some(names[0])
    } else {
        first_missing(names.drop_first(), data)
    }
}

/// The content of a result that is a text or a failure.
pub open spec fn text_result_view(result: Result<String, BundleError>) -> Result<
    Seq<char>,
    BundleErrorView,
> {
    match result {
        Ok(text) => Ok(text@),
        Err(error) => Err(error@),
    }
}

/// What becomes of a rendering outcome: the text, or a template failure
/// with the engine's reason.
pub open spec fn manifest_text_of(outcome: Result<Seq<char>, Seq<char>>) -> Result<
    Seq<char>,
    BundleErrorView,
> {
    match outcome {
        Ok(text) => Ok(text),
        Err(reason) => Err(BundleErrorView::TemplateRender { reason }),
    }
}

/// What rendering the manifest from `data` owes: a template failure that
/// names the first missing field, where one is missing; otherwise what the
/// template engine makes of the template and `data` in strict mode.
pub open spec fn render_data_of(data: Map<Seq<char>, Json>) -> Result<Seq<char>, BundleErrorView> {
    match first_missing(required_fields(), data) {
        Some(name) => Err(BundleErrorView::TemplateRender { reason: "missing field "@ + name }),
        None => manifest_text_of(rendered(MANIFEST_TEMPLATE@, true, data)),
    }
}

/// `first_missing` finds nothing exactly where every name has a field.
pub proof fn first_missing_is_none_iff_complete(names: Seq<Seq<char>>, data: Map<Seq<char>, Json>)
    ensures
        first_missing(names, data) is None <==> forall|i: int|
            0 <= i < names.len() ==> data.dom().contains(#[trigger] names[i]),
        first_missing(names, data) matches Some(name) ==> names.contains(name)
            && !data.dom().contains(name),
    decreases names.len(),
{
    if names.len() > 0 {
        let rest = names.drop_first();
        first_missing_is_none_iff_complete(rest, data);
        assert forall|i: int| 0 <= i < rest.len() implies rest[i] == names[i + 1] by {}
        if data.dom().contains(names[0]) {
            if first_missing(names, data) is None {
                assert forall|i: int| 0 <= i < names.len() implies data.dom().contains(
                    #[trigger] names[i],
                ) by {
                    if i > 0 {
                        assert(rest[i - 1] == names[i]);
                    }
                }
            } else {
                let name = first_missing(rest, data)->Some_0;
                let k = choose|k: int| 0 <= k < rest.len() && rest[k] == name;
                assert(names[k + 1] == name);
            }
        } else {
            assert(names[0] == first_missing(names, data)->Some_0);
        }
    }
}

/// A manifest record has every field that the template refers to: checking
/// it for missing fields finds none.
pub proof fn record_has_every_field(record: ManifestRecordView)
    ensures
        first_missing(required_fields(), fields_of(record)) is None,
        render_data_of(fields_of(record)) == manifest_text_of(
            rendered(MANIFEST_TEMPLATE@, true, fields_of(record)),
        ),
{
    first_missing_is_none_iff_complete(required_fields(), fields_of(record));
}

/// Where the data lacks a field that the template refers to, rendering
/// fails with a template failure: no text comes back.
pub proof fn missing_field_fails_rendering(data: Map<Seq<char>, Json>, name: Seq<char>)
    requires
        required_fields().contains(name),
        !data.dom().contains(name),
    ensures
        render_data_of(data) is Err,
        render_data_of(data)->Err_0 is TemplateRender,
{
    first_missing_is_none_iff_complete(required_fields(), data);
    let i = choose|i: int| 0 <= i < required_fields().len() && required_fields()[i] == name;
    assert(!data.dom().contains(required_fields()[i]));
}

/// The names of the fields that the manifest template refers to.
pub fn required_field_names() -> (names: Vec<&'static str>)
    ensures
        names.deep_view() == required_fields(),
{
    let names: Vec<&'static str> = vec![
        "app_id",
        "app_name",
        "main_binary",
        "deb_package_name",
        "project_out_directory",
        "cargo_cache_dir",
        "yarn_cache_dir",
        "target_cache_dir",
        "workdir",
        "local_dir",
        "rel_app_dir",
        "rel_tauri_dir",
        "rel_project_out_directory",
        "binary",
        "skip_list",
        "use_node_cli",
        "tauri_cli_version",
    ];
    assert(names.deep_view() =~= required_fields());
    names
}

/// The first field that the template refers to and `data` lacks, if any.
pub fn missing_field(data: &serde_json::Map<String, serde_json::Value>) -> (missing: Option<
    &'static str,
>)
    ensures
        match missing {
            Some(name) => first_missing(required_fields(), json_entries(*data)) == Some(name@),
            None => first_missing(required_fields(), json_entries(*data)) is None,
        },
{
    let names = required_field_names();
    let ghost all = required_fields();
    let ghost entries = json_entries(*data);
    let mut i: usize = 0;
    assert(all.skip(0) =~= all);
    while i < names.len()
        invariant
            i <= names.len(),
            names.deep_view() == all,
            all == required_fields(),
            entries == json_entries(*data),
            first_missing(all, entries) == first_missing(all.skip(i as int), entries),
        decreases names.len() - i,
    {
        let name: &'static str = names[i];
        assert(all.skip(i as int)[0] == name@);
        assert(all.skip(i as int).drop_first() =~= all.skip(i as int + 1));
        let present = has_key(data, name);
        assert(first_missing(all.skip(i as int), entries) == if present {
            first_missing(all.skip(i as int + 1), entries)
        } else {
            Some(name@)
        });
        if !present {
            return Some(name);
        }
        i = i + 1;
    }
    assert(all.skip(i as int).len() == 0);
    None
}

/// Turns a rendering outcome into the manifest text, or into the template
/// failure that carries the engine's reason.
pub fn manifest_text(outcome: Result<String, String>) -> (result: Result<String, BundleError>)
    ensures
        text_result_view(result) == manifest_text_of(outcome_view(outcome)),
{
    match outcome {
        Ok(text) => Ok(text),
        Err(reason) => Err(BundleError::TemplateRender { reason }),
    }
}

/// Renders the manifest from `data`. The data is checked first: where a
/// field that the template refers to is missing, the failure names it and
/// the template engine is not called. Otherwise the template engine renders
/// in strict mode, and what it refuses is a template failure too. No text is
/// handed back unless rendering went through to the end.
pub fn render_data(data: &serde_json::Map<String, serde_json::Value>) -> (result: Result<
    String,
    BundleError,
>)
    ensures
        text_result_view(result) == render_data_of(json_entries(*data)),
{
    match missing_field(data) {
        Some(name) => Err(BundleError::TemplateRender { reason: concat2("missing field ", name) }),
        None => manifest_text(render_template(MANIFEST_TEMPLATE, true, data)),
    }
}

/// Renders the manifest of a record.
pub fn render_manifest(record: &ManifestRecord) -> (result: Result<String, BundleError>)
    ensures
        text_result_view(result) == manifest_text_of(
            rendered(MANIFEST_TEMPLATE@, true, fields_of(record@)),
        ),
{
    proof {
        record_has_every_field(record@);
    }
    let data = record.to_json();
    render_data(&data)
}

} // verus!
