use mopro::error::{BuildError, ManifestIssue};
use mopro::manifest::{
    ensure_workspace_toml, parse_manifest, point_dependency_at, project_name, raw_project_name,
    replace_relative_path_with_absolute, to_underscored,
};

const TEMPLATE: &str = "[package]\nname = \"rust_lib_mopro\"\nversion = \"0.1.0\"\n\n[dependencies]\nflutter_rust_bridge = \"=2.9.0\"\nmy-circuits = { path = \"../..\" }\n";

fn dependency_path(text: &str, name: &str) -> Option<String> {
    let doc: toml::Value = text.parse().unwrap();
    doc.get("dependencies")?
        .get(name)?
        .get("path")?
        .as_str()
        .map(|s| s.to_string())
}

#[test]
fn workspace_is_appended_when_missing() {
    let out = ensure_workspace_toml("[package]\nname = \"x\"");
    assert_eq!(out, "[package]\nname = \"x\"\n\n[workspace]\n");
}

#[test]
fn workspace_declaration_twice_leaves_one() {
    let once = ensure_workspace_toml(TEMPLATE);
    let twice = ensure_workspace_toml(&once);
    assert_eq!(once, twice);
    assert_eq!(twice.matches("[workspace]").count(), 1);
}

#[test]
fn present_workspace_is_kept() {
    let text = "[workspace]\nmembers = []\n";
    assert_eq!(ensure_workspace_toml(text), text);
}

#[test]
fn dependency_path_becomes_absolute() {
    let out = replace_relative_path_with_absolute(TEMPLATE, "my-circuits", "/home/u/my-circuits")
        .unwrap();
    assert_eq!(
        dependency_path(&out, "my-circuits"),
        Some("/home/u/my-circuits".to_string())
    );
    assert_eq!(
        dependency_path(&out, "flutter_rust_bridge"),
        None
    );
}

#[test]
fn integration_without_workspace_gives_one_workspace_and_absolute_path() {
    let declared = ensure_workspace_toml(TEMPLATE);
    let out = replace_relative_path_with_absolute(&declared, "my-circuits", "/abs/project").unwrap();
    let doc: toml::Value = out.parse().unwrap();
    assert!(doc.get("workspace").is_some());
    let again = ensure_workspace_toml(&out);
    assert_eq!(again.matches("[workspace]").count(), 1);
    assert_eq!(dependency_path(&out, "my-circuits"), Some("/abs/project".to_string()));
    let deps = doc.get("dependencies").unwrap().as_table().unwrap();
    assert_eq!(deps.len(), 2);
}

#[test]
fn canonicalizing_twice_keeps_the_absolute_path() {
    let once = replace_relative_path_with_absolute(TEMPLATE, "my-circuits", "/abs/p").unwrap();
    let twice = replace_relative_path_with_absolute(&once, "my-circuits", "/abs/p").unwrap();
    assert_eq!(dependency_path(&twice, "my-circuits"), Some("/abs/p".to_string()));
}

#[test]
fn missing_dependency_entry_is_a_manifest_error() {
    assert_eq!(
        replace_relative_path_with_absolute(TEMPLATE, "other", "/abs").err(),
        Some(BuildError::Manifest(ManifestIssue::MissingEntry))
    );
    let mut doc = parse_manifest("[dependencies]\nother = \"1.0\"\n").unwrap();
    assert_eq!(
        point_dependency_at(&mut doc, "other", "/abs").err(),
        Some(BuildError::Manifest(ManifestIssue::MissingEntry))
    );
}

#[test]
fn unparsable_manifest_is_a_manifest_error() {
    assert_eq!(
        replace_relative_path_with_absolute("[dependencies\nx = ", "x", "/abs").err(),
        Some(BuildError::Manifest(ManifestIssue::Parse))
    );
}

#[test]
fn project_names_from_manifest() {
    let doc = parse_manifest("[package]\nname = \"my-circuits\"\n").unwrap();
    assert_eq!(raw_project_name(&doc).unwrap(), "my-circuits");
    assert_eq!(project_name(&doc).unwrap(), "my_circuits");
    let doc = parse_manifest("[package]\nname = \"pkg\"\n\n[lib]\nname = \"my-lib\"\n").unwrap();
    assert_eq!(raw_project_name(&doc).unwrap(), "pkg");
    assert_eq!(project_name(&doc).unwrap(), "my_lib");
    let doc = parse_manifest("[workspace]\n").unwrap();
    assert_eq!(
        project_name(&doc).err(),
        Some(BuildError::Manifest(ManifestIssue::MissingEntry))
    );
}

#[test]
fn dashes_become_underscores() {
    assert_eq!(to_underscored("a-b-c"), "a_b_c");
    assert_eq!(to_underscored(""), "");
}

#[test]
fn rewrite_keeps_other_sections() {
    let text = "[package]\nname = \"t\"\n\n[dependencies]\nserde = \"1\"\nmy-circuits = { path = \"..\", features = [\"x\"] }\n\n[workspace]\n";
    let out = replace_relative_path_with_absolute(text, "my-circuits", "/abs").unwrap();
    let doc: toml::Value = out.parse().unwrap();
    assert_eq!(doc.get("package").unwrap().get("name").unwrap().as_str(), Some("t"));
    assert!(doc.get("workspace").is_some());
    let deps = doc.get("dependencies").unwrap();
    assert_eq!(deps.get("serde").unwrap().as_str(), Some("1"));
    let entry = deps.get("my-circuits").unwrap();
    assert_eq!(entry.get("path").unwrap().as_str(), Some("/abs"));
    assert_eq!(entry.get("features").unwrap().as_array().unwrap().len(), 1);
}
