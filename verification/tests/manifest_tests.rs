//! Tests for the workspace and package manifest rendering, the dependency
//! resolution, and the readme template.

use amble::plan::Plan;
use amble::root;

#[test]
fn root_test_fill_cargo() {
    // Every lookup failed, so every version is the bundled fallback.
    let fetched: Vec<Option<String>> = vec![None; 7];
    let deps = root::add_workspace_deps(&None, &fetched);
    let authors = vec!["refcell".to_string()];
    let contents = root::fill_cargo("example", "example workspace", &authors, "refcell", &deps);
    let expected_contents = r#"[workspace]
members = ["bin/*", "crates/*"]
resolver = "2"

[workspace.package]
name = "example"
description = "example workspace"
version = "0.1.0"
edition = "2021"
license = "MIT"
authors = ["refcell"]
repository = "https://github.com/refcell/example"
homepage = "https://github.com/refcell/example"
exclude = ["**/target", "benches/", "tests"]

[workspace.dependencies]
eyre = "0.6.8"
inquire = "0.6.2"
tracing = "0.1.39"
serde = "1.0.189"
serde_json = "1.0.107"
tracing-subscriber = "0.3.17"
clap = { version = "4.4.3", features = ["derive"] }

[profile.dev]
opt-level = 1
overflow-checks = false

[profile.bench]
debug = true
"#;
    assert_eq!(contents, expected_contents);
}

#[test]
fn test_write_cargo_bin() {
    let fetched: Vec<Option<String>> = vec![None; 7];
    let deps = amble::cargo::add_inline_deps(&None, &fetched);
    let authors = vec!["refcell".to_string()];
    let contents =
        amble::cargo::write_cargo_bin("example", "example binary", &authors, "refcell", &deps);
    let expected_contents = r#"[package]
name = "example"
description = "example binary"
version = "0.1.0"
edition = "2021"
license = "MIT"
authors = ["refcell"]
repository = "https://github.com/refcell/example"
homepage = "https://github.com/refcell/example"

[dependencies]
anyhow = "1.0"
inquire = "0.6.2"
tracing = "0.1.39"
serde = "1.0.189"
serde_json = "1.0.107"
tracing-subscriber = "0.3.17"
clap = { version = "4.4.3", features = ["derive"] }
"#;
    assert_eq!(contents, expected_contents);
}

#[test]
fn root_test_create() {
    let mut plan = Plan::new();
    let authors = vec!["refcell".to_string()];
    let deps = root::add_workspace_deps(&None, &vec![None; 7]);
    let manifest = root::create(
        &mut plan,
        "example",
        &Some("example workspace".to_string()),
        false,
        &authors,
        "refcell",
        &deps,
    );
    let paths: Vec<&str> = plan.tree.entries.iter().map(|e| e.path.as_str()).collect();
    assert_eq!(paths, vec!["README.md", "Cargo.toml"]);
    assert!(manifest.contains("description = \"example workspace\""));
}

#[test]
fn root_test_create_dry_run() {
    // The plan's preview lists the root artifacts; nothing is performed.
    let mut plan = Plan::new();
    let authors = vec!["refcell".to_string()];
    let deps = root::add_workspace_deps(&None, &vec![None; 7]);
    root::create(
        &mut plan,
        "example",
        &Some("example workspace".to_string()),
        false,
        &authors,
        "refcell",
        &deps,
    );
    assert_eq!(plan.tree.entries.len(), 2);
    assert_eq!(plan.actions.len(), 2);
}

#[test]
fn root_test_create_without_readme() {
    let mut plan = Plan::new();
    let authors = vec!["refcell".to_string()];
    let deps = root::add_workspace_deps(&None, &vec![None; 7]);
    root::create(&mut plan, "example", &None, true, &authors, "refcell", &deps);
    let paths: Vec<&str> = plan.tree.entries.iter().map(|e| e.path.as_str()).collect();
    assert_eq!(paths, vec!["Cargo.toml"]);
}

#[test]
fn test_add_workspace_deps_overrides_and_fetched() {
    let overrides = Some(vec!["alloy".to_string()]);
    let mut fetched: Vec<Option<String>> = vec![None; 8];
    fetched[0] = Some("0.6.12".to_string());
    fetched[7] = Some("0.3.1".to_string());
    let deps = root::add_workspace_deps(&overrides, &fetched);
    assert_eq!(deps.len(), 8);
    assert_eq!(deps[0], ("eyre".to_string(), "0.6.12".to_string()));
    assert_eq!(deps[1], ("inquire".to_string(), "0.6.2".to_string()));
    assert_eq!(deps[7], ("alloy".to_string(), "0.3.1".to_string()));
}

#[test]
fn test_default_dependencies() {
    let deps = root::default_dependencies();
    assert_eq!(deps.len(), 7);
    assert_eq!(deps[0], ("eyre".to_string(), "0.6.8".to_string()));
    assert_eq!(deps[6], ("clap".to_string(), "4.4.3".to_string()));
}

#[test]
fn test_format_template_readme() {
    // The bundled template names the three placeholders.
    let template = amble::root::template_readme();
    assert!(template.contains("{projectname}"));
    assert!(template.contains("{projectdescription}"));
    assert!(template.contains("{projectowner}"));
    let template_readme = root::format_template_readme("example", "example workspace", "refcell");
    assert!(template_readme.contains("example"));
    assert!(template_readme.contains("example workspace"));
    assert!(template_readme.contains("refcell"));
}

#[test]
fn root_test_remove_table_quotes() {
    let s = r#"[workspace.package]"#;
    let expected = r#"[workspace.package]"#;
    assert_eq!(root::remove_table_quotes(s.to_string()), expected);

    let s = r#"["workspace.package"]"#;
    let expected = r#"[workspace.package]"#;
    assert_eq!(root::remove_table_quotes(s.to_string()), expected);

    let s = r#"["refcell"]"#;
    let expected = r#"["refcell"]"#;
    assert_eq!(root::remove_table_quotes(s.to_string()), expected);

    let s = r#"["**/target", "benches/", "tests"]"#;
    let expected = r#"["**/target", "benches/", "tests"]"#;
    assert_eq!(root::remove_table_quotes(s.to_string()), expected);

    let s = r#"["workspace.package.inside"]"#;
    let expected = r#"[workspace.package.inside]"#;
    assert_eq!(root::remove_table_quotes(s.to_string()), expected);
}

#[test]
fn test_get_current_username_priority() {
    let authors = Some(vec!["override".to_string(), "other".to_string()]);
    assert_eq!(
        root::get_current_username(&authors, &Some("gituser".to_string()), "machine"),
        "override"
    );
    assert_eq!(
        root::get_current_username(&None, &Some("gituser".to_string()), "machine"),
        "gituser"
    );
    assert_eq!(root::get_current_username(&None, &None, "machine"), "machine");
}

#[test]
fn test_get_authors() {
    let authors = Some(vec!["a".to_string(), "b".to_string()]);
    assert_eq!(
        root::get_authors(&authors, &None, "machine"),
        vec!["a".to_string(), "b".to_string()]
    );
    assert_eq!(
        root::get_authors(&None, &Some("gituser".to_string()), "machine"),
        vec!["gituser".to_string()]
    );
    assert_eq!(root::get_authors(&None, &None, "machine"), vec!["machine".to_string()]);
}

#[test]
fn test_resolve_description_default() {
    assert_eq!(root::resolve_description(&None, "demo"), "demo workspace");
    assert_eq!(
        root::resolve_description(&Some("a tool".to_string()), "demo"),
        "a tool"
    );
}
