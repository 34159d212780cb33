//! Tests for the generation steps, through the plans they produce.

use amble::plan::{Action, Plan};
use amble::preview::NodeKind;

fn entry_paths(plan: &Plan) -> Vec<String> {
    plan.tree.entries.iter().map(|e| e.path.clone()).collect()
}

fn has_file(plan: &Plan, path: &str) -> bool {
    plan.tree.entries.iter().any(|e| e.path == path && e.kind == NodeKind::File)
}

fn has_dir(plan: &Plan, path: &str) -> bool {
    plan.tree.entries.iter().any(|e| e.path == path && e.kind == NodeKind::Dir)
}

fn written_contents(plan: &Plan, path: &str) -> Option<String> {
    for a in plan.actions.iter() {
        match a {
            Action::WriteFile { path: p, contents } if p == path => {
                return Some(contents.clone());
            }
            Action::FillFile { path: p, contents } if p == path => {
                return Some(contents.clone());
            }
            _ => {}
        }
    }
    None
}

#[test]
fn bins_test_create() {
    let mut plan = Plan::new();
    amble::bins::create(&mut plan, "example");

    assert!(has_dir(&plan, "bin"));
    assert!(has_dir(&plan, "bin/example"));
    assert!(has_dir(&plan, "bin/example/src"));
    assert!(has_file(&plan, "bin/example/src/main.rs"));
    assert!(has_file(&plan, "bin/example/Cargo.toml"));

    let expected_contents = "fn main() {\n    println!(\"Hello World!\");\n}\n";
    assert_eq!(
        written_contents(&plan, "bin/example/src/main.rs").unwrap(),
        expected_contents
    );
}

#[test]
fn bins_test_create_dry_run() {
    // A dry run performs no action of the plan; the preview alone names
    // what would be created, in creation order.
    let mut plan = Plan::new();
    amble::bins::create(&mut plan, "example");
    assert_eq!(
        entry_paths(&plan),
        vec![
            "bin".to_string(),
            "bin/example".to_string(),
            "bin/example/Cargo.toml".to_string(),
            "bin/example/src".to_string(),
            "bin/example/src/main.rs".to_string(),
        ]
    );
}

#[test]
fn libs_test_create() {
    let mut plan = Plan::new();
    amble::libs::create(&mut plan, "example");

    assert!(has_dir(&plan, "crates"));
    assert!(has_dir(&plan, "crates/example"));
    assert!(has_dir(&plan, "crates/example/src"));
    assert!(has_file(&plan, "crates/example/src/lib.rs"));
    assert!(has_file(&plan, "crates/example/Cargo.toml"));

    let lib_rs_contents = written_contents(&plan, "crates/example/src/lib.rs").unwrap();
    assert!(lib_rs_contents.len() > 0);
}

#[test]
fn libs_test_create_dry_run() {
    let mut plan = Plan::new();
    amble::libs::create(&mut plan, "example");
    assert_eq!(
        entry_paths(&plan),
        vec![
            "crates".to_string(),
            "crates/example".to_string(),
            "crates/example/Cargo.toml".to_string(),
            "crates/example/src".to_string(),
            "crates/example/src/lib.rs".to_string(),
        ]
    );
}

#[test]
fn bins_test_fill_cargo() {
    let contents = amble::bins::fill_cargo("example");
    let expected_contents = r#"[package]
name = "example"
description = "example cli binary"
version = { workspace = true }
edition = { workspace = true }
authors = { workspace = true }
license = { workspace = true }
repository = { workspace = true }
homepage = { workspace = true }

[dependencies]
common = { path = "../../crates/common" }
clap = { workspace = true }
anyhow = { workspace = true }
inquire = { workspace = true }
tracing = { workspace = true }
tracing-subscriber = { workspace = true }
"#;
    assert_eq!(contents, expected_contents);
}

#[test]
fn libs_test_fill_cargo() {
    let contents = amble::libs::fill_cargo("common");
    let expected_contents = r#"[package]
name = "common"
description = "common crate"
version = { workspace = true }
edition = { workspace = true }
authors = { workspace = true }
license = { workspace = true }
repository = { workspace = true }
homepage = { workspace = true }

[dependencies]
serde = { workspace = true }
serde_json = { workspace = true }
anyhow = { workspace = true }
tracing = { workspace = true }
"#;
    assert_eq!(contents, expected_contents);
}

#[test]
fn test_create_bin() {
    let mut plan = Plan::new();
    let authors = vec!["refcell".to_string()];
    let deps = vec![("anyhow".to_string(), "1.0".to_string())];
    amble::cargo::create_bin(
        &mut plan,
        "example",
        "example binary",
        false,
        &authors,
        "refcell",
        &deps,
    );

    assert!(has_file(&plan, "Cargo.toml"));
    assert!(has_dir(&plan, "src"));
    assert!(has_file(&plan, "src/main.rs"));
    let manifest = written_contents(&plan, "Cargo.toml").unwrap();
    assert!(manifest.contains("name = \"example\""));
    assert!(manifest.contains("description = \"example binary\""));
}

#[test]
fn test_create_lib() {
    let mut plan = Plan::new();
    let authors = vec!["refcell".to_string()];
    let deps: Vec<(String, String)> = Vec::new();
    amble::cargo::create_lib(&mut plan, "example", "a library", false, &authors, "refcell", &deps);

    assert!(has_file(&plan, "Cargo.toml"));
    assert!(has_dir(&plan, "src"));
    assert!(has_file(&plan, "src/lib.rs"));
}

#[test]
fn test_package_description_defaults() {
    assert_eq!(
        amble::cargo::resolve_package_description(&None),
        "A new binary crate"
    );
    assert_eq!(amble::cargo::resolve_lib_description(&None), "A new library crate");
    assert_eq!(
        amble::cargo::resolve_lib_description(&Some("a parsing library".to_string())),
        "a parsing library"
    );
}

#[test]
fn test_create_bin_bare_leaves_manifest_unfilled() {
    let mut plan = Plan::new();
    let authors: Vec<String> = Vec::new();
    let deps: Vec<(String, String)> = Vec::new();
    amble::cargo::create_bin(&mut plan, "example", "x", true, &authors, "me", &deps);
    assert!(written_contents(&plan, "Cargo.toml").is_none());
    assert!(has_file(&plan, "Cargo.toml"));
}

#[test]
fn test_write_github_workflows() {
    let mut plan = Plan::new();
    amble::ci::write_github_workflows(&mut plan);
    let names = [
        "ci.yml",
        "audit.yml",
        "github-release.yml",
        "manual-tag.yml",
        "release.yml",
        "tag.yml",
        "validate-version.yml",
    ];
    let contents = [
        amble::ci::ci_yml(),
        amble::ci::audit_yml(),
        amble::ci::github_release_yml(),
        amble::ci::manual_tag_yml(),
        amble::ci::release_yml(),
        amble::ci::tag_yml(),
        amble::ci::validate_version_yml(),
    ];
    for (name, expected) in names.iter().zip(contents.iter()) {
        assert!(has_file(&plan, name));
        assert_eq!(written_contents(&plan, name).unwrap(), *expected);
    }
}

#[test]
fn ci_test_create() {
    let mut plan = Plan::new();
    amble::ci::create(&mut plan, None);
    assert!(has_dir(&plan, ".github"));
    assert!(has_dir(&plan, ".github/workflows"));
    assert!(has_file(&plan, ".github/workflows/ci.yml"));
    assert_eq!(
        written_contents(&plan, ".github/workflows/ci.yml").unwrap(),
        amble::ci::ci_yml()
    );
}

#[test]
fn ci_test_create_with_supplied_workflow() {
    let mut plan = Plan::new();
    amble::ci::create(&mut plan, Some("my-ci.yml".to_string()));
    assert!(has_file(&plan, ".github/workflows/ci.yml"));
    let copied = plan.actions.iter().any(|a| {
        matches!(a, Action::CopyFile { from, to }
            if from == "my-ci.yml" && to == ".github/workflows/ci.yml")
    });
    assert!(copied);
}

#[test]
fn test_create_etc() {
    let mut plan = Plan::new();
    amble::etc::create(&mut plan, false);
    assert!(has_dir(&plan, "etc"));
    assert_eq!(plan.tree.entries.len(), 1);
}

#[test]
fn test_create_etc_with_assets() {
    let mut plan = Plan::new();
    amble::etc::create(&mut plan, true);
    assert!(has_dir(&plan, "etc"));
    assert!(has_file(&plan, "etc/banner.png"));
    assert!(has_file(&plan, "etc/logo.png"));
    assert!(has_file(&plan, "etc/favicon.ico"));
}

#[test]
fn test_create_gitignore() {
    let mut plan = Plan::new();
    amble::gitignore::create_default(&mut plan);
    assert!(has_file(&plan, ".gitignore"));
    match plan.actions.last().unwrap() {
        Action::AppendFile { path, contents } => {
            assert_eq!(path, ".gitignore");
            assert!(contents.len() > 0);
        }
        other => panic!("unexpected action {:?}", other),
    }
}

#[test]
fn gitignore_test_create_gitignore() {
    // The gitignore step appends the fixed bundled template: planning it
    // twice appends the same text twice, so the accumulated content length
    // is exactly twice the length of a single run's content.
    let mut plan = Plan::new();
    amble::gitignore::create_default(&mut plan);
    amble::gitignore::create_default(&mut plan);

    let appended: Vec<&String> = plan
        .actions
        .iter()
        .filter_map(|a| match a {
            Action::AppendFile { path, contents } if path == ".gitignore" => Some(contents),
            _ => None,
        })
        .collect();
    assert_eq!(appended.len(), 2);
    assert_eq!(appended[0], appended[1]);
    assert_eq!(*appended[0], amble::gitignore::default_contents());
    let first_content_length = appended[0].len();
    let second_content_length = appended[0].len() + appended[1].len();
    assert_eq!(second_content_length, 2 * first_content_length);
}
