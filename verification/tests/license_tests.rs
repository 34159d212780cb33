//! Tests for license templating and the version-lookup output parser.

use amble::license;
use amble::root;

#[test]
fn test_impute_license() {
    let haystack = r#"MIT License <year> <fullname>"#;
    let license_text = haystack
        .replacen("<year>", "2024", 1)
        .replacen("<fullname>", "refcell", 1);
    assert_eq!(license_text, license::impute_license(haystack, "2024", "refcell"));
}

#[test]
fn test_impute_license_brackets_and_case() {
    assert_eq!(
        license::impute_license("[Year] x [FULLNAME]", "1999", "me"),
        "1999 x me"
    );
    assert_eq!(license::impute_license("no placeholders", "1999", "me"), "no placeholders");
}

#[test]
fn test_build_mit_license() {
    let text = license::build_mit_license("2024", "refcell");
    assert!(text.starts_with("MIT License"));
    assert!(text.contains("Copyright (c) 2024 refcell"));
    assert!(!text.contains("[year]"));
    assert!(!text.contains("[fullname]"));
}

#[test]
fn test_create_license() {
    let mut plan = amble::plan::Plan::new();
    let text = license::build_mit_license("2024", "refcell");
    license::create(&mut plan, text.clone());
    assert_eq!(plan.tree.entries.len(), 1);
    assert_eq!(plan.tree.entries[0].path, "LICENSE");
    match &plan.actions[0] {
        amble::plan::Action::WriteFile { path, contents } => {
            assert_eq!(path, "LICENSE");
            assert_eq!(*contents, text);
        }
        other => panic!("unexpected action {:?}", other),
    }
}

#[test]
fn test_finalize_fetched_license() {
    let fetched = "Copyright <year> <copyright holders>.";
    assert_eq!(
        license::finalize_fetched_license(fetched, "2024", "refcell"),
        "Copyright 2024 refcell."
    );
}

#[test]
fn test_resolve_license_fallbacks() {
    let fetched = Some("MIT <year> <copyright holders>".to_string());
    let resolved = license::resolve_license(fetched, "2024", "refcell", false).unwrap();
    assert_eq!(resolved, "MIT 2024 refcell");

    let mit = license::resolve_license(None, "2024", "refcell", true).unwrap();
    assert_eq!(mit, license::build_mit_license("2024", "refcell"));

    assert!(license::resolve_license(None, "2024", "refcell", false).is_none());
}

#[test]
fn test_parse_fetched_version() {
    let output = "exy = \"0.1.0\"    # not it\neyre = \"0.6.8\"    # a report crate\n";
    assert_eq!(
        root::parse_fetched_version(output, "eyre"),
        Some("0.6.8".to_string())
    );
    assert_eq!(root::parse_fetched_version(output, "anyhow"), None);
}

#[test]
fn test_parse_fetched_version_edge_cases() {
    // The match must start a line.
    assert_eq!(root::parse_fetched_version("xeyre = \"1.0\"\n", "eyre"), None);
    // A line without an opening quote yields nothing.
    assert_eq!(root::parse_fetched_version("eyre = 1.0\n", "eyre"), None);
    // A missing closing quote captures to the end of the line.
    assert_eq!(
        root::parse_fetched_version("eyre = \"0.6", "eyre"),
        Some("0.6".to_string())
    );
}

#[test]
fn test_build_repository_url() {
    assert_eq!(
        amble::git::build_repository_url("refcell", "example"),
        "https://github.com/refcell/example"
    );
}

#[test]
fn test_build_git_remote_target() {
    assert_eq!(
        amble::git::build_git_remote_target("refcell", "example"),
        "https://github.com/refcell/example.git"
    );
}

#[test]
fn test_lib_contents() {
    let result = amble::libs::lib_contents();
    assert!(result.contains("pub fn add"));
    assert!(result.len() > 0);
}
