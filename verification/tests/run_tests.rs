//! End-to-end tests of the run orchestrator: its prompts, the conflict
//! detector, and the full plans of whole configurations.

use amble::cli::{build_plan, plan_run, PlanInputs, RunOutcome};
use amble::config::{Config, PipelineType};
use amble::plan::Action;
use amble::preview::NodeKind;
use amble::utils::{
    first_conflict, gate, required_prompt, ArtifactKind, ArtifactsFound, PromptKind, RunGate,
};

fn no_artifacts() -> ArtifactsFound {
    ArtifactsFound { manifest: false, license: false, readme: false, ci_workflow: false }
}

fn inputs(license: Option<&str>, deps: usize) -> PlanInputs {
    PlanInputs {
        git_username: None,
        machine_username: "refcell".to_string(),
        license_content: license.map(|s| s.to_string()),
        gitignore_text: "target\n".to_string(),
        dep_versions: vec![None; deps],
    }
}

#[test]
fn test_conflict_priority_order() {
    let all = ArtifactsFound { manifest: true, license: true, readme: true, ci_workflow: true };
    assert_eq!(first_conflict(&all, true), Some(ArtifactKind::Manifest));
    let no_manifest = ArtifactsFound { manifest: false, ..all };
    assert_eq!(first_conflict(&no_manifest, true), Some(ArtifactKind::License));
    let readme_ci = ArtifactsFound { manifest: false, license: false, ..all };
    assert_eq!(first_conflict(&readme_ci, true), Some(ArtifactKind::Readme));
    let ci_only = ArtifactsFound { manifest: false, license: false, readme: false, ci_workflow: true };
    assert_eq!(first_conflict(&ci_only, true), Some(ArtifactKind::CiWorkflow));
    assert_eq!(first_conflict(&ci_only, false), None);
    assert_eq!(first_conflict(&no_artifacts(), true), None);
}

#[test]
fn test_dry_run_never_prompts_for_conflicts() {
    let all = ArtifactsFound { manifest: true, license: true, readme: true, ci_workflow: true };
    assert_eq!(required_prompt(false, true, true, &all), None);
    assert_eq!(
        required_prompt(false, false, true, &all),
        Some(PromptKind::Conflict(ArtifactKind::Manifest))
    );
    assert_eq!(
        required_prompt(true, true, true, &all),
        Some(PromptKind::OverwriteWarning)
    );
}

#[test]
fn test_gate_outcomes() {
    assert_eq!(gate(None, false), RunGate::Proceed);
    assert_eq!(gate(Some(PromptKind::OverwriteWarning), true), RunGate::Proceed);
    assert_eq!(gate(Some(PromptKind::OverwriteWarning), false), RunGate::AbortClean);
    assert_eq!(
        gate(Some(PromptKind::Conflict(ArtifactKind::Manifest)), false),
        RunGate::AbortConflict(ArtifactKind::Manifest)
    );
    assert_eq!(
        gate(Some(PromptKind::Conflict(ArtifactKind::Manifest)), true),
        RunGate::Proceed
    );
}

#[test]
fn test_conflict_abort_plans_nothing() {
    // A pre-existing manifest, a real run, no overwrite, and a declined
    // confirmation: the run aborts as a conflict and plans zero entries.
    let mut cfg = Config::default();
    cfg.root_opts.name = "demo".to_string();
    cfg.global_opts.dry_run = false;
    cfg.global_opts.overwrite = false;
    let found = ArtifactsFound { manifest: true, ..no_artifacts() };
    let outcome = plan_run(&cfg, &found, false, &inputs(None, 7));
    assert_eq!(outcome, RunOutcome::ConflictDetected(ArtifactKind::Manifest));
}

#[test]
fn test_overwrite_declined_aborts_cleanly() {
    let mut cfg = Config::default();
    cfg.global_opts.overwrite = true;
    let outcome = plan_run(&cfg, &no_artifacts(), false, &inputs(None, 7));
    assert_eq!(outcome, RunOutcome::AbortedByUser);
}

#[test]
fn test_list_mode_plans_nothing() {
    let mut cfg = Config::default();
    cfg.ptype = PipelineType::List;
    let outcome = plan_run(&cfg, &no_artifacts(), true, &inputs(None, 0));
    assert_eq!(outcome, RunOutcome::ListDependencies);
}

#[test]
fn test_workspace_end_to_end() {
    // Configuration: name "demo", workspace mode, license and gitignore on.
    let mut cfg = Config::default();
    cfg.root_opts.name = "demo".to_string();
    cfg.root_opts.license = true;
    cfg.root_opts.gitignore = true;
    let ins = inputs(Some("MIT 2024 refcell"), 7);
    let plan = build_plan(&cfg, &ins);

    let paths: Vec<&str> = plan.tree.entries.iter().map(|e| e.path.as_str()).collect();
    assert_eq!(
        paths,
        vec![
            "LICENSE",
            ".gitignore",
            "README.md",
            "Cargo.toml",
            "bin",
            "bin/demo",
            "bin/demo/Cargo.toml",
            "bin/demo/src",
            "bin/demo/src/main.rs",
            "crates",
            "crates/common",
            "crates/common/Cargo.toml",
            "crates/common/src",
            "crates/common/src/lib.rs",
        ]
    );

    // The actions create exactly the previewed paths, plus the target
    // directory itself.
    let mut action_paths: Vec<String> = Vec::new();
    for a in plan.actions.iter() {
        match a {
            Action::MkDir { path } => action_paths.push(path.clone()),
            Action::WriteFile { path, .. } => action_paths.push(path.clone()),
            Action::AppendFile { path, .. } => action_paths.push(path.clone()),
            other => panic!("unexpected action {:?}", other),
        }
    }
    let mut expected: Vec<String> = vec![String::new()];
    expected.extend(paths.iter().map(|p| p.to_string()));
    assert_eq!(action_paths, expected);
}

#[test]
fn test_bare_bin_dry_run_end_to_end() {
    // Configuration: bin mode, bare, dry run: the preview holds only the
    // manifest placeholder and the src entrypoint placeholder, and the plan
    // writes no file contents at all.
    let mut cfg = Config::default();
    cfg.ptype = PipelineType::Bin { bare: true };
    cfg.global_opts.dry_run = true;
    let ins = inputs(None, 7);
    let outcome = plan_run(&cfg, &no_artifacts(), true, &ins);
    let plan = match outcome {
        RunOutcome::Planned(p) => p,
        other => panic!("unexpected outcome {:?}", other),
    };

    let rows: Vec<(usize, &str, NodeKind)> =
        plan.tree.rows.iter().map(|r| (r.depth, r.name.as_str(), r.kind)).collect();
    assert_eq!(
        rows,
        vec![
            (0, "Cargo.toml", NodeKind::File),
            (0, "src", NodeKind::Dir),
            (1, "main.rs", NodeKind::File),
        ]
    );

    for a in plan.actions.iter() {
        match a {
            Action::MkDir { .. } | Action::InitBinCrate { .. } => {}
            other => panic!("a bare dry-run plan writes nothing, got {:?}", other),
        }
    }
}

#[test]
fn test_bin_mode_never_plans_workspace_crates() {
    let mut cfg = Config::default();
    cfg.root_opts.name = "demo".to_string();
    cfg.ptype = PipelineType::Bin { bare: false };
    cfg.root_opts.license = true;
    let plan = build_plan(&cfg, &inputs(Some("L"), 7));
    for e in plan.tree.entries.iter() {
        assert_ne!(e.path, "crates/common");
        assert_ne!(e.path, "bin/demo");
    }
}

#[test]
fn test_lib_mode_never_plans_workspace_bin() {
    let mut cfg = Config::default();
    cfg.root_opts.name = "demo".to_string();
    cfg.ptype = PipelineType::Lib { bare: false };
    let plan = build_plan(&cfg, &inputs(None, 7));
    for e in plan.tree.entries.iter() {
        assert_ne!(e.path, "bin/demo");
        assert_ne!(e.path, "crates/common");
    }
    let paths: Vec<&str> = plan.tree.entries.iter().map(|e| e.path.as_str()).collect();
    assert_eq!(paths, vec!["Cargo.toml", "src", "src/lib.rs"]);
}

#[test]
fn test_lib_mode_default_description() {
    let mut cfg = Config::default();
    cfg.ptype = PipelineType::Lib { bare: false };
    let plan = build_plan(&cfg, &inputs(None, 7));
    let manifest = plan
        .actions
        .iter()
        .find_map(|a| match a {
            Action::FillFile { path, contents } if path == "Cargo.toml" => Some(contents.clone()),
            _ => None,
        })
        .unwrap();
    assert!(manifest.contains("description = \"A new library crate\""));
}

#[test]
fn test_full_flag_enables_optional_steps() {
    let mut cfg = Config::default();
    cfg.root_opts.name = "demo".to_string();
    cfg.global_opts.full = true;
    let ins = inputs(Some("L"), 7);
    let plan = build_plan(&cfg, &ins);
    let paths: Vec<&str> = plan.tree.entries.iter().map(|e| e.path.as_str()).collect();
    assert!(paths.contains(&"LICENSE"));
    assert!(paths.contains(&".gitignore"));
    assert!(paths.contains(&"etc"));
    assert!(paths.contains(&"etc/banner.png"));
    assert!(paths.contains(&".github/workflows/ci.yml"));
    assert!(paths.contains(&".github/workflows/release.yml"));
}

#[test]
fn test_license_skipped_when_declined() {
    // A failed fetch and a declined MIT fallback leave the license step out
    // entirely, and the rest of the run is unaffected.
    let mut cfg = Config::default();
    cfg.root_opts.name = "demo".to_string();
    cfg.root_opts.license = true;
    let plan = build_plan(&cfg, &inputs(None, 7));
    let paths: Vec<&str> = plan.tree.entries.iter().map(|e| e.path.as_str()).collect();
    assert!(!paths.contains(&"LICENSE"));
    assert!(paths.contains(&"Cargo.toml"));
}

#[test]
fn test_render_preview() {
    let mut cfg = Config::default();
    cfg.ptype = PipelineType::Bin { bare: true };
    let plan = build_plan(&cfg, &inputs(None, 7));
    let lines = plan.tree.render();
    assert_eq!(lines, vec!["Cargo.toml", "src", "  main.rs"]);
}

#[test]
fn test_args_into_config() {
    let args = amble::cli::Args {
        v: 2,
        dry_run: true,
        overwrite: false,
        name: "demo".to_string(),
        with_ci: true,
        ci_yml: None,
        authors: None,
        bin: true,
        lib: false,
        license: Some("apache-2.0".to_string()),
        project_dir: ".".to_string(),
    };
    let cfg = args.into_config();
    assert_eq!(cfg.root_opts.name, "demo");
    assert!(cfg.global_opts.dry_run);
    assert!(cfg.ci_opts.with_ci);
    assert!(cfg.root_opts.license);
    assert_eq!(cfg.root_opts.with_license.as_deref(), Some("apache-2.0"));
    assert_eq!(cfg.ptype, PipelineType::Bin { bare: false });
    assert!(cfg.validate());
}

#[test]
fn test_validate_rejects_empty_name() {
    let mut cfg = Config::default();
    cfg.root_opts.name = String::new();
    assert!(!cfg.validate());
    cfg.root_opts.name = "x".to_string();
    assert!(cfg.validate());
    cfg.root_opts.authors = Some(Vec::new());
    assert!(!cfg.validate());
}
