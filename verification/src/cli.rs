//! The command line surface and the run orchestrator.
//!
//! [`Args`] is the flat command line record.  [`plan_run`] is the whole
//! decision core of a run: given the configuration, the artifacts found in
//! the target directory, the user's answer to the single gate prompt, and
//! the values that outside capabilities supplied (user names, fetched
//! license text, fetched dependency versions, the gitignore template), it
//! either aborts without planning anything or produces the full generation
//! [`Plan`].  The caller performs the plan's actions — in dry-run mode it
//! performs none and renders the preview instead.

use vstd::prelude::*;
use crate::bins;
use crate::cargo;
use crate::ci;
use crate::config::{Config, PipelineType};
use crate::etc;
use crate::gitignore;
use crate::license;
use crate::libs;
use crate::plan::{ActionV, Plan, actions_view, actions_entries, init_crate_entries};
use crate::preview::{NodeKind, entries_view};
use crate::root;
use crate::utils::{ArtifactKind, ArtifactsFound, RunGate, gate, required_prompt, spec_gate, spec_required_prompt};

verus! {

/// Command line arguments.
#[derive(Debug, Clone, PartialEq)]
pub struct Args {
    /// Verbosity level (0-4).
    pub v: u8,
    /// Dry run mode: print the directories and files that would be created
    /// instead of creating them.
    pub dry_run: bool,
    /// Overwrite existing files after a single warning prompt.
    pub overwrite: bool,
    /// The project name.
    pub name: String,
    /// Add the bundled github actions workflows.
    pub with_ci: bool,
    /// Copy this workflow file into the project's workflow directory.
    pub ci_yml: Option<String>,
    /// Override the project authors.
    pub authors: Option<Vec<String>>,
    /// Build a cargo binary project.
    pub bin: bool,
    /// Build a cargo library project.
    pub lib: bool,
    /// License override: an SPDX license identifier.
    pub license: Option<String>,
    /// The path to the project directory.
    pub project_dir: String,
}

impl Args {
    /// The project kind the flat flags select: a binary project when `bin`
    /// is set, else a library project when `lib` is set, else a workspace.
    pub open spec fn spec_ptype(&self) -> PipelineType {
        if self.bin {
            PipelineType::Bin { bare: false }
        } else if self.lib {
            PipelineType::Lib { bare: false }
        } else {
            PipelineType::Workspace
        }
    }

    /// Expands the flat command line surface into a full configuration.
    /// The flat surface always generates a license, and has no switches for
    /// the gitignore, etc and assets steps.
    pub fn into_config(self) -> (c: Config)
        ensures
            c.global_opts.verbosity == self.v,
            c.global_opts.dry_run == self.dry_run,
            c.global_opts.overwrite == self.overwrite,
            !c.global_opts.full,
            c.ci_opts.with_ci == self.with_ci,
            c.ci_opts.ci_yml == self.ci_yml,
            !c.misc_opts.etc,
            !c.misc_opts.assets,
            c.root_opts.directory == self.project_dir,
            c.root_opts.name == self.name,
            c.root_opts.description is None,
            c.root_opts.authors == self.authors,
            !c.root_opts.gitignore,
            c.root_opts.license,
            c.root_opts.with_license == self.license,
            c.root_opts.dependencies is None,
            !c.root_opts.without_readme,
            c.ptype == self.spec_ptype(),
    {
        let ptype = if self.bin {
            PipelineType::Bin { bare: false }
        } else if self.lib {
            PipelineType::Lib { bare: false }
        } else {
            PipelineType::Workspace
        };
        Config {
            global_opts: crate::config::GlobalOpts {
                verbosity: self.v,
                full: false,
                dry_run: self.dry_run,
                overwrite: self.overwrite,
            },
            ci_opts: crate::config::CIOpts { with_ci: self.with_ci, ci_yml: self.ci_yml },
            misc_opts: crate::config::MiscOpts { etc: false, assets: false },
            root_opts: crate::config::RootOpts {
                directory: self.project_dir,
                name: self.name,
                description: None,
                authors: self.authors,
                gitignore: false,
                license: true,
                with_license: self.license,
                dependencies: None,
                without_readme: false,
            },
            ptype,
        }
    }
}

/// The values that outside capabilities supply to a run before planning:
/// the version control and machine user names, the resolved license text
/// (none when the step is to be skipped), the gitignore template, and the
/// fetched dependency versions, aligned with the run's dependency list.
#[derive(Debug, Clone, PartialEq)]
pub struct PlanInputs {
    /// The version control user name, when one could be read.
    pub git_username: Option<String>,
    /// The machine user name.
    pub machine_username: String,
    /// The resolved license text, when the license step is to write one.
    pub license_content: Option<String>,
    /// The gitignore template.
    pub gitignore_text: String,
    /// The fetched dependency versions, one per dependency of the run.
    pub dep_versions: Vec<Option<String>>,
}

/// How many fetched dependency versions a run needs: one per entry of its
/// mode's dependency list.
pub open spec fn deps_needed(cfg: Config) -> int {
    match cfg.ptype {
        PipelineType::Workspace => root::combined_deps_spec(cfg.root_opts.dependencies).len() as int,
        PipelineType::Bin { .. } => cargo::combined_package_deps_spec(
            cfg.root_opts.dependencies,
        ).len() as int,
        PipelineType::Lib { .. } => cargo::combined_package_deps_spec(
            cfg.root_opts.dependencies,
        ).len() as int,
        PipelineType::List => 0,
    }
}

/// The entries of the license step of a run.
pub open spec fn license_planned_entries(cfg: Config, has_license: bool) -> Seq<
    (Seq<char>, NodeKind),
> {
    if cfg.wants_license() && has_license {
        seq![("LICENSE"@, NodeKind::File)]
    } else {
        Seq::<(Seq<char>, NodeKind)>::empty()
    }
}

/// The entries of the gitignore step of a run.
pub open spec fn gitignore_planned_entries(cfg: Config) -> Seq<(Seq<char>, NodeKind)> {
    if cfg.wants_gitignore() {
        seq![(".gitignore"@, NodeKind::File)]
    } else {
        Seq::<(Seq<char>, NodeKind)>::empty()
    }
}

/// The entries of the etc step of a run.
pub open spec fn etc_planned_entries(cfg: Config) -> Seq<(Seq<char>, NodeKind)> {
    if cfg.wants_etc() {
        etc::etc_entries(cfg.wants_assets())
    } else {
        Seq::<(Seq<char>, NodeKind)>::empty()
    }
}

/// The entries of the project structure step of a run: the workspace's
/// readme, manifest and sub-crates in workspace mode, or the initialized
/// single crate in bin-only and lib-only mode.
pub open spec fn structure_planned_entries(cfg: Config) -> Seq<(Seq<char>, NodeKind)> {
    match cfg.ptype {
        PipelineType::List => Seq::<(Seq<char>, NodeKind)>::empty(),
        PipelineType::Workspace => root::root_entries(cfg.root_opts.without_readme)
            + bins::bins_entries(cfg.root_opts.name@) + libs::libs_entries("common"@),
        PipelineType::Bin { .. } => init_crate_entries(Seq::<char>::empty(), "src/main.rs"@),
        PipelineType::Lib { .. } => init_crate_entries(Seq::<char>::empty(), "src/lib.rs"@),
    }
}

/// The entries of the CI step of a run.
pub open spec fn ci_planned_entries(cfg: Config) -> Seq<(Seq<char>, NodeKind)> {
    if cfg.wants_ci() {
        ci::ci_entries(cfg.ci_opts.ci_yml is Some)
    } else {
        Seq::<(Seq<char>, NodeKind)>::empty()
    }
}

/// Every directory and file a run creates, in creation order, relative to
/// the target directory: what a real run produces on disk, and exactly what
/// a dry run lists in its preview.
pub open spec fn planned_entries(cfg: Config, has_license: bool) -> Seq<(Seq<char>, NodeKind)> {
    license_planned_entries(cfg, has_license) + gitignore_planned_entries(cfg)
        + etc_planned_entries(cfg) + structure_planned_entries(cfg) + ci_planned_entries(cfg)
}

/// The actions of the license step of a run.
pub open spec fn license_planned_actions(cfg: Config, ins: PlanInputs) -> Seq<ActionV> {
    if cfg.wants_license() {
        match ins.license_content {
            Some(c) => license::license_actions(c@),
            None => Seq::<ActionV>::empty(),
        }
    } else {
        Seq::<ActionV>::empty()
    }
}

/// The actions of the gitignore step of a run.
pub open spec fn gitignore_planned_actions(cfg: Config, ins: PlanInputs) -> Seq<ActionV> {
    if cfg.wants_gitignore() {
        gitignore::gitignore_actions(ins.gitignore_text@)
    } else {
        Seq::<ActionV>::empty()
    }
}

/// The actions of the etc step of a run.
pub open spec fn etc_planned_actions(cfg: Config) -> Seq<ActionV> {
    if cfg.wants_etc() {
        etc::etc_actions(cfg.wants_assets())
    } else {
        Seq::<ActionV>::empty()
    }
}

/// The actions of the project structure step of a run.
pub open spec fn structure_planned_actions(cfg: Config, ins: PlanInputs) -> Seq<ActionV> {
    let name = cfg.root_opts.name@;
    let user = root::spec_username(
        cfg.root_opts.authors,
        root::opt_view(ins.git_username),
        ins.machine_username@,
    );
    let authors = root::spec_authors(
        cfg.root_opts.authors,
        root::opt_view(ins.git_username),
        ins.machine_username@,
    );
    match cfg.ptype {
        PipelineType::List => Seq::<ActionV>::empty(),
        PipelineType::Workspace => {
            let desc = root::description_of(cfg.root_opts.description, name);
            let deps = root::resolved_deps_spec(
                root::combined_deps_spec(cfg.root_opts.dependencies),
                ins.dep_versions@,
            );
            root::root_actions(
                if cfg.root_opts.without_readme {
                    None
                } else {
                    Some(root::readme_text(name, desc, user))
                },
                root::workspace_manifest(name, desc, authors, user, deps),
            ) + bins::bins_actions(name) + libs::libs_actions("common"@)
        },
        PipelineType::Bin { bare } => {
            let desc = cargo::package_description_of(cfg.root_opts.description);
            let deps = root::resolved_deps_spec(
                cargo::combined_package_deps_spec(cfg.root_opts.dependencies),
                ins.dep_versions@,
            );
            cargo::bin_mode_actions(
                if bare {
                    None
                } else {
                    Some(cargo::package_manifest(name, desc, authors, user, deps))
                },
            )
        },
        PipelineType::Lib { bare } => {
            let desc = cargo::lib_description_of(cfg.root_opts.description);
            let deps = root::resolved_deps_spec(
                cargo::combined_package_deps_spec(cfg.root_opts.dependencies),
                ins.dep_versions@,
            );
            cargo::lib_mode_actions(
                if bare {
                    None
                } else {
                    Some(cargo::package_manifest(name, desc, authors, user, deps))
                },
            )
        },
    }
}

/// The actions of the CI step of a run.
pub open spec fn ci_planned_actions(cfg: Config) -> Seq<ActionV> {
    if cfg.wants_ci() {
        ci::ci_actions(root::opt_view(cfg.ci_opts.ci_yml))
    } else {
        Seq::<ActionV>::empty()
    }
}

/// Every action of a run, in execution order: the target directory first,
/// then the enabled steps in their fixed order — license, gitignore, etc,
/// project structure, CI.
pub open spec fn planned_actions(cfg: Config, ins: PlanInputs) -> Seq<ActionV> {
    seq![ActionV::MkDir { path: Seq::<char>::empty() }] + license_planned_actions(cfg, ins)
        + gitignore_planned_actions(cfg, ins) + etc_planned_actions(cfg)
        + structure_planned_actions(cfg, ins) + ci_planned_actions(cfg)
}

/// Plans the steps that run before the project structure: the license,
/// gitignore and etc steps, each only when requested.
fn plan_gate_steps(plan: &mut Plan, cfg: &Config, ins: &PlanInputs)
    requires
        old(plan).tree.balanced(),
    ensures
        actions_view(final(plan).actions@) =~= actions_view(old(plan).actions@)
            + license_planned_actions(*cfg, *ins) + gitignore_planned_actions(*cfg, *ins)
            + etc_planned_actions(*cfg),
        entries_view(final(plan).tree.entries@) =~= entries_view(old(plan).tree.entries@)
            + license_planned_entries(*cfg, ins.license_content is Some)
            + gitignore_planned_entries(*cfg) + etc_planned_entries(*cfg),
        final(plan).tree.balanced(),
        old(plan).mirrors() ==> final(plan).mirrors(),
{
    let wants_license = cfg.root_opts.license || cfg.root_opts.with_license.is_some()
        || cfg.global_opts.full;
    if wants_license {
        match &ins.license_content {
            Some(c) => license::create(plan, c.clone()),
            None => {},
        }
    }

    let wants_gitignore = cfg.root_opts.gitignore || cfg.global_opts.full;
    if wants_gitignore {
        gitignore::create(plan, ins.gitignore_text.clone());
    }

    let wants_etc = cfg.misc_opts.etc || cfg.global_opts.full;
    let wants_assets = cfg.misc_opts.assets || cfg.global_opts.full;
    if wants_etc {
        etc::create(plan, wants_assets);
    }
}

/// Plans the project structure step: the workspace's root artifacts and
/// sub-crates in workspace mode, or the initialized single crate.
fn plan_structure(plan: &mut Plan, cfg: &Config, ins: &PlanInputs)
    requires
        old(plan).tree.balanced(),
        cfg.valid(),
        ins.dep_versions@.len() == deps_needed(*cfg),
    ensures
        actions_view(final(plan).actions@) =~= actions_view(old(plan).actions@)
            + structure_planned_actions(*cfg, *ins),
        entries_view(final(plan).tree.entries@) =~= entries_view(old(plan).tree.entries@)
            + structure_planned_entries(*cfg),
        final(plan).tree.balanced(),
        old(plan).mirrors() ==> final(plan).mirrors(),
{
    let user = root::get_current_username(
        &cfg.root_opts.authors,
        &ins.git_username,
        ins.machine_username.as_str(),
    );
    let authors = root::get_authors(
        &cfg.root_opts.authors,
        &ins.git_username,
        ins.machine_username.as_str(),
    );
    match &cfg.ptype {
        PipelineType::List => {
            proof {
                assert(actions_view(plan.actions@) =~= actions_view(plan.actions@)
                    + structure_planned_actions(*cfg, *ins));
                assert(entries_view(plan.tree.entries@) =~= entries_view(plan.tree.entries@)
                    + structure_planned_entries(*cfg));
            }
        },
        PipelineType::Workspace => {
            let deps = root::add_workspace_deps(&cfg.root_opts.dependencies, &ins.dep_versions);
            let _manifest = root::create(
                plan,
                cfg.root_opts.name.as_str(),
                &cfg.root_opts.description,
                cfg.root_opts.without_readme,
                &authors,
                user.as_str(),
                &deps,
            );
            bins::create(plan, cfg.root_opts.name.as_str());
            proof {
                reveal_strlit("common");
            }
            libs::create(plan, "common");
        },
        PipelineType::Bin { bare } => {
            let deps = cargo::add_inline_deps(&cfg.root_opts.dependencies, &ins.dep_versions);
            let desc = cargo::resolve_package_description(&cfg.root_opts.description);
            cargo::create_bin(
                plan,
                cfg.root_opts.name.as_str(),
                desc.as_str(),
                *bare,
                &authors,
                user.as_str(),
                &deps,
            );
        },
        PipelineType::Lib { bare } => {
            let deps = cargo::add_inline_deps(&cfg.root_opts.dependencies, &ins.dep_versions);
            let desc = cargo::resolve_lib_description(&cfg.root_opts.description);
            cargo::create_lib(
                plan,
                cfg.root_opts.name.as_str(),
                desc.as_str(),
                *bare,
                &authors,
                user.as_str(),
                &deps,
            );
        },
    }
}

/// Plans the CI step, when requested.
fn plan_ci(plan: &mut Plan, cfg: &Config)
    requires
        old(plan).tree.balanced(),
    ensures
        actions_view(final(plan).actions@) =~= actions_view(old(plan).actions@)
            + ci_planned_actions(*cfg),
        entries_view(final(plan).tree.entries@) =~= entries_view(old(plan).tree.entries@)
            + ci_planned_entries(*cfg),
        final(plan).tree.balanced(),
        old(plan).mirrors() ==> final(plan).mirrors(),
{
    let wants_ci = cfg.ci_opts.with_ci || cfg.ci_opts.ci_yml.is_some() || cfg.global_opts.full;
    if wants_ci {
        ci::create(plan, cfg.ci_opts.ci_yml.clone());
    }
}

/// Builds the full generation plan of a run.  A step that the configuration
/// does not request contributes nothing: no action and no preview entry.
#[verifier::rlimit(60)]
pub fn build_plan(cfg: &Config, ins: &PlanInputs) -> (r: Plan)
    requires
        cfg.valid(),
        !(cfg.ptype is List),
        ins.dep_versions@.len() == deps_needed(*cfg),
    ensures
        r.mirrors(),
        r.tree.balanced(),
        entries_view(r.tree.entries@) =~= planned_entries(*cfg, ins.license_content is Some),
        actions_view(r.actions@) =~= planned_actions(*cfg, *ins),
{
    let mut plan = Plan::new();
    plan.ensure_root();
    plan_gate_steps(&mut plan, cfg, ins);
    plan_structure(&mut plan, cfg, ins);
    plan_ci(&mut plan, cfg);
    plan
}

/// The structure step's actions create exactly the entries its preview
/// lists, whatever the mode.
proof fn lemma_structure_actions_entries(cfg: Config, ins: PlanInputs)
    ensures
        actions_entries(structure_planned_actions(cfg, ins)) =~= structure_planned_entries(cfg),
{
    let name = cfg.root_opts.name@;
    let user = root::spec_username(
        cfg.root_opts.authors,
        root::opt_view(ins.git_username),
        ins.machine_username@,
    );
    let authors = root::spec_authors(
        cfg.root_opts.authors,
        root::opt_view(ins.git_username),
        ins.machine_username@,
    );
    match cfg.ptype {
        PipelineType::List => {
        },
        PipelineType::Workspace => {
            let desc = root::description_of(cfg.root_opts.description, name);
            let deps = root::resolved_deps_spec(
                root::combined_deps_spec(cfg.root_opts.dependencies),
                ins.dep_versions@,
            );
            let readme = if cfg.root_opts.without_readme {
                None
            } else {
                Some(root::readme_text(name, desc, user))
            };
            let ra = root::root_actions(
                readme,
                root::workspace_manifest(name, desc, authors, user, deps),
            );
            let ba = bins::bins_actions(name);
            let la = libs::libs_actions("common"@);
            crate::plan::lemma_actions_entries_concat(ra + ba, la);
            crate::plan::lemma_actions_entries_concat(ra, ba);
            root::lemma_root_actions_entries(
                readme,
                root::workspace_manifest(name, desc, authors, user, deps),
            );
            bins::lemma_bins_actions_entries(name);
            libs::lemma_libs_actions_entries("common"@);
        },
        PipelineType::Bin { bare } => {
            let desc = cargo::package_description_of(cfg.root_opts.description);
            let deps = root::resolved_deps_spec(
                cargo::combined_package_deps_spec(cfg.root_opts.dependencies),
                ins.dep_versions@,
            );
            cargo::lemma_bin_mode_actions_entries(
                if bare {
                    None
                } else {
                    Some(cargo::package_manifest(name, desc, authors, user, deps))
                },
            );
        },
        PipelineType::Lib { bare } => {
            let desc = cargo::lib_description_of(cfg.root_opts.description);
            let deps = root::resolved_deps_spec(
                cargo::combined_package_deps_spec(cfg.root_opts.dependencies),
                ins.dep_versions@,
            );
            cargo::lemma_lib_mode_actions_entries(
                if bare {
                    None
                } else {
                    Some(cargo::package_manifest(name, desc, authors, user, deps))
                },
            );
        },
    }
}

/// Law (dry-run/execute duality): for every configuration and every set of
/// capability inputs, the planned actions create exactly the entries the
/// preview tree lists, in the same order.  A dry run performs no action and
/// only renders the preview, so what it shows is precisely what the same
/// run would create on disk; and the target directory's contents are left
/// untouched, since no action is applied at all.
#[verifier::rlimit(60)]
pub proof fn lemma_preview_lists_created_paths(cfg: Config, ins: PlanInputs)
    ensures
        actions_entries(planned_actions(cfg, ins)) =~= planned_entries(
            cfg,
            ins.license_content is Some,
        ),
{
    let a0 = seq![ActionV::MkDir { path: Seq::<char>::empty() }];
    let a1 = license_planned_actions(cfg, ins);
    let a2 = gitignore_planned_actions(cfg, ins);
    let a3 = etc_planned_actions(cfg);
    let a4 = structure_planned_actions(cfg, ins);
    let a5 = ci_planned_actions(cfg);
    crate::plan::lemma_actions_entries_concat(a0 + a1 + a2 + a3 + a4, a5);
    crate::plan::lemma_actions_entries_concat(a0 + a1 + a2 + a3, a4);
    crate::plan::lemma_actions_entries_concat(a0 + a1 + a2, a3);
    crate::plan::lemma_actions_entries_concat(a0 + a1, a2);
    crate::plan::lemma_actions_entries_concat(a0, a1);
    crate::plan::lemma_actions_entries_singleton(ActionV::MkDir { path: Seq::<char>::empty() });
    assert(actions_entries(a0) =~= Seq::<(Seq<char>, NodeKind)>::empty());
    if cfg.wants_license() {
        match ins.license_content {
            Some(c) => license::lemma_license_actions_entries(c@),
            None => {},
        }
    }
    assert(actions_entries(a1) =~= license_planned_entries(cfg, ins.license_content is Some));
    if cfg.wants_gitignore() {
        gitignore::lemma_gitignore_actions_entries(ins.gitignore_text@);
    }
    assert(actions_entries(a2) =~= gitignore_planned_entries(cfg));
    if cfg.wants_etc() {
        etc::lemma_etc_actions_entries(cfg.wants_assets());
    }
    assert(actions_entries(a3) =~= etc_planned_entries(cfg));
    lemma_structure_actions_entries(cfg, ins);
    if cfg.wants_ci() {
        ci::lemma_ci_actions_entries(root::opt_view(cfg.ci_opts.ci_yml));
    }
    assert(actions_entries(a5) =~= ci_planned_entries(cfg));
}

/// Every path of an entry list begins with a character other than `b` and
/// `c`, so none of them is the workspace's `bin/...` or `crates/...`
/// sub-crate paths.
pub open spec fn avoids_workspace_roots(entries: Seq<(Seq<char>, NodeKind)>) -> bool {
    forall|i: int| 0 <= i < entries.len() ==> {
        let p = #[trigger] entries[i].0;
        p.len() > 0 && p[0] != 'b' && p[0] != 'c'
    }
}

/// Avoidance is preserved by concatenation.
proof fn lemma_avoids_concat(a: Seq<(Seq<char>, NodeKind)>, b: Seq<(Seq<char>, NodeKind)>)
    requires
        avoids_workspace_roots(a),
        avoids_workspace_roots(b),
    ensures
        avoids_workspace_roots(a + b),
{
    assert forall|i: int| 0 <= i < (a + b).len() implies {
        let p = #[trigger] (a + b)[i].0;
        p.len() > 0 && p[0] != 'b' && p[0] != 'c'
    } by {
        if i < a.len() {
            assert((a + b)[i] == a[i]);
        } else {
            assert((a + b)[i] == b[i - a.len()]);
        }
    }
}

/// Law (mode exclusivity): in bin-only and lib-only mode no planned entry
/// is the workspace's `bin/<name>` binary crate or its `crates/common`
/// library crate — single-crate runs never produce the workspace layout.
#[verifier::rlimit(60)]
pub proof fn lemma_single_crate_modes_exclusive(cfg: Config, has_license: bool)
    requires
        cfg.ptype matches PipelineType::Bin { .. } || cfg.ptype matches PipelineType::Lib { .. },
    ensures
        forall|i: int| 0 <= i < planned_entries(cfg, has_license).len() ==> {
            let p = #[trigger] planned_entries(cfg, has_license)[i].0;
            p != crate::preview::joined("bin"@, cfg.root_opts.name@) && p != crate::preview::joined(
                "crates"@,
                "common"@,
            )
        },
{
    reveal_strlit("bin");
    reveal_strlit("crates");
    reveal_strlit("LICENSE");
    reveal_strlit(".gitignore");
    reveal_strlit("etc");
    reveal_strlit("banner.png");
    reveal_strlit("logo.png");
    reveal_strlit("favicon.ico");
    reveal_strlit("/");
    reveal_strlit("Cargo.toml");
    reveal_strlit("src");
    reveal_strlit("src/main.rs");
    reveal_strlit("src/lib.rs");
    reveal_strlit(".github");
    reveal_strlit("workflows");
    reveal_strlit("ci.yml");
    let e1 = license_planned_entries(cfg, has_license);
    let e2 = gitignore_planned_entries(cfg);
    let e3 = etc_planned_entries(cfg);
    let e4 = structure_planned_entries(cfg);
    let e5 = ci_planned_entries(cfg);
    assert(avoids_workspace_roots(e1));
    assert(avoids_workspace_roots(e2));
    assert(avoids_workspace_roots(e3)) by {
        if cfg.wants_etc() && cfg.wants_assets() {
            assert(e3[0].0 == "etc"@);
            assert(e3[1].0 == "etc"@ + "/"@ + "banner.png"@);
            assert(e3[1].0[0] == 'e');
            assert(e3[2].0[0] == 'e');
            assert(e3[3].0[0] == 'e');
        }
    }
    assert(avoids_workspace_roots(e4)) by {
        assert(e4 =~= crate::plan::init_crate_entries(
            Seq::<char>::empty(),
            if cfg.ptype matches PipelineType::Bin { .. } {
                "src/main.rs"@
            } else {
                "src/lib.rs"@
            },
        ));
        assert(e4[0].0 == "Cargo.toml"@);
        assert(e4[1].0 == "src"@);
    }
    assert(avoids_workspace_roots(e5)) by {
        if cfg.wants_ci() {
            let dir = crate::preview::joined(".github"@, "workflows"@);
            assert(dir[0] == '.');
            assert(e5[0].0 == ".github"@);
            assert(e5[1].0 == dir);
            if cfg.ci_opts.ci_yml is Some {
                assert(e5[2].0 == crate::preview::joined(dir, "ci.yml"@));
                assert(e5[2].0[0] == '.');
            } else {
                assert forall|i: int| 2 <= i < e5.len() implies {
                    let p = #[trigger] e5[i].0;
                    p.len() > 0 && p[0] != 'b' && p[0] != 'c'
                } by {
                    assert(e5[i].0 == crate::preview::joined(dir, ci::workflow_names()[i - 2]));
                    assert(e5[i].0[0] == '.');
                }
            }
        }
    }
    lemma_avoids_concat(e1, e2);
    lemma_avoids_concat(e1 + e2, e3);
    lemma_avoids_concat(e1 + e2 + e3, e4);
    lemma_avoids_concat(e1 + e2 + e3 + e4, e5);
    let all = planned_entries(cfg, has_license);
    assert(avoids_workspace_roots(all));
    let pb = crate::preview::joined("bin"@, cfg.root_opts.name@);
    let pc = crate::preview::joined("crates"@, "common"@);
    assert(pb[0] == 'b');
    assert(pc[0] == 'c');
    assert forall|i: int| 0 <= i < all.len() implies {
        let p = #[trigger] all[i].0;
        p != pb && p != pc
    } by {
        assert(all[i].0.len() > 0 && all[i].0[0] != 'b' && all[i].0[0] != 'c');
    }
}

/// The outcome of a run's decision core.
#[derive(Debug, Clone, PartialEq)]
pub enum RunOutcome {
    /// Print the default dependency table and exit; nothing is planned.
    ListDependencies,
    /// The user declined the overwrite warning: exit cleanly, having
    /// planned and created nothing.
    AbortedByUser,
    /// The user declined a conflict with the named pre-existing artifact:
    /// fail, having planned and created nothing.
    ConflictDetected(ArtifactKind),
    /// The run may proceed: the full plan to perform, or, in dry-run mode,
    /// to preview without performing.
    Planned(Plan),
}

/// The whole decision core of a run: the list mode short-circuits; the
/// overwrite warning or conflict confirmation may abort the run; and
/// otherwise the run is planned in full.
pub fn plan_run(cfg: &Config, found: &ArtifactsFound, confirmed: bool, ins: &PlanInputs) -> (r:
    RunOutcome)
    requires
        cfg.valid(),
        ins.dep_versions@.len() == deps_needed(*cfg),
    ensures
        cfg.ptype is List ==> r == RunOutcome::ListDependencies,
        !(cfg.ptype is List) ==> ({
            let g = spec_gate(
                spec_required_prompt(
                    cfg.global_opts.overwrite,
                    cfg.global_opts.dry_run,
                    cfg.wants_ci(),
                    *found,
                ),
                confirmed,
            );
            match g {
                RunGate::Proceed => r matches RunOutcome::Planned(p) && p.mirrors()
                    && p.tree.balanced() && entries_view(p.tree.entries@) =~= planned_entries(
                    *cfg,
                    ins.license_content is Some,
                ) && actions_view(p.actions@) =~= planned_actions(*cfg, *ins),
                RunGate::AbortClean => r == RunOutcome::AbortedByUser,
                RunGate::AbortConflict(k) => r == RunOutcome::ConflictDetected(k),
            }
        }),
{
    match &cfg.ptype {
        PipelineType::List => {
            return RunOutcome::ListDependencies;
        },
        _ => {},
    }
    let wants_ci = cfg.ci_opts.with_ci || cfg.ci_opts.ci_yml.is_some() || cfg.global_opts.full;
    let prompt = required_prompt(
        cfg.global_opts.overwrite,
        cfg.global_opts.dry_run,
        wants_ci,
        found,
    );
    match gate(prompt, confirmed) {
        RunGate::Proceed => RunOutcome::Planned(build_plan(cfg, ins)),
        RunGate::AbortClean => RunOutcome::AbortedByUser,
        RunGate::AbortConflict(k) => RunOutcome::ConflictDetected(k),
    }
}

} // verus!
