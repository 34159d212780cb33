//! The CI generation step.
//!
//! Writes the bundled github actions workflow files into the project's
//! workflow directory, or copies a user-supplied workflow file there
//! instead.

use vstd::prelude::*;
use crate::plan::{ActionV, Plan, actions_view};
use crate::preview::{NodeKind, entries_view, joined};

verus! {

/// The bundled testing workflow.
pub open spec fn ci_yml_contents() -> Seq<char> {
    "name: ci\non: [push, pull_request]\njobs:\n  test:\n    runs-on: ubuntu-latest\n    steps:\n      - uses: actions/checkout@v4\n      - run: cargo test --all\n"@
}

/// The bundled testing workflow.
pub fn ci_yml() -> (r: &'static str)
    ensures
        r@ == ci_yml_contents(),
{
    "name: ci\non: [push, pull_request]\njobs:\n  test:\n    runs-on: ubuntu-latest\n    steps:\n      - uses: actions/checkout@v4\n      - run: cargo test --all\n"
}

/// The bundled dependency audit workflow.
pub open spec fn audit_yml_contents() -> Seq<char> {
    "name: audit\non: [push]\njobs:\n  audit:\n    runs-on: ubuntu-latest\n    steps:\n      - uses: actions/checkout@v4\n      - run: cargo audit\n"@
}

/// The bundled dependency audit workflow.
pub fn audit_yml() -> (r: &'static str)
    ensures
        r@ == audit_yml_contents(),
{
    "name: audit\non: [push]\njobs:\n  audit:\n    runs-on: ubuntu-latest\n    steps:\n      - uses: actions/checkout@v4\n      - run: cargo audit\n"
}

/// The bundled github release workflow.
pub open spec fn github_release_yml_contents() -> Seq<char> {
    "name: github-release\non:\n  push:\n    tags: ['v*']\njobs:\n  release:\n    runs-on: ubuntu-latest\n    steps:\n      - uses: actions/checkout@v4\n      - run: gh release create \"$GITHUB_REF_NAME\"\n"@
}

/// The bundled github release workflow.
pub fn github_release_yml() -> (r: &'static str)
    ensures
        r@ == github_release_yml_contents(),
{
    "name: github-release\non:\n  push:\n    tags: ['v*']\njobs:\n  release:\n    runs-on: ubuntu-latest\n    steps:\n      - uses: actions/checkout@v4\n      - run: gh release create \"$GITHUB_REF_NAME\"\n"
}

/// The bundled manual tag workflow.
pub open spec fn manual_tag_yml_contents() -> Seq<char> {
    "name: manual-tag\non: workflow_dispatch\njobs:\n  tag:\n    runs-on: ubuntu-latest\n    steps:\n      - uses: actions/checkout@v4\n      - run: git tag \"v$(cargo pkgid | cut -d '#' -f2)\" && git push --tags\n"@
}

/// The bundled manual tag workflow.
pub fn manual_tag_yml() -> (r: &'static str)
    ensures
        r@ == manual_tag_yml_contents(),
{
    "name: manual-tag\non: workflow_dispatch\njobs:\n  tag:\n    runs-on: ubuntu-latest\n    steps:\n      - uses: actions/checkout@v4\n      - run: git tag \"v$(cargo pkgid | cut -d '#' -f2)\" && git push --tags\n"
}

/// The bundled crate release workflow.
pub open spec fn release_yml_contents() -> Seq<char> {
    "name: release\non:\n  push:\n    tags: ['v*']\njobs:\n  publish:\n    runs-on: ubuntu-latest\n    steps:\n      - uses: actions/checkout@v4\n      - run: cargo publish --workspace\n"@
}

/// The bundled crate release workflow.
pub fn release_yml() -> (r: &'static str)
    ensures
        r@ == release_yml_contents(),
{
    "name: release\non:\n  push:\n    tags: ['v*']\njobs:\n  publish:\n    runs-on: ubuntu-latest\n    steps:\n      - uses: actions/checkout@v4\n      - run: cargo publish --workspace\n"
}

/// The bundled tagging workflow.
pub open spec fn tag_yml_contents() -> Seq<char> {
    "name: tag\non:\n  push:\n    branches: [main]\njobs:\n  tag:\n    runs-on: ubuntu-latest\n    steps:\n      - uses: actions/checkout@v4\n      - run: git tag \"v$(cargo pkgid | cut -d '#' -f2)\" && git push --tags\n"@
}

/// The bundled tagging workflow.
pub fn tag_yml() -> (r: &'static str)
    ensures
        r@ == tag_yml_contents(),
{
    "name: tag\non:\n  push:\n    branches: [main]\njobs:\n  tag:\n    runs-on: ubuntu-latest\n    steps:\n      - uses: actions/checkout@v4\n      - run: git tag \"v$(cargo pkgid | cut -d '#' -f2)\" && git push --tags\n"
}

/// The bundled version validation workflow.
pub open spec fn validate_version_yml_contents() -> Seq<char> {
    "name: validate-version\non: [pull_request]\njobs:\n  validate:\n    runs-on: ubuntu-latest\n    steps:\n      - uses: actions/checkout@v4\n      - run: test \"v$(cargo pkgid | cut -d '#' -f2)\" != \"$(git describe --tags --abbrev=0)\"\n"@
}

/// The bundled version validation workflow.
pub fn validate_version_yml() -> (r: &'static str)
    ensures
        r@ == validate_version_yml_contents(),
{
    "name: validate-version\non: [pull_request]\njobs:\n  validate:\n    runs-on: ubuntu-latest\n    steps:\n      - uses: actions/checkout@v4\n      - run: test \"v$(cargo pkgid | cut -d '#' -f2)\" != \"$(git describe --tags --abbrev=0)\"\n"
}

/// The names of the bundled workflows, in the order they are written.
pub open spec fn workflow_names() -> Seq<Seq<char>> {
    seq![
        "ci.yml"@,
        "audit.yml"@,
        "github-release.yml"@,
        "manual-tag.yml"@,
        "release.yml"@,
        "tag.yml"@,
        "validate-version.yml"@,
    ]
}

/// The actions that write the bundled workflows under `dir`.
pub open spec fn workflow_actions(dir: Seq<char>) -> Seq<ActionV> {
    seq![
        ActionV::WriteFile { path: joined(dir, "ci.yml"@), contents: ci_yml_contents() },
        ActionV::WriteFile { path: joined(dir, "audit.yml"@), contents: audit_yml_contents() },
        ActionV::WriteFile {
            path: joined(dir, "github-release.yml"@),
            contents: github_release_yml_contents(),
        },
        ActionV::WriteFile {
            path: joined(dir, "manual-tag.yml"@),
            contents: manual_tag_yml_contents(),
        },
        ActionV::WriteFile { path: joined(dir, "release.yml"@), contents: release_yml_contents() },
        ActionV::WriteFile { path: joined(dir, "tag.yml"@), contents: tag_yml_contents() },
        ActionV::WriteFile {
            path: joined(dir, "validate-version.yml"@),
            contents: validate_version_yml_contents(),
        },
    ]
}

/// The preview entries of the CI step: the `.github` and workflow
/// directories, then either the one copied file or the bundled workflow
/// files.
pub open spec fn ci_entries(copied: bool) -> Seq<(Seq<char>, NodeKind)> {
    let dir = joined(".github"@, "workflows"@);
    seq![(".github"@, NodeKind::Dir), (dir, NodeKind::Dir)] + (if copied {
        seq![(joined(dir, "ci.yml"@), NodeKind::File)]
    } else {
        workflow_names().map_values(|n: Seq<char>| (joined(dir, n), NodeKind::File))
    })
}

/// Writes the bundled workflow files into the current (workflow) branch of
/// the plan.
pub fn write_github_workflows(plan: &mut Plan)
    ensures
        entries_view(final(plan).tree.entries@) =~= entries_view(old(plan).tree.entries@)
            + workflow_names().map_values(
            |n: Seq<char>| (joined(old(plan).tree.cur_prefix(), n), NodeKind::File),
        ),
        actions_view(final(plan).actions@) =~= actions_view(old(plan).actions@) + workflow_actions(
            old(plan).tree.cur_prefix(),
        ),
        final(plan).tree.prefixes@ =~= old(plan).tree.prefixes@,
        old(plan).mirrors() ==> final(plan).mirrors(),
{
    plan.write_file("ci.yml", String::from_str(ci_yml()));
    plan.write_file("audit.yml", String::from_str(audit_yml()));
    plan.write_file("github-release.yml", String::from_str(github_release_yml()));
    plan.write_file("manual-tag.yml", String::from_str(manual_tag_yml()));
    plan.write_file("release.yml", String::from_str(release_yml()));
    plan.write_file("tag.yml", String::from_str(tag_yml()));
    plan.write_file("validate-version.yml", String::from_str(validate_version_yml()));
}

/// The actions of the CI step.
pub open spec fn ci_actions(ci: Option<Seq<char>>) -> Seq<ActionV> {
    let dir = joined(".github"@, "workflows"@);
    seq![ActionV::MkDir { path: ".github"@ }, ActionV::MkDir { path: dir }] + (match ci {
        Some(src) => seq![ActionV::CopyFile { from: src, to: joined(dir, "ci.yml"@) }],
        None => workflow_actions(dir),
    })
}

/// The CI step's actions create exactly the entries its preview lists.
pub proof fn lemma_ci_actions_entries(ci: Option<Seq<char>>)
    ensures
        crate::plan::actions_entries(ci_actions(ci)) =~= ci_entries(ci is Some),
{
    reveal_strlit(".github");
    let dir = joined(".github"@, "workflows"@);
    let m0 = ActionV::MkDir { path: ".github"@ };
    let m1 = ActionV::MkDir { path: dir };
    match ci {
        Some(src) => {
            let c = ActionV::CopyFile { from: src, to: joined(dir, "ci.yml"@) };
            assert(ci_actions(ci) =~= seq![m0, m1, c]);
            crate::plan::lemma_actions_entries_list3(m0, m1, c);
        },
        None => {
            let w = workflow_actions(dir);
            assert(ci_actions(ci) =~= seq![m0, m1] + w);
            crate::plan::lemma_actions_entries_list2(m0, m1);
            crate::plan::lemma_actions_entries_concat(seq![m0, m1], w);
            assert(w =~= seq![w[0], w[1], w[2], w[3], w[4], w[5], w[6]]);
            crate::plan::lemma_actions_entries_list7(w[0], w[1], w[2], w[3], w[4], w[5], w[6]);
            assert(crate::plan::actions_entries(w) =~= workflow_names().map_values(
                |n: Seq<char>| (joined(dir, n), NodeKind::File),
            ));
        },
    }
}

/// Plans the CI step: the `.github/workflows` directory holding either the
/// bundled workflows or the one user-supplied file.
pub fn create(plan: &mut Plan, ci: Option<String>)
    requires
        old(plan).tree.balanced(),
    ensures
        entries_view(final(plan).tree.entries@) =~= entries_view(old(plan).tree.entries@)
            + ci_entries(ci is Some),
        actions_view(final(plan).actions@) =~= actions_view(old(plan).actions@) + ci_actions(
            match ci {
                Some(src) => Some(src@),
                None => None,
            },
        ),
        final(plan).tree.balanced(),
        old(plan).mirrors() ==> final(plan).mirrors(),
{
    proof {
        reveal_strlit(".github");
        reveal_strlit("workflows");
    }
    plan.enter_dir(".github");
    plan.enter_dir("workflows");
    match ci {
        None => {
            write_github_workflows(plan);
        },
        Some(src) => {
            plan.copy_file(src, "ci.yml");
        },
    }
    plan.leave_dir();
    plan.leave_dir();
}

} // verus!
