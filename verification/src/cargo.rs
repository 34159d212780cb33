//! The single-crate generation modes.
//!
//! In bin-only or lib-only mode the project is initialized directly in the
//! target directory by the toolchain's project initializer, and its manifest
//! is then filled in — unless `bare` is set, in which case only what the
//! initializer produces is kept.

use vstd::prelude::*;
use crate::git::repository_url;
use crate::plan::{ActionV, Plan, actions_view, init_crate_entries};
use crate::preview::{NodeKind, entries_view};
use crate::root::{deps_view, dep_lines, quoted_list, strs_view, resolved_deps_spec, override_deps_spec};

verus! {

/// The default dependencies of a single-crate project, with their fallback
/// versions.
pub open spec fn default_package_deps_spec() -> Seq<(Seq<char>, Seq<char>)> {
    seq![
        ("anyhow"@, "1.0"@),
        ("inquire"@, "0.6.2"@),
        ("tracing"@, "0.1.39"@),
        ("serde"@, "1.0.189"@),
        ("serde_json"@, "1.0.107"@),
        ("tracing-subscriber"@, "0.3.17"@),
        ("clap"@, "4.4.3"@),
    ]
}

/// Lists the default dependencies of a single-crate project.
pub fn default_package_dependencies() -> (r: Vec<(String, String)>)
    ensures
        deps_view(r@) =~= default_package_deps_spec(),
{
    let mut r: Vec<(String, String)> = Vec::new();
    r.push(("anyhow".to_owned(), "1.0".to_owned()));
    r.push(("inquire".to_owned(), "0.6.2".to_owned()));
    r.push(("tracing".to_owned(), "0.1.39".to_owned()));
    r.push(("serde".to_owned(), "1.0.189".to_owned()));
    r.push(("serde_json".to_owned(), "1.0.107".to_owned()));
    r.push(("tracing-subscriber".to_owned(), "0.3.17".to_owned()));
    r.push(("clap".to_owned(), "4.4.3".to_owned()));
    r
}

/// The full dependency list of a single-crate project: the defaults, then
/// the user's extra dependencies.
pub open spec fn combined_package_deps_spec(overrides: Option<Vec<String>>) -> Seq<
    (Seq<char>, Seq<char>),
> {
    match overrides {
        Some(v) => default_package_deps_spec() + override_deps_spec(strs_view(v@)),
        None => default_package_deps_spec(),
    }
}

/// Builds the dependency table of a single-crate project: the defaults
/// merged with the user's extra dependencies, each version the fetched one
/// where the lookup succeeded and the bundled fallback otherwise.
pub fn add_inline_deps(overrides: &Option<Vec<String>>, fetched: &Vec<Option<String>>) -> (r: Vec<
    (String, String),
>)
    requires
        fetched@.len() == combined_package_deps_spec(*overrides).len(),
    ensures
        deps_view(r@) =~= resolved_deps_spec(combined_package_deps_spec(*overrides), fetched@),
{
    let base = crate::root::with_overrides(default_package_dependencies(), overrides);
    assert(deps_view(base@) =~= combined_package_deps_spec(*overrides));
    crate::root::apply_fetched(&base, fetched)
}

/// What a bin-only project's description resolves to: the given
/// description, or a generic one.
pub open spec fn package_description_of(description: Option<String>) -> Seq<char> {
    match description {
        Some(d) => d@,
        None => "A new binary crate"@,
    }
}

/// The description used for a bin-only project.
pub fn resolve_package_description(description: &Option<String>) -> (r: String)
    ensures
        r@ == package_description_of(*description),
{
    match description {
        Some(d) => d.clone(),
        None => String::from_str("A new binary crate"),
    }
}

/// What a lib-only project's description resolves to: the given
/// description, or a generic one.
pub open spec fn lib_description_of(description: Option<String>) -> Seq<char> {
    match description {
        Some(d) => d@,
        None => "A new library crate"@,
    }
}

/// The description used for a lib-only project.
pub fn resolve_lib_description(description: &Option<String>) -> (r: String)
    ensures
        r@ == lib_description_of(*description),
{
    match description {
        Some(d) => d.clone(),
        None => String::from_str("A new library crate"),
    }
}

/// The full text of a single-crate package manifest.
pub open spec fn package_manifest(
    name: Seq<char>,
    description: Seq<char>,
    authors: Seq<Seq<char>>,
    user: Seq<char>,
    deps: Seq<(Seq<char>, Seq<char>)>,
) -> Seq<char> {
    "[package]\nname = \""@ + name + "\"\ndescription = \""@ + description
        + "\"\nversion = \"0.1.0\"\nedition = \"2021\"\nlicense = \"MIT\"\nauthors = ["@
        + quoted_list(authors) + "]\nrepository = \""@ + repository_url(user, name)
        + "\"\nhomepage = \""@ + repository_url(user, name) + "\"\n\n[dependencies]\n"@
        + dep_lines(deps)
}

/// Renders the manifest of a single-crate project.
pub fn write_cargo_bin(
    name: &str,
    description: &str,
    authors: &Vec<String>,
    user: &str,
    deps: &Vec<(String, String)>,
) -> (r: String)
    ensures
        r@ == package_manifest(name@, description@, strs_view(authors@), user@, deps_view(deps@)),
{
    let mut out = String::from_str("[package]\nname = \"");
    out.append(name);
    out.append("\"\ndescription = \"");
    out.append(description);
    out.append("\"\nversion = \"0.1.0\"\nedition = \"2021\"\nlicense = \"MIT\"\nauthors = [");
    crate::root::append_quoted_list(&mut out, authors);
    out.append("]\nrepository = \"");
    let url = crate::git::build_repository_url(user, name);
    out.append(url.as_str());
    out.append("\"\nhomepage = \"");
    out.append(url.as_str());
    out.append("\"\n\n[dependencies]\n");
    crate::root::append_dep_lines(&mut out, deps);
    out
}

/// The actions of the bin-only mode: initialize the project, and fill its
/// manifest unless `bare` is set.
pub open spec fn bin_mode_actions(manifest: Option<Seq<char>>) -> Seq<ActionV> {
    match manifest {
        Some(m) => seq![
            ActionV::InitBinCrate { path: Seq::<char>::empty() },
            ActionV::FillFile { path: "Cargo.toml"@, contents: m },
        ],
        None => seq![ActionV::InitBinCrate { path: Seq::<char>::empty() }],
    }
}

/// The actions of the lib-only mode.
pub open spec fn lib_mode_actions(manifest: Option<Seq<char>>) -> Seq<ActionV> {
    match manifest {
        Some(m) => seq![
            ActionV::InitLibCrate { path: Seq::<char>::empty() },
            ActionV::FillFile { path: "Cargo.toml"@, contents: m },
        ],
        None => seq![ActionV::InitLibCrate { path: Seq::<char>::empty() }],
    }
}

/// The bin-only mode's actions create exactly the entries its preview
/// lists: filling the initializer's manifest adds no entry of its own.
pub proof fn lemma_bin_mode_actions_entries(manifest: Option<Seq<char>>)
    ensures
        crate::plan::actions_entries(bin_mode_actions(manifest)) =~= init_crate_entries(
            Seq::<char>::empty(),
            "src/main.rs"@,
        ),
{
    let init = ActionV::InitBinCrate { path: Seq::<char>::empty() };
    match manifest {
        Some(m) => {
            crate::plan::lemma_actions_entries_list2(
                init,
                ActionV::FillFile { path: "Cargo.toml"@, contents: m },
            );
        },
        None => {
            crate::plan::lemma_actions_entries_singleton(init);
        },
    }
}

/// The lib-only mode's actions create exactly the entries its preview
/// lists.
pub proof fn lemma_lib_mode_actions_entries(manifest: Option<Seq<char>>)
    ensures
        crate::plan::actions_entries(lib_mode_actions(manifest)) =~= init_crate_entries(
            Seq::<char>::empty(),
            "src/lib.rs"@,
        ),
{
    let init = ActionV::InitLibCrate { path: Seq::<char>::empty() };
    match manifest {
        Some(m) => {
            crate::plan::lemma_actions_entries_list2(
                init,
                ActionV::FillFile { path: "Cargo.toml"@, contents: m },
            );
        },
        None => {
            crate::plan::lemma_actions_entries_singleton(init);
        },
    }
}

/// Plans a cargo binary project in the target directory: the initializer's
/// manifest, `src` directory and entrypoint stub; the manifest is then
/// filled in unless `bare` is set.
pub fn create_bin(
    plan: &mut Plan,
    name: &str,
    description: &str,
    bare: bool,
    authors: &Vec<String>,
    user: &str,
    deps: &Vec<(String, String)>,
)
    requires
        old(plan).tree.balanced(),
    ensures
        actions_view(final(plan).actions@) =~= actions_view(old(plan).actions@) + bin_mode_actions(
            if bare {
                None
            } else {
                Some(
                    package_manifest(
                        name@,
                        description@,
                        strs_view(authors@),
                        user@,
                        deps_view(deps@),
                    ),
                )
            },
        ),
        entries_view(final(plan).tree.entries@) =~= entries_view(old(plan).tree.entries@)
            + init_crate_entries(Seq::<char>::empty(), "src/main.rs"@),
        final(plan).tree.balanced(),
        old(plan).mirrors() ==> final(plan).mirrors(),
{
    plan.init_bin_crate();
    if !bare {
        let manifest = write_cargo_bin(name, description, authors, user, deps);
        plan.fill_file("Cargo.toml", manifest);
    }
}

/// Plans a cargo library project in the target directory, as
/// [`create_bin`] does for a binary.
pub fn create_lib(
    plan: &mut Plan,
    name: &str,
    description: &str,
    bare: bool,
    authors: &Vec<String>,
    user: &str,
    deps: &Vec<(String, String)>,
)
    requires
        old(plan).tree.balanced(),
    ensures
        actions_view(final(plan).actions@) =~= actions_view(old(plan).actions@) + lib_mode_actions(
            if bare {
                None
            } else {
                Some(
                    package_manifest(
                        name@,
                        description@,
                        strs_view(authors@),
                        user@,
                        deps_view(deps@),
                    ),
                )
            },
        ),
        entries_view(final(plan).tree.entries@) =~= entries_view(old(plan).tree.entries@)
            + init_crate_entries(Seq::<char>::empty(), "src/lib.rs"@),
        final(plan).tree.balanced(),
        old(plan).mirrors() ==> final(plan).mirrors(),
{
    plan.init_lib_crate();
    if !bare {
        let manifest = write_cargo_bin(name, description, authors, user, deps);
        plan.fill_file("Cargo.toml", manifest);
    }
}

} // verus!
