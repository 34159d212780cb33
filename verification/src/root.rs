//! The workspace root generation step.
//!
//! Renders the top-level readme and the workspace manifest, resolves the
//! workspace dependency table (a fixed default set, merged with the user's
//! extra dependencies, each version taken from a registry lookup when one
//! succeeded and from a bundled fallback otherwise), and picks the project
//! author from the override list, the version control user name, or the
//! machine user name, in that order.

use vstd::prelude::*;
use crate::git::repository_url;
use crate::plan::{ActionV, Plan, actions_view};
use crate::preview::{NodeKind, entries_view};
use crate::textscan::{first_index_from, match_at, matches_at, find_char_from};

verus! {

/// The view of an optional string.
pub open spec fn opt_view(o: Option<String>) -> Option<Seq<char>> {
    match o {
        Some(s) => Some(s@),
        None => None,
    }
}

/// The current username: the first author override when one is given, else
/// the version control user name when one could be read, else the machine
/// user name.
pub open spec fn spec_username(
    authors: Option<Vec<String>>,
    git_username: Option<Seq<char>>,
    machine_username: Seq<char>,
) -> Seq<char> {
    match authors {
        Some(v) => v@[0]@,
        None => match git_username {
            Some(g) => g,
            None => machine_username,
        },
    }
}

/// The manifest author list: the override list when one is given, else the
/// single detected user name.
pub open spec fn spec_authors(
    authors: Option<Vec<String>>,
    git_username: Option<Seq<char>>,
    machine_username: Seq<char>,
) -> Seq<Seq<char>> {
    match authors {
        Some(v) => strs_view(v@),
        None => match git_username {
            Some(g) => seq![g],
            None => seq![machine_username],
        },
    }
}

/// Returns the current username, as [`spec_username`] describes.
pub fn get_current_username(
    authors: &Option<Vec<String>>,
    git_username: &Option<String>,
    machine_username: &str,
) -> (r: String)
    requires
        old_authors_nonempty(*authors),
    ensures
        r@ == spec_username(*authors, opt_view(*git_username), machine_username@),
{
    match authors {
        Some(v) => v[0].clone(),
        None => match git_username {
            Some(g) => g.clone(),
            None => machine_username.to_owned(),
        },
    }
}

/// An author override, when given, names at least one author.
pub open spec fn old_authors_nonempty(authors: Option<Vec<String>>) -> bool {
    match authors {
        Some(v) => v@.len() > 0,
        None => true,
    }
}

/// Builds the manifest author list, as [`spec_authors`] describes.
pub fn get_authors(
    authors: &Option<Vec<String>>,
    git_username: &Option<String>,
    machine_username: &str,
) -> (r: Vec<String>)
    ensures
        strs_view(r@) =~= spec_authors(*authors, opt_view(*git_username), machine_username@),
{
    match authors {
        Some(v) => {
            let mut r: Vec<String> = Vec::new();
            let mut k: usize = 0;
            while k < v.len()
                invariant
                    0 <= k <= v@.len(),
                    strs_view(r@) =~= strs_view(v@.take(k as int)),
                decreases v@.len() - k,
            {
                let ghost prev = r@;
                r.push(v[k].clone());
                proof {
                    assert(strs_view(r@) =~= strs_view(prev).push(v@[k as int]@));
                    assert(strs_view(v@.take(k + 1 as int)) =~= strs_view(v@.take(k as int)).push(
                        v@[k as int]@,
                    ));
                }
                k = k + 1;
            }
            proof {
                assert(v@.take(v@.len() as int) =~= v@);
            }
            r
        },
        None => {
            let mut r: Vec<String> = Vec::new();
            match git_username {
                Some(g) => r.push(g.clone()),
                None => r.push(machine_username.to_owned()),
            }
            r
        },
    }
}

/// The view of a dependency list: (name, version) pairs.
pub open spec fn deps_view(s: Seq<(String, String)>) -> Seq<(Seq<char>, Seq<char>)> {
    s.map_values(|d: (String, String)| (d.0@, d.1@))
}

/// The view of a string list.
pub open spec fn strs_view(s: Seq<String>) -> Seq<Seq<char>> {
    s.map_values(|x: String| x@)
}

/// The default workspace dependencies, with their fallback versions.
pub open spec fn default_deps_spec() -> Seq<(Seq<char>, Seq<char>)> {
    seq![
        ("eyre"@, "0.6.8"@),
        ("inquire"@, "0.6.2"@),
        ("tracing"@, "0.1.39"@),
        ("serde"@, "1.0.189"@),
        ("serde_json"@, "1.0.107"@),
        ("tracing-subscriber"@, "0.3.17"@),
        ("clap"@, "4.4.3"@),
    ]
}

/// Lists the default dependencies, with their fallback versions.
pub fn default_dependencies() -> (r: Vec<(String, String)>)
    ensures
        deps_view(r@) =~= default_deps_spec(),
{
    let mut r: Vec<(String, String)> = Vec::new();
    r.push(("eyre".to_owned(), "0.6.8".to_owned()));
    r.push(("inquire".to_owned(), "0.6.2".to_owned()));
    r.push(("tracing".to_owned(), "0.1.39".to_owned()));
    r.push(("serde".to_owned(), "1.0.189".to_owned()));
    r.push(("serde_json".to_owned(), "1.0.107".to_owned()));
    r.push(("tracing-subscriber".to_owned(), "0.3.17".to_owned()));
    r.push(("clap".to_owned(), "4.4.3".to_owned()));
    r
}

/// The extra dependencies, each with the placeholder fallback version.
pub open spec fn override_deps_spec(overrides: Seq<Seq<char>>) -> Seq<(Seq<char>, Seq<char>)> {
    overrides.map_values(|n: Seq<char>| (n, "0.0.0"@))
}

/// The full dependency name list of a run: the defaults, then the user's
/// extra dependencies.
pub open spec fn combined_deps_spec(overrides: Option<Vec<String>>) -> Seq<(Seq<char>, Seq<char>)> {
    match overrides {
        Some(v) => default_deps_spec() + override_deps_spec(strs_view(v@)),
        None => default_deps_spec(),
    }
}

/// `base` with each version replaced by the fetched version where the
/// lookup succeeded, and left at the fallback where it failed.
pub open spec fn resolved_deps_spec(
    base: Seq<(Seq<char>, Seq<char>)>,
    fetched: Seq<Option<String>>,
) -> Seq<(Seq<char>, Seq<char>)> {
    Seq::new(
        base.len(),
        |i: int|
            (
                base[i].0,
                match fetched[i] {
                    Some(v) => v@,
                    None => base[i].1,
                },
            ),
    )
}

/// Appends the extra dependencies, each with the placeholder fallback
/// version, to a default dependency list.
pub fn with_overrides(base: Vec<(String, String)>, overrides: &Option<Vec<String>>) -> (r: Vec<
    (String, String),
>)
    ensures
        deps_view(r@) =~= deps_view(base@) + (match overrides {
            Some(v) => override_deps_spec(strs_view(v@)),
            None => Seq::<(Seq<char>, Seq<char>)>::empty(),
        }),
{
    let ghost base0 = deps_view(base@);
    let mut out = base;
    match overrides {
        Some(v) => {
            let mut k: usize = 0;
            while k < v.len()
                invariant
                    0 <= k <= v@.len(),
                    deps_view(out@) =~= base0 + override_deps_spec(strs_view(v@.take(k as int))),
                decreases v@.len() - k,
            {
                let ghost prev = out@;
                out.push((v[k].clone(), "0.0.0".to_owned()));
                proof {
                    assert(deps_view(out@) =~= deps_view(prev).push((v@[k as int]@, "0.0.0"@)));
                    assert(strs_view(v@.take(k + 1 as int)) =~= strs_view(v@.take(k as int)).push(
                        v@[k as int]@,
                    ));
                    assert(override_deps_spec(strs_view(v@.take(k + 1 as int))) =~=
                        override_deps_spec(strs_view(v@.take(k as int))).push((v@[k as int]@, "0.0.0"@)));
                }
                k = k + 1;
            }
            proof {
                assert(v@.take(v@.len() as int) =~= v@);
            }
        },
        None => {
            proof {
                assert(deps_view(out@) =~= base0 + Seq::<(Seq<char>, Seq<char>)>::empty());
            }
        },
    }
    out
}

/// Applies the fetched versions to a dependency list: each version becomes
/// the fetched one where the lookup succeeded, and stays at the fallback
/// where it failed.
pub fn apply_fetched(base: &Vec<(String, String)>, fetched: &Vec<Option<String>>) -> (r: Vec<
    (String, String),
>)
    requires
        fetched@.len() == base@.len(),
    ensures
        deps_view(r@) =~= resolved_deps_spec(deps_view(base@), fetched@),
{
    let ghost combined = deps_view(base@);
    let mut r: Vec<(String, String)> = Vec::new();
    let mut i: usize = 0;
    while i < base.len()
        invariant
            0 <= i <= base@.len(),
            combined == deps_view(base@),
            fetched@.len() == combined.len(),
            r@.len() == i,
            forall|j: int| 0 <= j < i ==> #[trigger] deps_view(r@)[j]
                == resolved_deps_spec(combined, fetched@)[j],
        decreases base@.len() - i,
    {
        let ghost prev = r@;
        let name = base[i].0.clone();
        let version = match &fetched[i] {
            Some(v) => v.clone(),
            None => base[i].1.clone(),
        };
        r.push((name, version));
        proof {
            assert(deps_view(base@)[i as int] == combined[i as int]);
            assert(deps_view(r@) =~= deps_view(prev).push(
                (combined[i as int].0, resolved_deps_spec(combined, fetched@)[i as int].1),
            ));
            assert(deps_view(r@)[i as int] == resolved_deps_spec(combined, fetched@)[i as int]);
            assert(forall|j: int| 0 <= j < i ==> #[trigger] deps_view(r@)[j] == deps_view(prev)[j]);
        }
        i = i + 1;
    }
    assert(deps_view(r@) =~= resolved_deps_spec(combined, fetched@));
    r
}

/// Builds the workspace dependency table: the defaults merged with the
/// user's extra dependencies, each version the fetched one where the lookup
/// succeeded and the bundled fallback otherwise.
pub fn add_workspace_deps(overrides: &Option<Vec<String>>, fetched: &Vec<Option<String>>) -> (r:
    Vec<(String, String)>)
    requires
        fetched@.len() == combined_deps_spec(*overrides).len(),
    ensures
        deps_view(r@) =~= resolved_deps_spec(combined_deps_spec(*overrides), fetched@),
{
    let base = with_overrides(default_dependencies(), overrides);
    assert(deps_view(base@) =~= combined_deps_spec(*overrides));
    apply_fetched(&base, fetched)
}

/// One rendered line of a dependency table.  The `clap` dependency alone is
/// rendered as an inline table with its `derive` feature.
pub open spec fn dep_line(name: Seq<char>, version: Seq<char>) -> Seq<char> {
    if name == "clap"@ {
        "clap = { version = \""@ + version + "\", features = [\"derive\"] }\n"@
    } else {
        name + " = \""@ + version + "\"\n"@
    }
}

/// The rendered lines of a dependency table, in order.
pub open spec fn dep_lines(deps: Seq<(Seq<char>, Seq<char>)>) -> Seq<char>
    decreases deps.len(),
{
    if deps.len() == 0 {
        Seq::<char>::empty()
    } else {
        dep_line(deps[0].0, deps[0].1) + dep_lines(deps.drop_first())
    }
}

/// The inside of a rendered string array: the items quoted, separated by
/// commas.
pub open spec fn quoted_list(items: Seq<Seq<char>>) -> Seq<char>
    decreases items.len(),
{
    if items.len() == 0 {
        Seq::<char>::empty()
    } else if items.len() == 1 {
        "\""@ + items[0] + "\""@
    } else {
        "\""@ + items[0] + "\", "@ + quoted_list(items.drop_first())
    }
}

/// Appends the rendered dependency table to `out`.
pub(crate) fn append_dep_lines(out: &mut String, deps: &Vec<(String, String)>)
    ensures
        final(out)@ == old(out)@ + dep_lines(deps_view(deps@)),
{
    let ghost full = deps_view(deps@);
    let clap = String::from_str("clap");
    let mut i: usize = 0;
    proof {
        assert(full.skip(0) =~= full);
    }
    while i < deps.len()
        invariant
            0 <= i <= deps@.len(),
            full == deps_view(deps@),
            clap@ == "clap"@,
            old(out)@ + dep_lines(full) == out@ + dep_lines(full.skip(i as int)),
        decreases deps@.len() - i,
    {
        proof {
            assert(full.skip(i as int)[0] == full[i as int]);
            assert(full.skip(i as int).drop_first() =~= full.skip(i + 1));
        }
        if deps[i].0 == clap {
            out.append("clap = { version = \"");
            out.append(deps[i].1.as_str());
            out.append("\", features = [\"derive\"] }\n");
        } else {
            out.append(deps[i].0.as_str());
            out.append(" = \"");
            out.append(deps[i].1.as_str());
            out.append("\"\n");
        }
        i = i + 1;
    }
    proof {
        assert(full.skip(deps@.len() as int) =~= Seq::<(Seq<char>, Seq<char>)>::empty());
    }
}

/// Appends the quoted, comma-separated items to `out`.
pub(crate) fn append_quoted_list(out: &mut String, items: &Vec<String>)
    ensures
        final(out)@ == old(out)@ + quoted_list(strs_view(items@)),
{
    let ghost full = strs_view(items@);
    let mut i: usize = 0;
    proof {
        assert(full.skip(0) =~= full);
    }
    while i < items.len()
        invariant
            0 <= i <= items@.len(),
            full == strs_view(items@),
            old(out)@ + quoted_list(full) == out@ + quoted_list(full.skip(i as int)),
        decreases items@.len() - i,
    {
        proof {
            assert(full.skip(i as int)[0] == full[i as int]);
            assert(full.skip(i as int).drop_first() =~= full.skip(i + 1));
        }
        out.append("\"");
        out.append(items[i].as_str());
        if i + 1 < items.len() {
            out.append("\", ");
        } else {
            out.append("\"");
        }
        i = i + 1;
    }
    proof {
        assert(full.skip(items@.len() as int) =~= Seq::<Seq<char>>::empty());
    }
}

/// The full text of the workspace manifest.
pub open spec fn workspace_manifest(
    name: Seq<char>,
    description: Seq<char>,
    authors: Seq<Seq<char>>,
    user: Seq<char>,
    deps: Seq<(Seq<char>, Seq<char>)>,
) -> Seq<char> {
    "[workspace]\nmembers = [\"bin/*\", \"crates/*\"]\nresolver = \"2\"\n\n[workspace.package]\nname = \""@
        + name + "\"\ndescription = \""@ + description
        + "\"\nversion = \"0.1.0\"\nedition = \"2021\"\nlicense = \"MIT\"\nauthors = ["@
        + quoted_list(authors) + "]\nrepository = \""@ + repository_url(user, name)
        + "\"\nhomepage = \""@ + repository_url(user, name)
        + "\"\nexclude = [\"**/target\", \"benches/\", \"tests\"]\n\n[workspace.dependencies]\n"@
        + dep_lines(deps)
        + "\n[profile.dev]\nopt-level = 1\noverflow-checks = false\n\n[profile.bench]\ndebug = true\n"@
}

/// Renders the workspace manifest contents: identity and packaging keys,
/// the author list, the repository and homepage URLs derived from the user
/// and project name, and the resolved dependency table.
pub fn fill_cargo(
    name: &str,
    description: &str,
    authors: &Vec<String>,
    user: &str,
    deps: &Vec<(String, String)>,
) -> (r: String)
    ensures
        r@ == workspace_manifest(name@, description@, strs_view(authors@), user@, deps_view(deps@)),
{
    let mut out = String::from_str(
        "[workspace]\nmembers = [\"bin/*\", \"crates/*\"]\nresolver = \"2\"\n\n[workspace.package]\nname = \"",
    );
    out.append(name);
    out.append("\"\ndescription = \"");
    out.append(description);
    out.append("\"\nversion = \"0.1.0\"\nedition = \"2021\"\nlicense = \"MIT\"\nauthors = [");
    append_quoted_list(&mut out, authors);
    out.append("]\nrepository = \"");
    let url = crate::git::build_repository_url(user, name);
    out.append(url.as_str());
    out.append("\"\nhomepage = \"");
    out.append(url.as_str());
    out.append("\"\nexclude = [\"**/target\", \"benches/\", \"tests\"]\n\n[workspace.dependencies]\n");
    append_dep_lines(&mut out, deps);
    out.append("\n[profile.dev]\nopt-level = 1\noverflow-checks = false\n\n[profile.bench]\ndebug = true\n");
    out
}

/// The bundled top-level readme template.
pub fn template_readme() -> (r: &'static str)
    ensures
        r@ == "# {projectname}\n\n{projectdescription}\n\nBuilt with love by {projectowner}.\n"@,
{
    "# {projectname}\n\n{projectdescription}\n\nBuilt with love by {projectowner}.\n"
}

/// The rendered top-level readme: the template with the project name,
/// description and owner filled in.
pub open spec fn readme_text(name: Seq<char>, description: Seq<char>, owner: Seq<char>) -> Seq<
    char,
> {
    "# "@ + name + "\n\n"@ + description + "\n\nBuilt with love by "@ + owner + ".\n"@
}

/// Renders the bundled readme template with the given values.
pub fn format_template_readme(project_name: &str, project_description: &str, project_owner: &str)
    -> (r: String)
    ensures
        r@ == readme_text(project_name@, project_description@, project_owner@),
{
    let mut out = String::from_str("# ");
    out.append(project_name);
    out.append("\n\n");
    out.append(project_description);
    out.append("\n\nBuilt with love by ");
    out.append(project_owner);
    out.append(".\n");
    out
}

/// What a configuration's description resolves to: the given description,
/// or `<name> workspace`.
pub open spec fn description_of(description: Option<String>, name: Seq<char>) -> Seq<char> {
    match description {
        Some(d) => d@,
        None => name + " workspace"@,
    }
}

/// The description used for the workspace: the override, or the default
/// derived from the project name.
pub fn resolve_description(description: &Option<String>, name: &str) -> (r: String)
    ensures
        r@ == description_of(*description, name@),
{
    match description {
        Some(d) => d.clone(),
        None => {
            let mut r = String::from_str(name);
            r.append(" workspace");
            r
        },
    }
}

/// The actions of the workspace root step: the readme (unless suppressed)
/// and the workspace manifest.
pub open spec fn root_actions(readme: Option<Seq<char>>, manifest: Seq<char>) -> Seq<ActionV> {
    match readme {
        Some(t) => seq![
            ActionV::WriteFile { path: "README.md"@, contents: t },
            ActionV::WriteFile { path: "Cargo.toml"@, contents: manifest },
        ],
        None => seq![ActionV::WriteFile { path: "Cargo.toml"@, contents: manifest }],
    }
}

/// The entries of the workspace root step.
pub open spec fn root_entries(without_readme: bool) -> Seq<(Seq<char>, NodeKind)> {
    if without_readme {
        seq![("Cargo.toml"@, NodeKind::File)]
    } else {
        seq![("README.md"@, NodeKind::File), ("Cargo.toml"@, NodeKind::File)]
    }
}

/// The workspace root step's actions create exactly the entries its
/// preview lists.
pub proof fn lemma_root_actions_entries(readme: Option<Seq<char>>, manifest: Seq<char>)
    ensures
        crate::plan::actions_entries(root_actions(readme, manifest)) =~= root_entries(
            readme is None,
        ),
{
    match readme {
        Some(t) => {
            crate::plan::lemma_actions_entries_list2(
                ActionV::WriteFile { path: "README.md"@, contents: t },
                ActionV::WriteFile { path: "Cargo.toml"@, contents: manifest },
            );
        },
        None => {
            crate::plan::lemma_actions_entries_singleton(
                ActionV::WriteFile { path: "Cargo.toml"@, contents: manifest },
            );
        },
    }
}

/// Plans the workspace root step: renders the readme (unless suppressed)
/// and the workspace manifest, and records their preview leaves.
pub fn create(
    plan: &mut Plan,
    name: &str,
    description: &Option<String>,
    without_readme: bool,
    authors: &Vec<String>,
    user: &str,
    deps: &Vec<(String, String)>,
) -> (manifest: String)
    requires
        old(plan).tree.balanced(),
    ensures
        manifest@ == workspace_manifest(
            name@,
            description_of(*description, name@),
            strs_view(authors@),
            user@,
            deps_view(deps@),
        ),
        actions_view(final(plan).actions@) =~= actions_view(old(plan).actions@) + root_actions(
            if without_readme {
                None
            } else {
                Some(
                    readme_text(
                        name@,
                        description_of(*description, name@),
                        user@,
                    ),
                )
            },
            manifest@,
        ),
        entries_view(final(plan).tree.entries@) =~= entries_view(old(plan).tree.entries@)
            + root_entries(without_readme),
        final(plan).tree.prefixes@ =~= old(plan).tree.prefixes@,
        old(plan).mirrors() ==> final(plan).mirrors(),
{
    let desc = resolve_description(description, name);
    if !without_readme {
        let readme = format_template_readme(name, desc.as_str(), user);
        plan.write_file("README.md", readme);
    }
    let manifest = fill_cargo(name, desc.as_str(), authors, user, deps);
    plan.write_file("Cargo.toml", manifest.clone());
    manifest
}

/// The version that registry search output reports for a package: a name
/// after a line break, ` = `, and a quoted version.
pub open spec fn is_line_start(s: Seq<char>, i: int) -> bool {
    i == 0 || s[i - 1] == '\n'
}

/// The first line start at or after `i` whose line begins with `p`, or the
/// length of `s` when there is none.
pub open spec fn find_dep_line(s: Seq<char>, p: Seq<char>, i: int) -> int
    decreases s.len() - i
        when 0 <= i <= s.len()
{
    if i >= s.len() {
        s.len() as int
    } else if is_line_start(s, i) && match_at(s, i, p) {
        i
    } else {
        find_dep_line(s, p, i + 1)
    }
}

/// A position that opens no matching line can be skipped in the search.
proof fn lemma_find_dep_line_step(s: Seq<char>, p: Seq<char>, i: int)
    requires
        0 <= i < s.len(),
        !(is_line_start(s, i) && match_at(s, i, p)),
    ensures
        find_dep_line(s, p, i) == find_dep_line(s, p, i + 1),
{
}

/// The prefix that announces a package's line in registry search output.
pub open spec fn dep_prefix(name: Seq<char>) -> Seq<char> {
    name + " = "@
}

/// The version that the registry search output reports for `name`: on the
/// first line that starts with `name = `, the text between the opening
/// quote and the next quote (or the line's end); none when no such line or
/// no opening quote follows the prefix.
pub open spec fn parsed_version(s: Seq<char>, name: Seq<char>) -> Option<Seq<char>> {
    let p = dep_prefix(name);
    let j = find_dep_line(s, p, 0);
    if j == s.len() {
        None
    } else if j + p.len() < s.len() && s[j + p.len()] == '"' {
        let start = j + p.len() + 1;
        let nl = first_index_from(s, start, '\n');
        let q = first_index_from(s, start, '"');
        Some(s.subrange(start, if q < nl { q } else { nl }))
    } else {
        None
    }
}

/// Parses the version for `name` out of registry search output, as
/// [`parsed_version`] describes.
pub fn parse_fetched_version(output: &str, name: &str) -> (r: Option<String>)
    ensures
        match parsed_version(output@, name@) {
            Some(v) => r matches Some(x) && x@ == v,
            None => r is None,
        },
{
    let mut p = String::from_str(name);
    p.append(" = ");
    let ghost pv = dep_prefix(name@);
    assert(p@ == pv);
    let total = output.unicode_len();
    let mut j: usize = 0;
    while j < total
        invariant
            0 <= j <= total,
            total == output@.len(),
            p@ == pv,
            pv == dep_prefix(name@),
            find_dep_line(output@, pv, 0) == find_dep_line(output@, pv, j as int),
        decreases total - j,
    {
        let at_start = j == 0 || output.get_char(j - 1) == '\n';
        if at_start && matches_at(output, j, p.as_str()) {
            proof {
                assert(find_dep_line(output@, pv, j as int) == j as int);
            }
            let plen = p.unicode_len();
            assert(j + plen <= total);
            if j + plen < total && output.get_char(j + plen) == '"' {
                let start = j + plen + 1;
                let nl = find_char_from(output, start, '\n');
                let q = find_char_from(output, start, '"');
                proof {
                    crate::textscan::lemma_first_index_spec(output@, start as int, '\n');
                    crate::textscan::lemma_first_index_spec(output@, start as int, '"');
                }
                let end = if q < nl {
                    q
                } else {
                    nl
                };
                proof {
                    assert(find_dep_line(output@, dep_prefix(name@), 0) == j as int);
                    assert(start <= end <= total);
                    assert(parsed_version(output@, name@) is Some);
                    assert(parsed_version(output@, name@)->Some_0 == output@.subrange(
                        start as int,
                        end as int,
                    ));
                }
                let v = output.substring_char(start, end);
                return Some(v.to_owned());
            } else {
                assert(parsed_version(output@, name@) is None);
                return None;
            }
        }
        proof {
            lemma_find_dep_line_step(output@, pv, j as int);
        }
        j = j + 1;
    }
    proof {
        assert(find_dep_line(output@, pv, total as int) == total as int);
        assert(parsed_version(output@, name@) is None);
    }
    None
}

/// Names the result of `regex::Regex::replace_all` on a manifest string
/// with the fixed table-key pattern: it depends on the string alone.
pub uninterp spec fn unquoted_tables(s: Seq<char>) -> Seq<char>;

/// Relies on `regex::Regex::replace_all` with the fixed pattern
/// `\["(.*\..*)"\]`, which rewrites each match to the captured key between
/// plain brackets; the result is a function of the input string alone.
#[verifier::external_body]
fn strip_table_quotes(s: &str) -> (r: String)
    ensures
        r@ == unquoted_tables(s@),
{
    let re = regex::Regex::new(r#"\["(.*\..*)"\]"#).unwrap();
    let result = re.replace_all(s, |caps: &regex::Captures<'_>| format!("[{}]", &caps[1]));
    result.to_string()
}

/// Removes quotes from dotted manifest table keys, so that
/// `["workspace.package"]` renders as `[workspace.package]`.  The
/// [`fill_cargo`] renderer writes dotted table headers plainly and needs no
/// such pass; this cleans manifests produced by editors that quote them.
pub fn remove_table_quotes(s: String) -> (r: String)
    ensures
        r@ == unquoted_tables(s@),
{
    strip_table_quotes(s.as_str())
}

} // verus!
