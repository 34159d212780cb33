//! The library sub-crate generation step of workspace mode.
//!
//! Creates `crates/<name>` with a manifest that inherits the workspace's
//! packaging keys and a minimal library source file.

use vstd::prelude::*;
use crate::plan::{ActionV, Plan, actions_view};
use crate::preview::{NodeKind, entries_view, joined};

verus! {

/// The manifest of a workspace-member library crate.
pub open spec fn lib_member_manifest(name: Seq<char>) -> Seq<char> {
    "[package]\nname = \""@ + name + "\"\ndescription = \""@ + name
        + " crate\"\nversion = { workspace = true }\nedition = { workspace = true }\nauthors = { workspace = true }\nlicense = { workspace = true }\nrepository = { workspace = true }\nhomepage = { workspace = true }\n\n[dependencies]\nserde = { workspace = true }\nserde_json = { workspace = true }\nanyhow = { workspace = true }\ntracing = { workspace = true }\n"@
}

/// The starter source of a generated library crate.
pub open spec fn lib_stub() -> Seq<char> {
    "//! Common library for the workspace.\n\n/// Adds two numbers together.\npub fn add(left: usize, right: usize) -> usize {\n    left + right\n}\n"@
}

/// Returns the lib contents: the starter source of a generated library
/// crate.
pub fn lib_contents() -> (r: &'static str)
    ensures
        r@ == lib_stub(),
{
    "//! Common library for the workspace.\n\n/// Adds two numbers together.\npub fn add(left: usize, right: usize) -> usize {\n    left + right\n}\n"
}

/// Renders the manifest of a workspace-member library crate.
pub fn fill_cargo(name: &str) -> (r: String)
    ensures
        r@ == lib_member_manifest(name@),
{
    let mut out = String::from_str("[package]\nname = \"");
    out.append(name);
    out.append("\"\ndescription = \"");
    out.append(name);
    out.append(
        " crate\"\nversion = { workspace = true }\nedition = { workspace = true }\nauthors = { workspace = true }\nlicense = { workspace = true }\nrepository = { workspace = true }\nhomepage = { workspace = true }\n\n[dependencies]\nserde = { workspace = true }\nserde_json = { workspace = true }\nanyhow = { workspace = true }\ntracing = { workspace = true }\n",
    );
    out
}

/// The entries of the library sub-crate step.
pub open spec fn libs_entries(name: Seq<char>) -> Seq<(Seq<char>, NodeKind)> {
    seq![
        ("crates"@, NodeKind::Dir),
        (joined("crates"@, name), NodeKind::Dir),
        (joined(joined("crates"@, name), "Cargo.toml"@), NodeKind::File),
        (joined(joined("crates"@, name), "src"@), NodeKind::Dir),
        (joined(joined(joined("crates"@, name), "src"@), "lib.rs"@), NodeKind::File),
    ]
}

/// The actions of the library sub-crate step.
pub open spec fn libs_actions(name: Seq<char>) -> Seq<ActionV> {
    seq![
        ActionV::MkDir { path: "crates"@ },
        ActionV::MkDir { path: joined("crates"@, name) },
        ActionV::WriteFile {
            path: joined(joined("crates"@, name), "Cargo.toml"@),
            contents: lib_member_manifest(name),
        },
        ActionV::MkDir { path: joined(joined("crates"@, name), "src"@) },
        ActionV::WriteFile {
            path: joined(joined(joined("crates"@, name), "src"@), "lib.rs"@),
            contents: lib_stub(),
        },
    ]
}

/// The library sub-crate step's actions create exactly the entries its
/// preview lists.
pub proof fn lemma_libs_actions_entries(name: Seq<char>)
    ensures
        crate::plan::actions_entries(libs_actions(name)) =~= libs_entries(name),
{
    reveal_strlit("crates");
    let s = libs_actions(name);
    crate::plan::lemma_actions_entries_list5(s[0], s[1], s[2], s[3], s[4]);
    assert(s =~= seq![s[0], s[1], s[2], s[3], s[4]]);
}

/// Plans the library sub-crate: `crates/<name>/Cargo.toml` and
/// `crates/<name>/src/lib.rs`, with the directories that hold them.
pub fn create(plan: &mut Plan, name: &str)
    requires
        old(plan).tree.balanced(),
        name@.len() > 0,
    ensures
        actions_view(final(plan).actions@) =~= actions_view(old(plan).actions@) + libs_actions(
            name@,
        ),
        entries_view(final(plan).tree.entries@) =~= entries_view(old(plan).tree.entries@)
            + libs_entries(name@),
        final(plan).tree.balanced(),
        old(plan).mirrors() ==> final(plan).mirrors(),
{
    proof {
        reveal_strlit("crates");
        reveal_strlit("src");
    }
    plan.enter_dir("crates");
    plan.enter_dir(name);
    plan.write_file("Cargo.toml", fill_cargo(name));
    plan.enter_dir("src");
    plan.write_file("lib.rs", String::from_str(lib_contents()));
    plan.leave_dir();
    plan.leave_dir();
    plan.leave_dir();
}

} // verus!
