//! The binary sub-crate generation step of workspace mode.
//!
//! Creates `bin/<name>` with a manifest that inherits the workspace's
//! packaging keys, depends on the shared library crate by a relative path,
//! and a minimal entrypoint stub.

use vstd::prelude::*;
use crate::plan::{ActionV, Plan, actions_view};
use crate::preview::{NodeKind, entries_view, joined};

verus! {

/// The manifest of a workspace-member binary crate.
pub open spec fn bin_member_manifest(name: Seq<char>) -> Seq<char> {
    "[package]\nname = \""@ + name + "\"\ndescription = \""@ + name
        + " cli binary\"\nversion = { workspace = true }\nedition = { workspace = true }\nauthors = { workspace = true }\nlicense = { workspace = true }\nrepository = { workspace = true }\nhomepage = { workspace = true }\n\n[dependencies]\ncommon = { path = \"../../crates/common\" }\nclap = { workspace = true }\nanyhow = { workspace = true }\ninquire = { workspace = true }\ntracing = { workspace = true }\ntracing-subscriber = { workspace = true }\n"@
}

/// The entrypoint stub of a generated binary crate.
pub open spec fn main_stub() -> Seq<char> {
    "fn main() {\n    println!(\"Hello World!\");\n}\n"@
}

/// The entrypoint stub of a generated binary crate.
pub fn main_stub_text() -> (r: &'static str)
    ensures
        r@ == main_stub(),
{
    "fn main() {\n    println!(\"Hello World!\");\n}\n"
}

/// Renders the manifest of a workspace-member binary crate.
pub fn fill_cargo(name: &str) -> (r: String)
    ensures
        r@ == bin_member_manifest(name@),
{
    let mut out = String::from_str("[package]\nname = \"");
    out.append(name);
    out.append("\"\ndescription = \"");
    out.append(name);
    out.append(
        " cli binary\"\nversion = { workspace = true }\nedition = { workspace = true }\nauthors = { workspace = true }\nlicense = { workspace = true }\nrepository = { workspace = true }\nhomepage = { workspace = true }\n\n[dependencies]\ncommon = { path = \"../../crates/common\" }\nclap = { workspace = true }\nanyhow = { workspace = true }\ninquire = { workspace = true }\ntracing = { workspace = true }\ntracing-subscriber = { workspace = true }\n",
    );
    out
}

/// The entries of the binary sub-crate step: the `bin` directory, the crate
/// directory, its manifest, its `src` directory, and the entrypoint.
pub open spec fn bins_entries(name: Seq<char>) -> Seq<(Seq<char>, NodeKind)> {
    seq![
        ("bin"@, NodeKind::Dir),
        (joined("bin"@, name), NodeKind::Dir),
        (joined(joined("bin"@, name), "Cargo.toml"@), NodeKind::File),
        (joined(joined("bin"@, name), "src"@), NodeKind::Dir),
        (joined(joined(joined("bin"@, name), "src"@), "main.rs"@), NodeKind::File),
    ]
}

/// The actions of the binary sub-crate step.
pub open spec fn bins_actions(name: Seq<char>) -> Seq<ActionV> {
    seq![
        ActionV::MkDir { path: "bin"@ },
        ActionV::MkDir { path: joined("bin"@, name) },
        ActionV::WriteFile {
            path: joined(joined("bin"@, name), "Cargo.toml"@),
            contents: bin_member_manifest(name),
        },
        ActionV::MkDir { path: joined(joined("bin"@, name), "src"@) },
        ActionV::WriteFile {
            path: joined(joined(joined("bin"@, name), "src"@), "main.rs"@),
            contents: main_stub(),
        },
    ]
}

/// The binary sub-crate step's actions create exactly the entries its
/// preview lists.
pub proof fn lemma_bins_actions_entries(name: Seq<char>)
    ensures
        crate::plan::actions_entries(bins_actions(name)) =~= bins_entries(name),
{
    reveal_strlit("bin");
    let s = bins_actions(name);
    crate::plan::lemma_actions_entries_list5(s[0], s[1], s[2], s[3], s[4]);
    assert(s =~= seq![s[0], s[1], s[2], s[3], s[4]]);
}

/// Plans the binary sub-crate: `bin/<name>/Cargo.toml` and
/// `bin/<name>/src/main.rs`, with the directories that hold them.
pub fn create(plan: &mut Plan, name: &str)
    requires
        old(plan).tree.balanced(),
        name@.len() > 0,
    ensures
        actions_view(final(plan).actions@) =~= actions_view(old(plan).actions@) + bins_actions(
            name@,
        ),
        entries_view(final(plan).tree.entries@) =~= entries_view(old(plan).tree.entries@)
            + bins_entries(name@),
        final(plan).tree.balanced(),
        old(plan).mirrors() ==> final(plan).mirrors(),
{
    proof {
        reveal_strlit("bin");
        reveal_strlit("src");
    }
    plan.enter_dir("bin");
    plan.enter_dir(name);
    plan.write_file("Cargo.toml", fill_cargo(name));
    plan.enter_dir("src");
    plan.write_file("main.rs", String::from_str(main_stub_text()));
    plan.leave_dir();
    plan.leave_dir();
    plan.leave_dir();
}

} // verus!
