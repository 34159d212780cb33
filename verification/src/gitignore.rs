//! The gitignore generation step.
//!
//! The step appends the bundled gitignore template to the target directory's
//! `.gitignore` file.  Unlike every other step, which creates or overwrites,
//! this step appends: running it twice against the same directory leaves the
//! template in the file twice, which [`lemma_gitignore_append_doubles`]
//! states against the filesystem model.

use vstd::prelude::*;
use crate::plan::{ActionV, FileV, FsModel, Plan, actions_view, apply_actions};
use crate::preview::{NodeKind, entries_view};

verus! {

/// Names the gitignore template of a language: what the `Display` impl of
/// `gitignores::Root` prints for the variant of that name.  The text is a
/// fixed literal per variant, so it depends on the language alone.
pub uninterp spec fn gitignore_template(lang: Seq<char>) -> Seq<char>;

/// Relies on the `Display` impl of `gitignores::Root`, which prints a fixed
/// template per variant; the `Rust` template is a non-empty literal.
#[verifier::external_body]
fn rust_gitignore_text() -> (r: String)
    ensures
        r@ == gitignore_template("Rust"@),
        r@.len() > 0,
{
    gitignores::Root::Rust.to_string()
}

/// The bundled gitignore template: the fixed `Rust` template of the
/// template capability, a non-empty text.
pub fn default_contents() -> (r: String)
    ensures
        r@ == gitignore_template("Rust"@),
        r@.len() > 0,
{
    rust_gitignore_text()
}

/// The single action of the gitignore step: append `contents` to the
/// `.gitignore` file of the target directory.
pub open spec fn gitignore_actions(contents: Seq<char>) -> Seq<ActionV> {
    seq![ActionV::AppendFile { path: ".gitignore"@, contents }]
}

/// The gitignore step's action creates exactly the entry its preview lists.
pub proof fn lemma_gitignore_actions_entries(contents: Seq<char>)
    ensures
        crate::plan::actions_entries(gitignore_actions(contents)) =~= seq![
            (".gitignore"@, crate::preview::NodeKind::File),
        ],
{
    crate::plan::lemma_actions_entries_singleton(
        ActionV::AppendFile { path: ".gitignore"@, contents },
    );
}

/// Plans the gitignore step with the given contents: one append to
/// `.gitignore` and the matching preview leaf.
pub fn create(plan: &mut Plan, contents: String)
    requires
        old(plan).tree.balanced(),
    ensures
        actions_view(final(plan).actions@) =~= actions_view(old(plan).actions@)
            + gitignore_actions(contents@),
        entries_view(final(plan).tree.entries@) =~= entries_view(old(plan).tree.entries@).push(
            ((".gitignore"@, NodeKind::File)),
        ),
        final(plan).tree.prefixes@ =~= old(plan).tree.prefixes@,
        old(plan).mirrors() ==> final(plan).mirrors(),
{
    plan.append_file(".gitignore", contents);
}

/// Plans the gitignore step with the bundled template: the appended
/// contents are exactly the fixed `Rust` template, so two runs of this step
/// append the same non-empty text twice.
pub fn create_default(plan: &mut Plan)
    requires
        old(plan).tree.balanced(),
    ensures
        actions_view(final(plan).actions@) =~= actions_view(old(plan).actions@)
            + gitignore_actions(gitignore_template("Rust"@)),
        gitignore_template("Rust"@).len() > 0,
        entries_view(final(plan).tree.entries@) =~= entries_view(old(plan).tree.entries@).push(
            ((".gitignore"@, NodeKind::File)),
        ),
        final(plan).tree.prefixes@ =~= old(plan).tree.prefixes@,
        old(plan).mirrors() ==> final(plan).mirrors(),
{
    let contents = rust_gitignore_text();
    create(plan, contents);
}

/// Law (idempotence boundary): planning the gitignore step against a
/// directory without a `.gitignore` and applying it leaves the template in
/// the file once; applying the same step again leaves it twice, so the file
/// length is exactly twice the single-run length.  Every other step
/// overwrites instead.  [`create_default`] appends the fixed
/// `gitignore_template` both times, so the law covers the bundled step as
/// it stands.
pub proof fn lemma_gitignore_append_doubles(fs: FsModel, contents: Seq<char>)
    requires
        !fs.files.contains_key(".gitignore"@),
    ensures
        ({
            let fs1 = apply_actions(fs, gitignore_actions(contents));
            let fs2 = apply_actions(fs1, gitignore_actions(contents));
            &&& fs1.files[".gitignore"@] == FileV::Text(contents)
            &&& fs2.files[".gitignore"@] == FileV::Text(contents + contents)
            &&& (contents + contents).len() == 2 * contents.len()
        }),
{
    reveal_with_fuel(apply_actions, 3);
    let s = gitignore_actions(contents);
    assert(s.drop_first() =~= Seq::<ActionV>::empty());
    let fs1 = apply_actions(fs, s);
    let fs2 = apply_actions(fs1, s);
    assert(fs1 == crate::plan::apply_action(fs, s[0]));
    assert(fs1.files[".gitignore"@] == FileV::Text(contents));
    assert(fs2 == crate::plan::apply_action(fs1, s[0]));
    assert(fs2.files[".gitignore"@] == FileV::Text(contents + contents));
}

} // verus!
