//! The generation plan.
//!
//! Every generation step contributes plain filesystem actions to a [`Plan`]
//! and, in lockstep, preview entries to the plan's [`PreviewTree`].  The plan
//! is pure data: executing the actions against a real directory is left to
//! the caller, which is what makes a dry run trivially safe.  All paths are
//! `/`-separated and relative to the target directory; the empty path names
//! the target directory itself.
//!
//! A ghost filesystem model, [`FsModel`], gives the meaning of a plan: what
//! each action does to a directory tree.  The append-twice law of the
//! gitignore step is stated against this model.

use vstd::prelude::*;
use crate::preview::{NodeKind, PathEntry, PreviewTree, entries_view, joined};

verus! {

/// One planned filesystem action.
#[derive(Debug, Clone, PartialEq)]
pub enum Action {
    /// Create a directory and any missing parents.
    MkDir {
        /// The directory to create.
        path: String,
    },
    /// Create a file with the given contents, overwriting an existing file.
    WriteFile {
        /// The file to write.
        path: String,
        /// The full contents.
        contents: String,
    },
    /// Overwrite a file that an earlier action of the same plan has already
    /// created, so it adds no entry of its own.
    FillFile {
        /// The file to fill.
        path: String,
        /// The full contents.
        contents: String,
    },
    /// Append to a file, creating it when absent.
    AppendFile {
        /// The file to append to.
        path: String,
        /// The appended contents.
        contents: String,
    },
    /// Copy an outside file (an absolute or caller-relative source) into the
    /// target directory.
    CopyFile {
        /// The source, as given by the user.
        from: String,
        /// The destination inside the target directory.
        to: String,
    },
    /// Initialize a binary crate in the given directory, as the toolchain's
    /// project initializer does: a manifest, a `src` directory and an
    /// entrypoint stub.
    InitBinCrate {
        /// The directory of the new crate.
        path: String,
    },
    /// Initialize a library crate in the given directory.
    InitLibCrate {
        /// The directory of the new crate.
        path: String,
    },
    /// Download an asset and store it in the target directory.
    FetchAsset {
        /// The source URL.
        url: String,
        /// The destination inside the target directory.
        path: String,
    },
}

/// The ghost view of an [`Action`].
pub enum ActionV {
    /// See [`Action::MkDir`].
    MkDir { path: Seq<char> },
    /// See [`Action::WriteFile`].
    WriteFile { path: Seq<char>, contents: Seq<char> },
    /// See [`Action::FillFile`].
    FillFile { path: Seq<char>, contents: Seq<char> },
    /// See [`Action::AppendFile`].
    AppendFile { path: Seq<char>, contents: Seq<char> },
    /// See [`Action::CopyFile`].
    CopyFile { from: Seq<char>, to: Seq<char> },
    /// See [`Action::InitBinCrate`].
    InitBinCrate { path: Seq<char> },
    /// See [`Action::InitLibCrate`].
    InitLibCrate { path: Seq<char> },
    /// See [`Action::FetchAsset`].
    FetchAsset { url: Seq<char>, path: Seq<char> },
}

impl View for Action {
    type V = ActionV;

    open spec fn view(&self) -> ActionV {
        match self {
            Action::MkDir { path } => ActionV::MkDir { path: path@ },
            Action::WriteFile { path, contents } => ActionV::WriteFile {
                path: path@,
                contents: contents@,
            },
            Action::FillFile { path, contents } => ActionV::FillFile {
                path: path@,
                contents: contents@,
            },
            Action::AppendFile { path, contents } => ActionV::AppendFile {
                path: path@,
                contents: contents@,
            },
            Action::CopyFile { from, to } => ActionV::CopyFile { from: from@, to: to@ },
            Action::InitBinCrate { path } => ActionV::InitBinCrate { path: path@ },
            Action::InitLibCrate { path } => ActionV::InitLibCrate { path: path@ },
            Action::FetchAsset { url, path } => ActionV::FetchAsset { url: url@, path: path@ },
        }
    }
}

/// The ghost view of an action sequence.
pub open spec fn actions_view(s: Seq<Action>) -> Seq<ActionV> {
    s.map_values(|a: Action| a@)
}

/// `p` followed by `/` and `name`, or `name` alone when `p` is the target
/// directory itself.
pub open spec fn under(p: Seq<char>, name: Seq<char>) -> Seq<char> {
    crate::preview::joined(p, name)
}

/// The directory and file entries one action creates, relative to the target
/// directory, in creation order.  Filling a file that the same plan already
/// created adds nothing.
pub open spec fn action_entries(a: ActionV) -> Seq<(Seq<char>, NodeKind)> {
    match a {
        ActionV::MkDir { path } => if path.len() == 0 {
            seq![]
        } else {
            seq![(path, NodeKind::Dir)]
        },
        ActionV::WriteFile { path, .. } => seq![(path, NodeKind::File)],
        ActionV::FillFile { .. } => seq![],
        ActionV::AppendFile { path, .. } => seq![(path, NodeKind::File)],
        ActionV::CopyFile { to, .. } => seq![(to, NodeKind::File)],
        ActionV::InitBinCrate { path } => seq![
            (under(path, "Cargo.toml"@), NodeKind::File),
            (under(path, "src"@), NodeKind::Dir),
            (under(path, "src/main.rs"@), NodeKind::File),
        ],
        ActionV::InitLibCrate { path } => seq![
            (under(path, "Cargo.toml"@), NodeKind::File),
            (under(path, "src"@), NodeKind::Dir),
            (under(path, "src/lib.rs"@), NodeKind::File),
        ],
        ActionV::FetchAsset { path, .. } => seq![(path, NodeKind::File)],
    }
}

/// The entries a whole action sequence creates, in order.
pub open spec fn actions_entries(s: Seq<ActionV>) -> Seq<(Seq<char>, NodeKind)>
    decreases s.len(),
{
    if s.len() == 0 {
        seq![]
    } else {
        action_entries(s[0]) + actions_entries(s.drop_first())
    }
}

/// Appending one action appends its entries.
pub proof fn lemma_actions_entries_push(s: Seq<ActionV>, a: ActionV)
    ensures
        actions_entries(s.push(a)) =~= actions_entries(s) + action_entries(a),
    decreases s.len(),
{
    if s.len() == 0 {
        assert(s.push(a)[0] == a);
        assert(s.push(a).drop_first() =~= Seq::<ActionV>::empty());
        assert(actions_entries(Seq::<ActionV>::empty()) =~= Seq::<(Seq<char>, NodeKind)>::empty());
        assert(actions_entries(s.push(a)) =~= action_entries(a) + actions_entries(
            Seq::<ActionV>::empty(),
        ));
        assert(actions_entries(s.push(a)) =~= action_entries(a));
    } else {
        assert(s.push(a)[0] == s[0]);
        assert(s.push(a).drop_first() =~= s.drop_first().push(a));
        lemma_actions_entries_push(s.drop_first(), a);
        assert(actions_entries(s.push(a)) =~= action_entries(s[0]) + (actions_entries(
            s.drop_first(),
        ) + action_entries(a)));
        assert(action_entries(s[0]) + (actions_entries(s.drop_first()) + action_entries(a)) =~= (
        action_entries(s[0]) + actions_entries(s.drop_first())) + action_entries(a));
    }
}

/// The entries of concatenated action sequences concatenate.
pub proof fn lemma_actions_entries_concat(a: Seq<ActionV>, b: Seq<ActionV>)
    ensures
        actions_entries(a + b) =~= actions_entries(a) + actions_entries(b),
    decreases a.len(),
{
    if a.len() == 0 {
        assert(a + b =~= b);
        assert(actions_entries(a) =~= Seq::<(Seq<char>, NodeKind)>::empty());
    } else {
        assert((a + b)[0] == a[0]);
        assert((a + b).len() > 0);
        assert((a + b).drop_first() =~= a.drop_first() + b);
        lemma_actions_entries_concat(a.drop_first(), b);
        assert(actions_entries(a + b) =~= action_entries(a[0]) + (actions_entries(a.drop_first())
            + actions_entries(b)));
        assert(action_entries(a[0]) + (actions_entries(a.drop_first()) + actions_entries(b)) =~= (
        action_entries(a[0]) + actions_entries(a.drop_first())) + actions_entries(b));
    }
}

/// The entries of a single action.
pub proof fn lemma_actions_entries_singleton(a: ActionV)
    ensures
        actions_entries(seq![a]) =~= action_entries(a),
{
    assert(seq![a].drop_first() =~= Seq::<ActionV>::empty());
    assert(actions_entries(seq![a]) =~= action_entries(a) + actions_entries(
        Seq::<ActionV>::empty(),
    ));
}

/// The entries of a two-action sequence.
pub proof fn lemma_actions_entries_list2(a0: ActionV, a1: ActionV)
    ensures
        actions_entries(seq![a0, a1]) =~= action_entries(a0) + action_entries(a1),
{
    assert(seq![a0, a1] =~= seq![a0] + seq![a1]);
    lemma_actions_entries_singleton(a0);
    lemma_actions_entries_singleton(a1);
    lemma_actions_entries_concat(seq![a0], seq![a1]);
}

/// The entries of a three-action sequence.
pub proof fn lemma_actions_entries_list3(a0: ActionV, a1: ActionV, a2: ActionV)
    ensures
        actions_entries(seq![a0, a1, a2]) =~= action_entries(a0) + action_entries(a1)
            + action_entries(a2),
{
    assert(seq![a0, a1, a2] =~= seq![a0, a1] + seq![a2]);
    lemma_actions_entries_list2(a0, a1);
    lemma_actions_entries_singleton(a2);
    lemma_actions_entries_concat(seq![a0, a1], seq![a2]);
}

/// The entries of a five-action sequence.
pub proof fn lemma_actions_entries_list5(a0: ActionV, a1: ActionV, a2: ActionV, a3: ActionV, a4: ActionV)
    ensures
        actions_entries(seq![a0, a1, a2, a3, a4]) =~= action_entries(a0) + action_entries(a1)
            + action_entries(a2) + action_entries(a3) + action_entries(a4),
{
    assert(seq![a0, a1, a2, a3, a4] =~= seq![a0, a1, a2] + seq![a3, a4]);
    lemma_actions_entries_list3(a0, a1, a2);
    lemma_actions_entries_list2(a3, a4);
    lemma_actions_entries_concat(seq![a0, a1, a2], seq![a3, a4]);
    assert(actions_entries(seq![a0, a1, a2, a3, a4]) =~= (action_entries(a0) + action_entries(a1)
        + action_entries(a2)) + (action_entries(a3) + action_entries(a4)));
}

/// The entries of a seven-action sequence.
pub proof fn lemma_actions_entries_list7(
    a0: ActionV,
    a1: ActionV,
    a2: ActionV,
    a3: ActionV,
    a4: ActionV,
    a5: ActionV,
    a6: ActionV,
)
    ensures
        actions_entries(seq![a0, a1, a2, a3, a4, a5, a6]) =~= action_entries(a0) + action_entries(
            a1,
        ) + action_entries(a2) + action_entries(a3) + action_entries(a4) + action_entries(a5)
            + action_entries(a6),
{
    assert(seq![a0, a1, a2, a3, a4, a5, a6] =~= seq![a0, a1, a2, a3, a4] + seq![a5, a6]);
    lemma_actions_entries_list5(a0, a1, a2, a3, a4);
    lemma_actions_entries_list2(a5, a6);
    lemma_actions_entries_concat(seq![a0, a1, a2, a3, a4], seq![a5, a6]);
    assert(actions_entries(seq![a0, a1, a2, a3, a4, a5, a6]) =~= (action_entries(a0)
        + action_entries(a1) + action_entries(a2) + action_entries(a3) + action_entries(a4)) + (
    action_entries(a5) + action_entries(a6)));
}

/// A generation plan: the actions to perform and the preview tree that
/// mirrors them.
#[derive(Debug, Clone, PartialEq)]
pub struct Plan {
    /// The planned actions, in execution order.
    pub actions: Vec<Action>,
    /// The preview tree built alongside the actions.
    pub tree: PreviewTree,
}

impl Plan {
    /// The preview and the actions list exactly the same entries: what the
    /// tree shows is what a real run creates, in the same order.
    pub open spec fn mirrors(&self) -> bool {
        actions_entries(actions_view(self.actions@)) =~= entries_view(self.tree.entries@)
    }

    /// An empty plan.
    pub fn new() -> (r: Self)
        ensures
            r.actions@ =~= Seq::<Action>::empty(),
            r.tree.entries@ =~= Seq::<PathEntry>::empty(),
            r.tree.rows@ =~= Seq::<crate::preview::PreviewRow>::empty(),
            r.tree.balanced(),
            r.mirrors(),
    {
        let r = Plan { actions: Vec::new(), tree: PreviewTree::new() };
        proof {
            assert(actions_view(r.actions@) =~= Seq::<ActionV>::empty());
        }
        r
    }

    /// Plans creating the target directory itself, which the preview tree
    /// shows as its root: an action without an entry of its own.
    pub fn ensure_root(&mut self)
        ensures
            actions_view(final(self).actions@) =~= actions_view(old(self).actions@).push(
                ActionV::MkDir { path: Seq::<char>::empty() },
            ),
            final(self).tree == old(self).tree,
            old(self).mirrors() ==> final(self).mirrors(),
    {
        let ghost old_actions = actions_view(self.actions@);
        self.actions.push(Action::MkDir { path: String::new() });
        proof {
            lemma_actions_view_push(old(self).actions@, self.actions@[self.actions@.len() - 1]);
            lemma_actions_entries_push(old_actions, ActionV::MkDir { path: Seq::<char>::empty() });
            assert(action_entries(ActionV::MkDir { path: Seq::<char>::empty() })
                =~= Seq::<(Seq<char>, NodeKind)>::empty());
            assert(actions_entries(old_actions.push(ActionV::MkDir { path: Seq::<char>::empty() }))
                =~= actions_entries(old_actions));
        }
    }

    /// Plans a directory: a `MkDir` action and a preview branch, which
    /// becomes current.
    pub fn enter_dir(&mut self, name: &str)
        requires
            name@.len() > 0,
        ensures
            actions_view(final(self).actions@) =~= actions_view(old(self).actions@).push(
                ActionV::MkDir { path: joined(old(self).tree.cur_prefix(), name@) },
            ),
            entries_view(final(self).tree.entries@) =~= entries_view(old(self).tree.entries@).push(
                (joined(old(self).tree.cur_prefix(), name@), NodeKind::Dir),
            ),
            final(self).tree.prefixes@.len() == old(self).tree.prefixes@.len() + 1,
            final(self).tree.cur_prefix() == joined(old(self).tree.cur_prefix(), name@),
            final(self).tree.prefixes@.drop_last() =~= old(self).tree.prefixes@,
            old(self).mirrors() ==> final(self).mirrors(),
    {
        let ghost old_entries = entries_view(self.tree.entries@);
        self.tree.begin(name);
        let path = self.tree.current_prefix();
        let ghost av = ActionV::MkDir { path: path@ };
        let ghost old_actions = actions_view(self.actions@);
        self.actions.push(Action::MkDir { path });
        proof {
            lemma_actions_view_push(old(self).actions@, self.actions@[self.actions@.len() - 1]);
            lemma_actions_entries_push(old_actions, av);
            assert(action_entries(av) =~= seq![
                (joined(old(self).tree.cur_prefix(), name@), NodeKind::Dir),
            ]);
            lemma_mirrors_step(
                old_actions,
                old_entries,
                av,
                (joined(old(self).tree.cur_prefix(), name@), NodeKind::Dir),
            );
        }
    }

    /// Leaves the current preview branch.
    pub fn leave_dir(&mut self)
        requires
            old(self).tree.prefixes@.len() > 0,
        ensures
            final(self).actions@ =~= old(self).actions@,
            final(self).tree.entries@ =~= old(self).tree.entries@,
            final(self).tree.prefixes@ =~= old(self).tree.prefixes@.drop_last(),
            old(self).mirrors() ==> final(self).mirrors(),
    {
        self.tree.end();
    }

    /// Plans a file with computed contents: a `WriteFile` action and a
    /// preview leaf under the current branch.
    pub fn write_file(&mut self, name: &str, contents: String)
        ensures
            actions_view(final(self).actions@) =~= actions_view(old(self).actions@).push(
                ActionV::WriteFile {
                    path: joined(old(self).tree.cur_prefix(), name@),
                    contents: contents@,
                },
            ),
            entries_view(final(self).tree.entries@) =~= entries_view(old(self).tree.entries@).push(
                (joined(old(self).tree.cur_prefix(), name@), NodeKind::File),
            ),
            final(self).tree.prefixes@ =~= old(self).tree.prefixes@,
            old(self).mirrors() ==> final(self).mirrors(),
    {
        let ghost old_entries = entries_view(self.tree.entries@);
        let ghost old_actions = actions_view(self.actions@);
        let path = self.tree.path_under(name);
        let ghost av = ActionV::WriteFile { path: path@, contents: contents@ };
        self.tree.add_leaf(name);
        self.actions.push(Action::WriteFile { path, contents });
        proof {
            lemma_actions_view_push(
                old(self).actions@,
                self.actions@[self.actions@.len() - 1],
            );
            lemma_actions_entries_push(old_actions, av);
            lemma_mirrors_step(
                old_actions,
                old_entries,
                av,
                (joined(old(self).tree.cur_prefix(), name@), NodeKind::File),
            );
        }
    }

    /// Plans appending to a file: an `AppendFile` action and a preview leaf.
    pub fn append_file(&mut self, name: &str, contents: String)
        ensures
            actions_view(final(self).actions@) =~= actions_view(old(self).actions@).push(
                ActionV::AppendFile {
                    path: joined(old(self).tree.cur_prefix(), name@),
                    contents: contents@,
                },
            ),
            entries_view(final(self).tree.entries@) =~= entries_view(old(self).tree.entries@).push(
                (joined(old(self).tree.cur_prefix(), name@), NodeKind::File),
            ),
            final(self).tree.prefixes@ =~= old(self).tree.prefixes@,
            old(self).mirrors() ==> final(self).mirrors(),
    {
        let ghost old_entries = entries_view(self.tree.entries@);
        let ghost old_actions = actions_view(self.actions@);
        let path = self.tree.path_under(name);
        let ghost av = ActionV::AppendFile { path: path@, contents: contents@ };
        self.tree.add_leaf(name);
        self.actions.push(Action::AppendFile { path, contents });
        proof {
            lemma_actions_view_push(
                old(self).actions@,
                self.actions@[self.actions@.len() - 1],
            );
            lemma_actions_entries_push(old_actions, av);
            lemma_mirrors_step(
                old_actions,
                old_entries,
                av,
                (joined(old(self).tree.cur_prefix(), name@), NodeKind::File),
            );
        }
    }

    /// Plans overwriting a file this plan has already created: a `FillFile`
    /// action with no preview entry of its own.
    pub fn fill_file(&mut self, name: &str, contents: String)
        ensures
            actions_view(final(self).actions@) =~= actions_view(old(self).actions@).push(
                ActionV::FillFile {
                    path: joined(old(self).tree.cur_prefix(), name@),
                    contents: contents@,
                },
            ),
            final(self).tree == old(self).tree,
            old(self).mirrors() ==> final(self).mirrors(),
    {
        let ghost old_entries = entries_view(self.tree.entries@);
        let ghost old_actions = actions_view(self.actions@);
        let path = self.tree.path_under(name);
        let ghost av = ActionV::FillFile { path: path@, contents: contents@ };
        self.actions.push(Action::FillFile { path, contents });
        proof {
            lemma_actions_view_push(
                old(self).actions@,
                self.actions@[self.actions@.len() - 1],
            );
            lemma_actions_entries_push(old_actions, av);
            assert(action_entries(av) =~= Seq::<(Seq<char>, NodeKind)>::empty());
            assert(actions_entries(old_actions.push(av)) =~= actions_entries(old_actions));
        }
    }

    /// Plans copying an outside file into the target directory: a `CopyFile`
    /// action and a preview leaf.
    pub fn copy_file(&mut self, from: String, name: &str)
        ensures
            actions_view(final(self).actions@) =~= actions_view(old(self).actions@).push(
                ActionV::CopyFile {
                    from: from@,
                    to: joined(old(self).tree.cur_prefix(), name@),
                },
            ),
            entries_view(final(self).tree.entries@) =~= entries_view(old(self).tree.entries@).push(
                (joined(old(self).tree.cur_prefix(), name@), NodeKind::File),
            ),
            final(self).tree.prefixes@ =~= old(self).tree.prefixes@,
            old(self).mirrors() ==> final(self).mirrors(),
    {
        let ghost old_entries = entries_view(self.tree.entries@);
        let ghost old_actions = actions_view(self.actions@);
        let path = self.tree.path_under(name);
        let ghost av = ActionV::CopyFile { from: from@, to: path@ };
        self.tree.add_leaf(name);
        self.actions.push(Action::CopyFile { from, to: path });
        proof {
            lemma_actions_view_push(
                old(self).actions@,
                self.actions@[self.actions@.len() - 1],
            );
            lemma_actions_entries_push(old_actions, av);
            lemma_mirrors_step(
                old_actions,
                old_entries,
                av,
                (joined(old(self).tree.cur_prefix(), name@), NodeKind::File),
            );
        }
    }

    /// Plans downloading an asset into the target directory: a `FetchAsset`
    /// action and a preview leaf.
    pub fn fetch_asset(&mut self, url: String, name: &str)
        ensures
            actions_view(final(self).actions@) =~= actions_view(old(self).actions@).push(
                ActionV::FetchAsset {
                    url: url@,
                    path: joined(old(self).tree.cur_prefix(), name@),
                },
            ),
            entries_view(final(self).tree.entries@) =~= entries_view(old(self).tree.entries@).push(
                (joined(old(self).tree.cur_prefix(), name@), NodeKind::File),
            ),
            final(self).tree.prefixes@ =~= old(self).tree.prefixes@,
            old(self).mirrors() ==> final(self).mirrors(),
    {
        let ghost old_entries = entries_view(self.tree.entries@);
        let ghost old_actions = actions_view(self.actions@);
        let path = self.tree.path_under(name);
        let ghost av = ActionV::FetchAsset { url: url@, path: path@ };
        self.tree.add_leaf(name);
        self.actions.push(Action::FetchAsset { url, path });
        proof {
            lemma_actions_view_push(
                old(self).actions@,
                self.actions@[self.actions@.len() - 1],
            );
            lemma_actions_entries_push(old_actions, av);
            lemma_mirrors_step(
                old_actions,
                old_entries,
                av,
                (joined(old(self).tree.cur_prefix(), name@), NodeKind::File),
            );
        }
    }

    /// Plans initializing a binary crate in the current branch's directory:
    /// one action, and the preview leaves for the manifest, the `src`
    /// directory and the entrypoint stub the initializer creates.
    pub fn init_bin_crate(&mut self)
        ensures
            actions_view(final(self).actions@) =~= actions_view(old(self).actions@).push(
                ActionV::InitBinCrate { path: old(self).tree.cur_prefix() },
            ),
            entries_view(final(self).tree.entries@) =~= entries_view(old(self).tree.entries@)
                + init_crate_entries(old(self).tree.cur_prefix(), "src/main.rs"@),
            final(self).tree.prefixes@ =~= old(self).tree.prefixes@,
            final(self).tree.cur_prefix() == old(self).tree.cur_prefix(),
            old(self).mirrors() ==> final(self).mirrors(),
    {
        let ghost old_entries = entries_view(self.tree.entries@);
        let ghost old_actions = actions_view(self.actions@);
        let ghost p = self.tree.cur_prefix();
        let path = self.tree.current_prefix();
        let ghost av = ActionV::InitBinCrate { path: path@ };
        self.tree.add_leaf("Cargo.toml");
        self.tree.begin("src");
        self.tree.add_leaf("main.rs");
        self.tree.end();
        self.actions.push(Action::InitBinCrate { path });
        proof {
            lemma_actions_view_push(
                old(self).actions@,
                self.actions@[self.actions@.len() - 1],
            );
            lemma_actions_entries_push(old_actions, av);
            reveal_strlit("src");
            reveal_strlit("/");
            reveal_strlit("main.rs");
            reveal_strlit("src/main.rs");
            lemma_joined_under(p, "src"@, "main.rs"@);
            assert("src/main.rs"@ =~= "src"@ + "/"@ + "main.rs"@);
            assert(entries_view(self.tree.entries@) =~= old_entries
                + init_crate_entries(p, "src/main.rs"@));
            if old(self).mirrors() {
                assert(actions_entries(old_actions.push(av)) =~= old_entries + action_entries(av));
                assert(action_entries(av) =~= init_crate_entries(p, "src/main.rs"@));
            }
        }
    }

    /// Plans initializing a library crate in the current branch's directory.
    pub fn init_lib_crate(&mut self)
        ensures
            actions_view(final(self).actions@) =~= actions_view(old(self).actions@).push(
                ActionV::InitLibCrate { path: old(self).tree.cur_prefix() },
            ),
            entries_view(final(self).tree.entries@) =~= entries_view(old(self).tree.entries@)
                + init_crate_entries(old(self).tree.cur_prefix(), "src/lib.rs"@),
            final(self).tree.prefixes@ =~= old(self).tree.prefixes@,
            final(self).tree.cur_prefix() == old(self).tree.cur_prefix(),
            old(self).mirrors() ==> final(self).mirrors(),
    {
        let ghost old_entries = entries_view(self.tree.entries@);
        let ghost old_actions = actions_view(self.actions@);
        let ghost p = self.tree.cur_prefix();
        let path = self.tree.current_prefix();
        let ghost av = ActionV::InitLibCrate { path: path@ };
        self.tree.add_leaf("Cargo.toml");
        self.tree.begin("src");
        self.tree.add_leaf("lib.rs");
        self.tree.end();
        self.actions.push(Action::InitLibCrate { path });
        proof {
            lemma_actions_view_push(
                old(self).actions@,
                self.actions@[self.actions@.len() - 1],
            );
            lemma_actions_entries_push(old_actions, av);
            reveal_strlit("src");
            reveal_strlit("/");
            reveal_strlit("lib.rs");
            reveal_strlit("src/lib.rs");
            lemma_joined_under(p, "src"@, "lib.rs"@);
            assert("src/lib.rs"@ =~= "src"@ + "/"@ + "lib.rs"@);
            assert(entries_view(self.tree.entries@) =~= old_entries
                + init_crate_entries(p, "src/lib.rs"@));
            if old(self).mirrors() {
                assert(actions_entries(old_actions.push(av)) =~= old_entries + action_entries(av));
                assert(action_entries(av) =~= init_crate_entries(p, "src/lib.rs"@));
            }
        }
    }
}

/// The entries a crate initializer creates under `p`: the manifest, the
/// `src` directory, and the entrypoint (`src/main.rs` or `src/lib.rs`).
pub open spec fn init_crate_entries(p: Seq<char>, entry: Seq<char>) -> Seq<(Seq<char>, NodeKind)> {
    seq![
        (under(p, "Cargo.toml"@), NodeKind::File),
        (under(p, "src"@), NodeKind::Dir),
        (under(p, entry), NodeKind::File),
    ]
}

/// Placing `name` under `p/"src"` is the same as placing `"src/" + name`
/// under `p`.
pub proof fn lemma_joined_under(p: Seq<char>, dir: Seq<char>, name: Seq<char>)
    requires
        dir.len() > 0,
    ensures
        joined(joined(p, dir), name) =~= joined(p, dir + "/"@ + name),
{
    if p.len() == 0 {
        assert(joined(joined(p, dir), name) =~= dir + "/"@ + name);
    } else {
        assert(joined(joined(p, dir), name) =~= (p + "/"@ + dir) + "/"@ + name);
        assert((p + "/"@ + dir) + "/"@ + name =~= p + "/"@ + (dir + "/"@ + name));
    }
}

/// The view of a pushed action sequence is the pushed view.
pub proof fn lemma_actions_view_push(s: Seq<Action>, a: Action)
    ensures
        actions_view(s.push(a)) =~= actions_view(s).push(a@),
{
}

/// Pushing an action whose single entry is also pushed on the preview side
/// keeps the plan mirrored.
pub proof fn lemma_mirrors_step(
    old_actions: Seq<ActionV>,
    old_entries: Seq<(Seq<char>, NodeKind)>,
    av: ActionV,
    e: (Seq<char>, NodeKind),
)
    requires
        action_entries(av) =~= seq![e],
    ensures
        actions_entries(old_actions) =~= old_entries ==> actions_entries(old_actions.push(av))
            =~= old_entries.push(e),
{
    lemma_actions_entries_push(old_actions, av);
}

/// The modelled contents of one file.
pub enum FileV {
    /// Text the plan computed itself.
    Text(Seq<char>),
    /// Contents that only an outside capability determines: a copied file, a
    /// downloaded asset, an initializer's stub.
    Opaque,
}

/// A ghost model of the target directory: which directories exist, and what
/// each file holds.
pub struct FsModel {
    /// The directories that exist, as paths relative to the target directory.
    pub dirs: Set<Seq<char>>,
    /// The files that exist, with their modelled contents.
    pub files: Map<Seq<char>, FileV>,
}

/// What appending `c` to a file holding `cur` leaves behind.
pub open spec fn appended(cur: Option<FileV>, c: Seq<char>) -> FileV {
    match cur {
        Some(FileV::Text(t)) => FileV::Text(t + c),
        Some(FileV::Opaque) => FileV::Opaque,
        None => FileV::Text(c),
    }
}

/// The meaning of one action, as a transformation of the filesystem model.
pub open spec fn apply_action(fs: FsModel, a: ActionV) -> FsModel {
    match a {
        ActionV::MkDir { path } => FsModel { dirs: fs.dirs.insert(path), ..fs },
        ActionV::WriteFile { path, contents } => FsModel {
            files: fs.files.insert(path, FileV::Text(contents)),
            ..fs
        },
        ActionV::FillFile { path, contents } => FsModel {
            files: fs.files.insert(path, FileV::Text(contents)),
            ..fs
        },
        ActionV::AppendFile { path, contents } => FsModel {
            files: fs.files.insert(
                path,
                appended(
                    if fs.files.contains_key(path) {
                        Some(fs.files[path])
                    } else {
                        None
                    },
                    contents,
                ),
            ),
            ..fs
        },
        ActionV::CopyFile { to, .. } => FsModel {
            files: fs.files.insert(to, FileV::Opaque),
            ..fs
        },
        ActionV::InitBinCrate { path } => FsModel {
            dirs: fs.dirs.insert(under(path, "src"@)),
            files: fs.files.insert(under(path, "Cargo.toml"@), FileV::Opaque).insert(
                under(path, "src/main.rs"@),
                FileV::Opaque,
            ),
        },
        ActionV::InitLibCrate { path } => FsModel {
            dirs: fs.dirs.insert(under(path, "src"@)),
            files: fs.files.insert(under(path, "Cargo.toml"@), FileV::Opaque).insert(
                under(path, "src/lib.rs"@),
                FileV::Opaque,
            ),
        },
        ActionV::FetchAsset { path, .. } => FsModel {
            files: fs.files.insert(path, FileV::Opaque),
            ..fs
        },
    }
}

/// The meaning of an action sequence, applied left to right.
pub open spec fn apply_actions(fs: FsModel, s: Seq<ActionV>) -> FsModel
    decreases s.len(),
{
    if s.len() == 0 {
        fs
    } else {
        apply_actions(apply_action(fs, s[0]), s.drop_first())
    }
}

/// Applying no actions leaves the filesystem untouched: the dry-run path,
/// which executes nothing, changes nothing.
pub proof fn lemma_empty_plan_mutates_nothing(fs: FsModel)
    ensures
        apply_actions(fs, Seq::<ActionV>::empty()) == fs,
{
}

} // verus!
