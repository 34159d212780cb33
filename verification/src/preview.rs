//! The preview tree accumulator.
//!
//! A [`PreviewTree`] records, in order, every directory and file that a run
//! of the pipeline would create.  A step pushes a named branch with `begin`,
//! adds files with `add_leaf`, and pops back to the parent with `end`; the
//! `begin`/`end` calls must balance before the tree is rendered.  Beside the
//! displayed rows the tree accumulates, for every row, the full path of the
//! entry relative to the target directory, which is what the preview/execute
//! duality is stated over.  Paths are `/`-separated.

use vstd::prelude::*;

verus! {

/// Whether a planned entry is a directory or a file.
#[derive(Debug, Clone, Copy, PartialEq, Eq, Structural)]
pub enum NodeKind {
    /// A directory.
    Dir,
    /// A file.
    File,
}

/// One displayed row of the preview tree: a name at a nesting depth.
#[derive(Debug, Clone, PartialEq)]
pub struct PreviewRow {
    /// Nesting depth below the target directory.
    pub depth: usize,
    /// The name of the entry.
    pub name: String,
    /// Directory or file.
    pub kind: NodeKind,
}

/// One planned entry: a full path relative to the target directory.
#[derive(Debug, Clone, PartialEq)]
pub struct PathEntry {
    /// The `/`-separated path relative to the target directory.
    pub path: String,
    /// Directory or file.
    pub kind: NodeKind,
}

/// `name` placed under `prefix`: the paths of the preview tree and of the
/// plan are built with this alone.
pub open spec fn joined(prefix: Seq<char>, name: Seq<char>) -> Seq<char> {
    if prefix.len() == 0 {
        name
    } else {
        prefix + "/"@ + name
    }
}

/// The view of a row sequence: (depth, name, kind) triples.
pub open spec fn rows_view(rows: Seq<PreviewRow>) -> Seq<(int, Seq<char>, NodeKind)> {
    rows.map_values(|r: PreviewRow| (r.depth as int, r.name@, r.kind))
}

/// The view of an entry sequence: (path, kind) pairs.
pub open spec fn entries_view(entries: Seq<PathEntry>) -> Seq<(Seq<char>, NodeKind)> {
    entries.map_values(|e: PathEntry| (e.path@, e.kind))
}

/// The preview tree accumulator.
#[derive(Debug, Clone, PartialEq)]
pub struct PreviewTree {
    /// The displayed rows, in insertion order.
    pub rows: Vec<PreviewRow>,
    /// The stack of open branches, as full prefixes; the last is current.
    pub prefixes: Vec<String>,
    /// The full path of every planned entry, in insertion order.
    pub entries: Vec<PathEntry>,
}

impl PreviewTree {
    /// The prefix that `add_leaf` and `begin` currently place names under.
    pub open spec fn cur_prefix(&self) -> Seq<char> {
        if self.prefixes@.len() == 0 {
            Seq::<char>::empty()
        } else {
            self.prefixes@.last()@
        }
    }

    /// The current nesting depth: the number of open branches.
    pub open spec fn depth(&self) -> int {
        self.prefixes@.len() as int
    }

    /// All `begin` calls have been balanced by an `end`.
    pub open spec fn balanced(&self) -> bool {
        self.prefixes@.len() == 0
    }

    /// An empty tree: no rows, no open branches, no entries.
    pub fn new() -> (r: Self)
        ensures
            r.rows@ =~= Seq::<PreviewRow>::empty(),
            r.prefixes@ =~= Seq::<String>::empty(),
            r.entries@ =~= Seq::<PathEntry>::empty(),
    {
        PreviewTree { rows: Vec::new(), prefixes: Vec::new(), entries: Vec::new() }
    }

    /// The current prefix, as an owned string.
    pub fn current_prefix(&self) -> (r: String)
        ensures
            r@ == self.cur_prefix(),
    {
        if self.prefixes.len() == 0 {
            String::new()
        } else {
            self.prefixes[self.prefixes.len() - 1].clone()
        }
    }

    /// `name` placed under the current prefix.
    pub fn path_under(&self, name: &str) -> (r: String)
        ensures
            r@ == joined(self.cur_prefix(), name@),
    {
        let mut r = self.current_prefix();
        if r.as_str().is_empty() {
            String::from_str(name)
        } else {
            r.append("/");
            r.append(name);
            r
        }
    }

    /// Pushes a named branch and makes it current: a planned directory.
    pub fn begin(&mut self, name: &str)
        ensures
            final(self).prefixes@.len() == old(self).prefixes@.len() + 1,
            final(self).prefixes@ =~= old(self).prefixes@.push(final(self).prefixes@.last()),
            final(self).prefixes@.last()@ == joined(old(self).cur_prefix(), name@),
            final(self).cur_prefix() == joined(old(self).cur_prefix(), name@),
            rows_view(final(self).rows@) =~= rows_view(old(self).rows@).push(
                (old(self).depth(), name@, NodeKind::Dir),
            ),
            entries_view(final(self).entries@) =~= entries_view(old(self).entries@).push(
                (joined(old(self).cur_prefix(), name@), NodeKind::Dir),
            ),
    {
        let path = self.path_under(name);
        self.rows.push(PreviewRow {
            depth: self.prefixes.len(),
            name: String::from_str(name),
            kind: NodeKind::Dir,
        });
        self.entries.push(PathEntry { path: path.clone(), kind: NodeKind::Dir });
        self.prefixes.push(path);
    }

    /// Pops back to the parent branch.
    pub fn end(&mut self)
        requires
            old(self).prefixes@.len() > 0,
        ensures
            final(self).prefixes@ =~= old(self).prefixes@.drop_last(),
            final(self).rows@ =~= old(self).rows@,
            final(self).entries@ =~= old(self).entries@,
    {
        self.prefixes.pop();
    }

    /// Inserts a terminal entry under the current branch: a planned file.
    pub fn add_leaf(&mut self, name: &str)
        ensures
            final(self).prefixes@ =~= old(self).prefixes@,
            rows_view(final(self).rows@) =~= rows_view(old(self).rows@).push(
                (old(self).depth(), name@, NodeKind::File),
            ),
            entries_view(final(self).entries@) =~= entries_view(old(self).entries@).push(
                (joined(old(self).cur_prefix(), name@), NodeKind::File),
            ),
    {
        let path = self.path_under(name);
        self.rows.push(PreviewRow {
            depth: self.prefixes.len(),
            name: String::from_str(name),
            kind: NodeKind::File,
        });
        self.entries.push(PathEntry { path, kind: NodeKind::File });
    }

    /// Renders the finished tree: one line per row, each name indented two
    /// spaces per nesting level, in the order the entries were planned.
    pub fn render(&self) -> (r: Vec<String>)
        requires
            self.balanced(),
        ensures
            r@.len() == self.rows@.len(),
            forall|i: int| 0 <= i < r@.len() ==> r@[i]@ == rendered_line(self.rows@[i]),
    {
        let mut out: Vec<String> = Vec::new();
        let mut i: usize = 0;
        while i < self.rows.len()
            invariant
                0 <= i <= self.rows@.len(),
                out@.len() == i,
                forall|j: int| 0 <= j < i ==> out@[j]@ == rendered_line(self.rows@[j]),
            decreases self.rows@.len() - i,
        {
            let row = &self.rows[i];
            let mut line = String::new();
            let mut d: usize = 0;
            while d < row.depth
                invariant
                    0 <= d <= row.depth,
                    line@ =~= indent(d as int),
                decreases row.depth - d,
            {
                line.append("  ");
                proof {
                    assert(line@ =~= indent(d as int) + "  "@);
                    assert(indent(d + 1 as int) == indent(d as int) + "  "@);
                }
                d = d + 1;
            }
            line.append(row.name.as_str());
            assert(line@ == rendered_line(self.rows@[i as int]));
            out.push(line);
            i = i + 1;
        }
        out
    }
}

/// Two spaces per nesting level.
pub open spec fn indent(depth: int) -> Seq<char>
    decreases depth,
{
    if depth <= 0 {
        Seq::<char>::empty()
    } else {
        indent(depth - 1) + "  "@
    }
}

/// How one row of the preview tree is displayed.
pub open spec fn rendered_line(row: PreviewRow) -> Seq<char> {
    indent(row.depth as int) + row.name@
}

} // verus!
