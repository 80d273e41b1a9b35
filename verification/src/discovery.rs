//! Unit discovery: a worklist-driven walk of a directory tree that collects
//! every regular file carrying the recognized `.dbc` extension. The walk is
//! driven from outside (directory listings are handed in one at a time), so
//! the traversal itself stays bounded and deterministic for a given sequence
//! of listings. What a whole descent owes is stated over a tree model:
//! `lemma_tree_units_exact` proves that recursive descent finds exactly the
//! reachable files with the recognized extension.

use vstd::prelude::*;

use crate::naming::is_dbc_name;

verus! {

/// The kind of a directory entry, as reported by the filesystem.
pub enum EntryKind {
    /// A regular file.
    File,
    /// A directory.
    Dir,
    /// Anything else (symlink, socket, unknown).
    Other,
}

/// One entry of a directory listing: its full path, its own file name, and
/// its kind.
pub struct DirEntry {
    pub path: String,
    pub name: String,
    pub kind: EntryKind,
}

/// One discovered input unit: its full path plus its declared name (the
/// file's own name as recorded at discovery time, used for diagnostics and
/// embedded in generated output).
pub struct SourceUnit {
    pub path: String,
    pub name: String,
}

/// The discovery worklist: directories still to be listed, and the units
/// collected so far, in discovery order.
pub struct Discovery {
    pub pending: Vec<String>,
    pub units: Vec<SourceUnit>,
}

/// A listing entry becomes a unit exactly when it is a regular file with the
/// recognized extension.
pub open spec fn is_unit_entry(e: DirEntry) -> bool {
    e.kind is File && is_dbc_name(e.name@)
}

/// The units contributed by one directory listing, in listing order.
pub open spec fn units_of(es: Seq<DirEntry>) -> Seq<SourceUnit>
    decreases es.len(),
{
    if es.len() == 0 {
        Seq::empty()
    } else {
        units_of(es.drop_last()) + if is_unit_entry(es.last()) {
            seq![SourceUnit { path: es.last().path, name: es.last().name }]
        } else {
            Seq::empty()
        }
    }
}

/// The subdirectories named by one directory listing, in listing order.
pub open spec fn dirs_of(es: Seq<DirEntry>) -> Seq<String>
    decreases es.len(),
{
    if es.len() == 0 {
        Seq::empty()
    } else {
        dirs_of(es.drop_last()) + if es.last().kind is Dir {
            seq![es.last().path]
        } else {
            Seq::empty()
        }
    }
}

/// A model of a directory tree: a regular file, a directory with its entries
/// in listing order, or anything else. The walk only ever sees the real tree
/// one listing at a time; this model is what its whole-tree law speaks of.
pub enum FsModel {
    File { path: Seq<char>, name: Seq<char> },
    Dir { path: Seq<char>, entries: Seq<FsModel> },
    Other { path: Seq<char>, name: Seq<char> },
}

/// Every `(path, name)` that recursive descent finds in the tree, in descent
/// order: a file contributes itself exactly when its name carries the
/// recognized extension; a directory contributes its entries' units in
/// order; anything else contributes nothing.
pub open spec fn tree_units(t: FsModel) -> Seq<(Seq<char>, Seq<char>)>
    decreases t, 0int,
{
    match t {
        FsModel::File { path, name } => if is_dbc_name(name) {
            seq![(path, name)]
        } else {
            Seq::empty()
        },
        FsModel::Dir { path: _, entries } => forest_units(entries, 0),
        FsModel::Other { .. } => Seq::empty(),
    }
}

/// The units of the trees `ts[from..]`, in order.
pub open spec fn forest_units(ts: Seq<FsModel>, from: int) -> Seq<(Seq<char>, Seq<char>)>
    decreases ts, ts.len() - from,
{
    if from < 0 || from >= ts.len() {
        Seq::empty()
    } else {
        tree_units(ts[from]) + forest_units(ts, from + 1)
    }
}

/// Whether the tree holds, anywhere reachable by descent, a regular file
/// with this path and name.
pub open spec fn tree_has_file(t: FsModel, path: Seq<char>, name: Seq<char>) -> bool
    decreases t, 0int,
{
    match t {
        FsModel::File { path: p, name: n } => p == path && n == name,
        FsModel::Dir { path: _, entries } => exists|i: int|
            0 <= i < entries.len() && tree_has_file(#[trigger] entries[i], path, name),
        FsModel::Other { .. } => false,
    }
}

/// The whole-tree law of unit discovery: recursive descent returns a
/// `(path, name)` pair exactly when the tree holds a regular file with that
/// path and name and the name carries the recognized extension — every
/// reachable `.dbc` file is returned, and no file of another extension and
/// no directory itself ever is.
pub proof fn lemma_tree_units_exact(t: FsModel, path: Seq<char>, name: Seq<char>)
    ensures
        tree_units(t).contains((path, name)) <==> (tree_has_file(t, path, name) && is_dbc_name(
            name,
        )),
    decreases t, 0int,
{
    match t {
        FsModel::File { path: p, name: n } => {
            if is_dbc_name(n) {
                assert(tree_units(t) == seq![(p, n)]);
                if p == path && n == name {
                    assert(tree_units(t)[0] == (path, name));
                }
                if tree_units(t).contains((path, name)) {
                    let k = choose|k: int|
                        0 <= k < tree_units(t).len() && tree_units(t)[k] == (path, name);
                    assert(tree_units(t)[k] == (p, n));
                }
            } else {
                assert(tree_units(t).len() == 0);
            }
        },
        FsModel::Dir { path: _, entries } => {
            lemma_forest_units_exact(entries, 0, path, name);
        },
        FsModel::Other { .. } => {
            assert(tree_units(t).len() == 0);
        },
    }
}

/// The law over a row of sibling trees: their concatenated units hold a pair
/// exactly when one of them holds that file with the recognized extension.
pub proof fn lemma_forest_units_exact(ts: Seq<FsModel>, from: int, path: Seq<char>, name: Seq<
    char,
>)
    requires
        0 <= from,
    ensures
        forest_units(ts, from).contains((path, name)) <==> exists|i: int|
            from <= i < ts.len() && tree_has_file(#[trigger] ts[i], path, name) && is_dbc_name(
                name,
            ),
    decreases ts, ts.len() - from,
{
    if from < 0 || from >= ts.len() {
        assert(forest_units(ts, from).len() == 0);
    } else {
        lemma_tree_units_exact(ts[from], path, name);
        lemma_forest_units_exact(ts, from + 1, path, name);
        let head = tree_units(ts[from]);
        let tail = forest_units(ts, from + 1);
        let all = forest_units(ts, from);
        assert(all == head + tail);
        if all.contains((path, name)) {
            let k = choose|k: int| 0 <= k < all.len() && all[k] == (path, name);
            if k < head.len() {
                assert(head[k] == (path, name));
                assert(head.contains((path, name)));
                assert(tree_has_file(ts[from], path, name) && is_dbc_name(name));
            } else {
                assert(tail[k - head.len()] == (path, name));
                assert(tail.contains((path, name)));
                let i = choose|i: int|
                    from + 1 <= i < ts.len() && tree_has_file(#[trigger] ts[i], path, name)
                        && is_dbc_name(name);
                assert(from <= i < ts.len() && tree_has_file(ts[i], path, name));
            }
        }
        if exists|i: int|
            from <= i < ts.len() && tree_has_file(#[trigger] ts[i], path, name) && is_dbc_name(
                name,
            ) {
            let i = choose|i: int|
                from <= i < ts.len() && tree_has_file(#[trigger] ts[i], path, name) && is_dbc_name(
                    name,
                );
            if i == from {
                let k = choose|k: int| 0 <= k < head.len() && head[k] == (path, name);
                assert(all[k] == (path, name));
            } else {
                assert(from + 1 <= i < ts.len() && tree_has_file(ts[i], path, name));
                assert(tail.contains((path, name)));
                let k = choose|k: int| 0 <= k < tail.len() && tail[k] == (path, name);
                assert(all[head.len() + k] == (path, name));
            }
            assert(all.contains((path, name)));
        }
    }
}

impl Discovery {
    /// Discovery over a root that is itself a regular file: that single file
    /// is the whole result, regardless of its extension, and nothing is left
    /// to list.
    pub fn root_file(path: String, name: String) -> (d: Discovery)
        ensures
            d.pending@.len() == 0,
            d.units@.len() == 1,
            d.units@[0].path == path,
            d.units@[0].name == name,
    {
        let mut units: Vec<SourceUnit> = Vec::new();
        units.push(SourceUnit { path, name });
        Discovery { pending: Vec::new(), units }
    }

    /// Discovery over a root directory: nothing found yet, the root itself
    /// waiting to be listed.
    pub fn root_dir(path: String) -> (d: Discovery)
        ensures
            d.units@.len() == 0,
            d.pending@ == seq![path],
    {
        let mut pending: Vec<String> = Vec::new();
        pending.push(path);
        Discovery { pending, units: Vec::new() }
    }

    /// Takes the next directory waiting to be listed, if any. The walk is
    /// finished once this returns `None`.
    pub fn next_pending(&mut self) -> (r: Option<String>)
        ensures
            final(self).units == old(self).units,
            old(self).pending@.len() == 0 ==> r is None,
            old(self).pending@.len() == 0 ==> final(self).pending@ == old(self).pending@,
            old(self).pending@.len() > 0 ==> r == Some(old(self).pending@.last()),
            old(self).pending@.len() > 0 ==> final(self).pending@ == old(self).pending@.drop_last(),
    {
        self.pending.pop()
    }

    /// Records one directory's listing: every regular file with the
    /// recognized extension joins the result, in listing order; every
    /// subdirectory joins the worklist; everything else is passed over. One
    /// call realises one level of the descent that `tree_units` describes —
    /// the listing's matching files are exactly what this level contributes,
    /// and its directories are what the walk still owes.
    pub fn record_listing(&mut self, entries: &Vec<DirEntry>)
        ensures
            final(self).units@ == old(self).units@ + units_of(entries@),
            final(self).pending@ == old(self).pending@ + dirs_of(entries@),
    {
        let n = entries.len();
        let mut i: usize = 0;
        while i < n
            invariant
                i <= n,
                n == entries@.len(),
                self.units@ == old(self).units@ + units_of(entries@.take(i as int)),
                self.pending@ == old(self).pending@ + dirs_of(entries@.take(i as int)),
            decreases n - i,
        {
            let entry = &entries[i];
            match entry.kind {
                EntryKind::Dir => {
                    self.pending.push(entry.path.clone());
                },
                EntryKind::File => {
                    if crate::naming::has_dbc_extension(entry.name.as_str()) {
                        self.units.push(
                            SourceUnit { path: entry.path.clone(), name: entry.name.clone() },
                        );
                    }
                },
                EntryKind::Other => {},
            }
            proof {
                let taken = entries@.take(i + 1int);
                assert(taken.drop_last() =~= entries@.take(i as int));
                assert(taken.last() == entries@[i as int]);
                assert(self.units@ =~= old(self).units@ + units_of(taken));
                assert(self.pending@ =~= old(self).pending@ + dirs_of(taken));
            }
            i = i + 1;
        }
        proof {
            assert(entries@.take(n as int) =~= entries@);
        }
    }
}

} // verus!
