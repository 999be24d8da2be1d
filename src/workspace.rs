//! Pending changes to a project's files, gathered before any is applied so
//! that they can be shown and confirmed first.
use vstd::prelude::*;

use crate::names::text_eq;

verus! {

/// A pending change to one file.
#[derive(Clone, Debug)]
pub enum FileChange {
    Delete,
    Change(String),
}

/// Pending file operations under a project root; the latest one recorded for
/// a path is the one that counts. They are kept in a vector read newest
/// first rather than a map keyed by path text: for a map keyed by `String`
/// Verus proves nothing of lookups, so the one-change-per-path rule is stated
/// and proved over this vector instead.
#[derive(Clone, Debug)]
pub struct FileOperationStore {
    root: String,
    changes: Vec<(String, FileChange)>,
}

/// The latest change recorded for `path` in `changes`.
pub open spec fn latest_change(changes: Seq<(String, FileChange)>, path: Seq<char>) -> Option<FileChange>
    decreases changes.len(),
{
    if changes.len() == 0 {
        None
    } else if changes.last().0@ == path {
        Some(changes.last().1)
    } else {
        latest_change(changes.drop_last(), path)
    }
}

impl FileOperationStore {
    /// The project root.
    pub closed spec fn root_view(&self) -> Seq<char> {
        self.root@
    }

    /// The pending change of `path`.
    pub closed spec fn pending_of(&self, path: Seq<char>) -> Option<FileChange> {
        latest_change(self.changes@, path)
    }

    /// A store with no pending change.
    pub fn new(root: String) -> (r: Self)
        ensures
            r.root_view() == root@,
            forall|p: Seq<char>| r.pending_of(p) is None,
    {
        FileOperationStore { root, changes: Vec::new() }
    }

    /// The project root.
    pub fn root(&self) -> (r: &String)
        ensures
            r@ == self.root_view(),
    {
        &self.root
    }

    /// The pending change of `path`, if any.
    pub fn pending(&self, path: &str) -> (r: Option<&FileChange>)
        ensures
            match r {
                Some(c) => self.pending_of(path@) == Some(*c),
                None => self.pending_of(path@) is None,
            },
    {
        let mut i: usize = self.changes.len();
        assert(self.changes@.subrange(0, i as int) =~= self.changes@);
        while i > 0
            invariant
                i <= self.changes@.len(),
                latest_change(self.changes@, path@) == latest_change(
                    self.changes@.subrange(0, i as int),
                    path@,
                ),
            decreases i,
        {
            let ghost prefix = self.changes@.subrange(0, i as int);
            assert(prefix.drop_last() =~= self.changes@.subrange(0, i - 1));
            if text_eq(self.changes[i - 1].0.as_str(), path) {
                return Some(&self.changes[i - 1].1);
            }
            i = i - 1;
        }
        None
    }

    /// Records `change` as the pending change of `path`.
    pub fn record(&mut self, path: String, change: FileChange)
        ensures
            final(self).root_view() == old(self).root_view(),
            final(self).pending_of(path@) == Some(change),
            forall|p: Seq<char>| p != path@ ==> final(self).pending_of(p) == old(self).pending_of(p),
    {
        let ghost before = self.changes@;
        self.changes.push((path, change));
        assert(self.changes@.drop_last() =~= before);
    }
}

/// How pending changes are listed: with or without colours, and with or
/// without the changed contents.
#[derive(Clone, Copy, Debug, PartialEq, Eq, Structural)]
pub struct FileOperationsDisplay {
    pub show_contents: bool,
    pub highlight: bool,
}

/// The label of a change: a deletion, a new file, or a modified one.
pub open spec fn change_label(change: FileChange, is_new: bool) -> Seq<char> {
    match change {
        FileChange::Delete => "File deleted"@,
        FileChange::Change(_) => if is_new {
            "File created"@
        } else {
            "File modified"@
        },
    }
}

impl FileOperationsDisplay {
    /// The header line of a change to `path`: its label, a colon when colours
    /// do not set the label apart, then the path.
    pub fn header(&self, path: &str, change: &FileChange, is_new: bool) -> (r: String)
        ensures
            r@ == change_label(*change, is_new) + (if self.highlight { ""@ } else { ":"@ }) + " "@
                + path@,
    {
        let label = match change {
            FileChange::Delete => "File deleted",
            FileChange::Change(_) => if is_new {
                "File created"
            } else {
                "File modified"
            },
        };
        let text = String::from_str(label);
        let text = if self.highlight {
            text.concat("")
        } else {
            text.concat(":")
        };
        let text = text.concat(" ");
        text.concat(path)
    }
}

/// Changes to a project gathered by the migration tool.
#[derive(Clone, Debug)]
pub struct ChangesCtx {
    pub fs: FileOperationStore,
    pub will_disable_rustup_override: bool,
    pub description: Vec<String>,
}

impl ChangesCtx {
    /// No change yet, for the project at `root`.
    pub fn new(root: String) -> (r: Self)
        ensures
            r.fs.root_view() == root@,
            forall|p: Seq<char>| r.fs.pending_of(p) is None,
            !r.will_disable_rustup_override,
            r.description@.len() == 0,
    {
        ChangesCtx { fs: FileOperationStore::new(root), will_disable_rustup_override: false, description: Vec::new() }
    }

    /// Adds a line to the summary of changes.
    pub fn describe(&mut self, change: String)
        ensures
            final(self).description@ == old(self).description@.push(change),
            final(self).fs == old(self).fs,
            final(self).will_disable_rustup_override == old(self).will_disable_rustup_override,
    {
        self.description.push(change);
    }
}

} // verus!
