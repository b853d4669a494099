use vstd::prelude::*;
use crate::ignore_policy::{spec_excluded, IgnoreSet};

verus! {

/// What a directory entry is, as the filesystem reports it. A symbolic link
/// is reported as such even when it points at a directory, so a walk never
/// revisits a directory through a cycle.
#[derive(Debug, Copy, Clone, PartialEq, Eq, Structural)]
pub enum EntryKind {
    File,
    Directory,
    Symlink,
    Other,
}

/// What the walk does with one directory entry.
#[derive(Debug, Copy, Clone, PartialEq, Eq, Structural)]
pub enum EntryDecision {
    /// A directory to descend into.
    Descend,
    /// A candidate file: hash it and rename it.
    Hash,
    /// Excluded by the ignore rules in force.
    SkipIgnored,
    /// A file not modified recently enough, with the staleness filter active.
    SkipStale,
    /// Symbolic links are never followed.
    SkipSymlink,
    /// Neither a regular file nor a directory.
    SkipOther,
}

/// A file is stale when its age exceeds the window strictly: one modified
/// exactly `threshold` seconds ago is still fresh. Times that lie in the
/// future are fresh.
pub open spec fn spec_stale(mtime: u64, now: u64, threshold: u64) -> bool {
    mtime + threshold < now
}

/// Whether a file last modified at `mtime` counts as stale at `now`.
pub fn is_stale(mtime: u64, now: u64, threshold: u64) -> (r: bool)
    ensures
        r == spec_stale(mtime, now, threshold),
{
    if mtime >= now {
        false
    } else {
        now - mtime > threshold
    }
}

/// The walk over the configured roots: the ignore rules currently in force
/// and the two filters the configuration sets. The caller enumerates the
/// filesystem and performs the renames; every decision is taken here.
pub struct Walker {
    /// Whether ignore files are consulted at all.
    pub respect_ignore: bool,
    /// Whether the staleness filter is bypassed.
    pub process_all: bool,
    /// The recency window for the staleness filter, in seconds.
    pub threshold: u64,
    /// The exclusion rules along the current descent path.
    pub ignores: IgnoreSet,
}

/// The decision for one entry: symbolic links are never followed; then the
/// ignore rules speak, when they are respected; a surviving directory is
/// descended into, and a surviving file is a candidate unless the staleness
/// filter drops it.
pub open spec fn spec_decision(
    w: Walker,
    path: Seq<char>,
    kind: EntryKind,
    mtime: u64,
    now: u64,
) -> EntryDecision {
    if kind == EntryKind::Symlink {
        EntryDecision::SkipSymlink
    } else if w.respect_ignore && spec_excluded(
        w.ignores.levels(),
        w.ignores.extra_level(),
        path,
        kind == EntryKind::Directory,
    ) {
        EntryDecision::SkipIgnored
    } else if kind == EntryKind::Directory {
        EntryDecision::Descend
    } else if kind == EntryKind::File {
        if w.process_all || !spec_stale(mtime, now, w.threshold) {
            EntryDecision::Hash
        } else {
            EntryDecision::SkipStale
        }
    } else {
        EntryDecision::SkipOther
    }
}

impl Walker {
    /// A walk with the given filters and no rules in force yet.
    pub fn new(respect_ignore: bool, process_all: bool, threshold: u64) -> (r: Self)
        ensures
            r.respect_ignore == respect_ignore,
            r.process_all == process_all,
            r.threshold == threshold,
            r.ignores.levels().len() == 0,
            r.ignores.extra_level() is None,
    {
        Walker { respect_ignore, process_all, threshold, ignores: IgnoreSet::new() }
    }

    /// Decides what to do with one directory entry.
    pub fn check_entry(&self, path: &str, kind: EntryKind, mtime: u64, now: u64) -> (d:
        EntryDecision)
        ensures
            d == spec_decision(*self, path@, kind, mtime, now),
    {
        if kind == EntryKind::Symlink {
            return EntryDecision::SkipSymlink;
        }
        if self.respect_ignore && self.ignores.excluded(path, kind == EntryKind::Directory) {
            return EntryDecision::SkipIgnored;
        }
        if kind == EntryKind::Directory {
            return EntryDecision::Descend;
        }
        if kind == EntryKind::File {
            if self.process_all || !is_stale(mtime, now, self.threshold) {
                EntryDecision::Hash
            } else {
                EntryDecision::SkipStale
            }
        } else {
            EntryDecision::SkipOther
        }
    }
}

/// The staleness filter and its override: with the filter active, a file
/// older than the window is skipped as stale; with `process_all` set, the
/// same file, under the same rules, is hashed regardless of its age.
pub proof fn lemma_staleness_filter(
    w: Walker,
    wa: Walker,
    path: Seq<char>,
    mtime: u64,
    now: u64,
)
    requires
        !w.process_all,
        wa == (Walker { process_all: true, ..w }),
        spec_stale(mtime, now, w.threshold),
        !(w.respect_ignore && spec_excluded(
            w.ignores.levels(),
            w.ignores.extra_level(),
            path,
            false,
        )),
    ensures
        spec_decision(w, path, EntryKind::File, mtime, now) == EntryDecision::SkipStale,
        spec_decision(wa, path, EntryKind::File, mtime, now) == EntryDecision::Hash,
{
}

} // verus!
